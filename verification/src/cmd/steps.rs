//! # Steps of the daemon
//!
//! What the daemon asks for step by step, which replies each step takes, and
//! what a failure does to it.

use crate::cmd::lifecycle::{Daemon, DaemonReply, DaemonRequest, Watcher};
use crate::cmd::proxy::ProxySource;
use crate::cmd::{AddressError, CommandError};
use crate::svc::cfg::Configuration;
use crate::svc::k8s::client::ClientError;
use std::path::PathBuf;
use vstd::prelude::*;

verus! {

/// A daemon that waits on a request takes every reply of the kind that answers
/// it, whatever the configuration is and whatever the reply carries, and no
/// other; one that waits on none takes no reply.
pub proof fn law_daemon_progress(stage: Daemon, reply: DaemonReply)
    ensures
        stage.pending() is None ==> !stage.takes(reply),
        stage.pending() matches Some(request) ==> (stage.takes(reply) <==> {
            ||| request is CreateKubeClient && reply is KubeClient
            ||| request is BuildConnector && reply is Connector
            ||| request is StartWatcher && reply is Done
            ||| request is ParseListen && reply is Listen
            ||| request is StartServer && reply is Done
            ||| request is AwaitTermination && reply is Terminated
            ||| request is AbortWatcher && reply is Done
            ||| request is JoinWatcher && reply is Done
            ||| request is AbortServer && reply is Done
            ||| request is JoinServer && reply is Done
        }),
        stage.pending() is None <==> stage is Finished,
{
}

/// A series of replies goes on for as long as there is a request: it starts
/// empty, and any reply that answers the request that is waited on can be put
/// behind it.
pub proof fn law_daemon_series(stage: Daemon, replies: Seq<DaemonReply>, reply: DaemonReply)
    ensures
        stage.run(seq![]) == stage,
        stage.takes_all(seq![]),
        stage.run(replies.push(reply)) == stage.run(replies).after(reply),
        stage.takes_all(replies.push(reply)) <==> stage.takes_all(replies) && stage.run(
            replies,
        ).takes(reply),
{
    assert(replies.push(reply).drop_last() =~= replies);
}

/// A request that fails ends the daemon at once, with the error that came and
/// what failed around it. A wrong address is told with its text.
pub proof fn law_daemon_stops(
    stage: Daemon,
    client: ClientError,
    connector: clevercloud_sdk::oauth10a::proxy::Error,
    text: String,
    address: AddressError,
    signal: std::io::Error,
)
    ensures
        stage.after(DaemonReply::KubeClient(Err(client))) == Daemon::Finished(
            Err(CommandError::Client(client)),
        ),
        stage.after(DaemonReply::Connector(Err(connector))) == Daemon::Finished(
            Err(CommandError::CleverClient(connector)),
        ),
        stage.pending() == Some(DaemonRequest::ParseListen(&text)) ==> stage.after(
            DaemonReply::Listen(Err(address)),
        ) == Daemon::Finished(Err(CommandError::Listen(text, address))),
        stage.after(DaemonReply::Terminated(Err(signal))) == Daemon::Finished(
            Err(CommandError::SigTerm(signal)),
        ),
{
}

/// What the daemon asks for as long as nothing fails, whatever the
/// configuration is.
///
/// The client of the cluster is created from the given path, and the connector
/// from the proxy for https that is configured, else from the one for http,
/// with the hosts to reach without it, else from the environment. Each of the
/// custom resources is watched, and the http server is started on the configured
/// address once it is parsed. When the signal has come, every watcher is
/// cancelled and only then waited for, and so is the server after them.
pub proof fn law_daemon_steps(
    kubeconfig: Option<PathBuf>,
    config: Configuration,
    source: ProxySource,
)
    requires
        match config.proxy {
            None => source is Environment,
            Some(proxy) => match (proxy.https, proxy.http) {
                (Some(url), _) => source == (ProxySource::Configured { url, no: proxy.no }),
                (None, Some(url)) => source == (ProxySource::Configured { url, no: proxy.no }),
                (None, None) => source is Environment,
            },
        },
    ensures
        ({
            let s0 = Daemon::KubeClient { kubeconfig, config };
            let s1 = s0.after(DaemonReply::KubeClient(Ok(())));
            let s2 = s1.after(DaemonReply::Connector(Ok(())));
            let s3 = s2.after(DaemonReply::Done);
            let s4 = s3.after(DaemonReply::Done);
            let s5 = s4.after(DaemonReply::Done);
            let s6 = s5.after(DaemonReply::Done);
            let s7 = s6.after(DaemonReply::Done);
            let s8 = s7.after(DaemonReply::Done);
            let s9 = s8.after(DaemonReply::Done);
            let s10 = s9.after(DaemonReply::Listen(Ok(())));
            let s11 = s10.after(DaemonReply::Done);
            let s12 = s11.after(DaemonReply::Terminated(Ok(())));
            let s13 = s12.after(DaemonReply::Done);
            let s14 = s13.after(DaemonReply::Done);
            let s15 = s14.after(DaemonReply::Done);
            let s16 = s15.after(DaemonReply::Done);
            let s17 = s16.after(DaemonReply::Done);
            let s18 = s17.after(DaemonReply::Done);
            let s19 = s18.after(DaemonReply::Done);
            let s20 = s19.after(DaemonReply::Done);
            let s21 = s20.after(DaemonReply::Done);
            let s22 = s21.after(DaemonReply::Done);
            let s23 = s22.after(DaemonReply::Done);
            let s24 = s23.after(DaemonReply::Done);
            let s25 = s24.after(DaemonReply::Done);
            let s26 = s25.after(DaemonReply::Done);
            let s27 = s26.after(DaemonReply::Done);
            let s28 = s27.after(DaemonReply::Done);
            &&& s0.pending() == Some(DaemonRequest::CreateKubeClient(&kubeconfig))
            &&& s1.pending() == Some(DaemonRequest::BuildConnector(&source))
            &&& s2.pending() == Some(DaemonRequest::StartWatcher(Watcher::Postgresql))
            &&& s3.pending() == Some(DaemonRequest::StartWatcher(Watcher::Redis))
            &&& s4.pending() == Some(DaemonRequest::StartWatcher(Watcher::Mysql))
            &&& s5.pending() == Some(DaemonRequest::StartWatcher(Watcher::Mongodb))
            &&& s6.pending() == Some(DaemonRequest::StartWatcher(Watcher::Pulsar))
            &&& s7.pending() == Some(DaemonRequest::StartWatcher(Watcher::ConfigProvider))
            &&& s8.pending() == Some(DaemonRequest::StartWatcher(Watcher::Elasticsearch))
            &&& s9.pending() == Some(DaemonRequest::ParseListen(&config.operator.listen))
            &&& s10.pending() == Some(DaemonRequest::StartServer(&config.operator.listen))
            &&& s11.pending() == Some(DaemonRequest::AwaitTermination)
            &&& s12.pending() == Some(DaemonRequest::AbortWatcher(Watcher::Postgresql))
            &&& s13.pending() == Some(DaemonRequest::AbortWatcher(Watcher::Redis))
            &&& s14.pending() == Some(DaemonRequest::AbortWatcher(Watcher::Mysql))
            &&& s15.pending() == Some(DaemonRequest::AbortWatcher(Watcher::Mongodb))
            &&& s16.pending() == Some(DaemonRequest::AbortWatcher(Watcher::Pulsar))
            &&& s17.pending() == Some(DaemonRequest::AbortWatcher(Watcher::ConfigProvider))
            &&& s18.pending() == Some(DaemonRequest::AbortWatcher(Watcher::Elasticsearch))
            &&& s19.pending() == Some(DaemonRequest::JoinWatcher(Watcher::Postgresql))
            &&& s20.pending() == Some(DaemonRequest::JoinWatcher(Watcher::Redis))
            &&& s21.pending() == Some(DaemonRequest::JoinWatcher(Watcher::Mysql))
            &&& s22.pending() == Some(DaemonRequest::JoinWatcher(Watcher::Mongodb))
            &&& s23.pending() == Some(DaemonRequest::JoinWatcher(Watcher::Pulsar))
            &&& s24.pending() == Some(DaemonRequest::JoinWatcher(Watcher::ConfigProvider))
            &&& s25.pending() == Some(DaemonRequest::JoinWatcher(Watcher::Elasticsearch))
            &&& s26.pending() == Some(DaemonRequest::AbortServer)
            &&& s27.pending() == Some(DaemonRequest::JoinServer)
            &&& s28 == Daemon::Finished(Ok(()))
        }),
{
}

/// The text that the logs tell of a watcher is the name of its addon.
pub proof fn law_watcher_text(watcher: Watcher)
    ensures
        watcher is Postgresql ==> watcher.text() == "postgresql"@,
        watcher is Redis ==> watcher.text() == "redis"@,
        watcher is Mysql ==> watcher.text() == "mysql"@,
        watcher is Mongodb ==> watcher.text() == "mongodb"@,
        watcher is Pulsar ==> watcher.text() == "pulsar"@,
        watcher is ConfigProvider ==> watcher.text() == "config-provider"@,
        watcher is Elasticsearch ==> watcher.text() == "elasticsearch"@,
{
}

/// The message of an error begins with what failed, and goes on with what the
/// error that it carries tells, to the last character.
pub proof fn law_command_message(err: CommandError, text: Seq<char>)
    requires
        err.reads(text),
    ensures
        err matches CommandError::Execution(name, cause) ==> ({
            let start = "failed to execute command '"@ + name@ + "', "@;
            start.is_prefix_of(text) && cause.reads(text.skip(start.len() as int))
        }),
        err matches CommandError::CustomResourceDefinition(cause) ==> ({
            let start = "failed to execute command, "@;
            start.is_prefix_of(text) && text.skip(start.len() as int) == cause.message@
        }),
        err matches CommandError::Listen(listen, cause) ==> ({
            let start = "failed to parse listen address '"@ + listen@ + "', "@;
            start.is_prefix_of(text) && text.skip(start.len() as int) == cause.message@
        }),
        err matches CommandError::SigTerm(cause) ==> ({
            let start = "failed to handle termintion signal, "@;
            start.is_prefix_of(text) && exists|told: String|
                told@ == text.skip(start.len() as int)
                    && #[trigger] vstd::string::to_string_from_display_ensures::<std::io::Error>(
                    &cause,
                    told,
                )
        }),
        err matches CommandError::Client(cause) ==> ({
            let start = "failed to create kubernetes client, "@;
            start.is_prefix_of(text) && text.skip(start.len() as int) == cause.message@
        }),
        err matches CommandError::CleverClient(cause) ==> ({
            let start = "failed to create clever cloud client, "@;
            start.is_prefix_of(text) && exists|told: String|
                told@ == text.skip(start.len() as int)
                    && #[trigger] vstd::string::to_string_from_display_ensures::<
                    clevercloud_sdk::oauth10a::proxy::Error,
                >(&cause, told)
        }),
{
    match err {
        CommandError::Execution(name, cause) => {},
        CommandError::CustomResourceDefinition(cause) => {
            let start = "failed to execute command, "@;
            assert(text.skip(start.len() as int) =~= cause.message@);
        },
        CommandError::Listen(listen, cause) => {
            let start = "failed to parse listen address '"@ + listen@ + "', "@;
            assert(text.skip(start.len() as int) =~= cause.message@);
        },
        CommandError::SigTerm(cause) => {
            let start = "failed to handle termintion signal, "@;
            let told = choose|told: String|
                text == start + told@
                    && #[trigger] vstd::string::to_string_from_display_ensures::<std::io::Error>(
                    &cause,
                    told,
                );
            assert(text.skip(start.len() as int) =~= told@);
        },
        CommandError::Client(cause) => {
            let start = "failed to create kubernetes client, "@;
            assert(text.skip(start.len() as int) =~= cause.message@);
        },
        CommandError::CleverClient(cause) => {
            let start = "failed to create clever cloud client, "@;
            let told = choose|told: String|
                text == start + told@
                    && #[trigger] vstd::string::to_string_from_display_ensures::<
                    clevercloud_sdk::oauth10a::proxy::Error,
                >(&cause, told);
            assert(text.skip(start.len() as int) =~= told@);
        },
    }
}

} // verus!
