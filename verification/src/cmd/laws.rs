//! # Laws of the daemon
//!
//! What holds of every run of the daemon, whatever the replies are.

use crate::cmd::lifecycle::{Daemon, DaemonReply, DaemonRequest, Watcher};
use crate::cmd::proxy::ProxySource;
use crate::cmd::CommandError;
use crate::svc::cfg::{Configuration, ProxyConfiguration};
use std::path::PathBuf;
use vstd::prelude::*;

verus! {

/// The first stage of the daemon.
pub open spec fn first_stage(kubeconfig: Option<PathBuf>, config: Configuration) -> Daemon {
    Daemon::KubeClient { kubeconfig, config }
}

/// Whether the reply tells of a failure.
pub open spec fn failed(reply: DaemonReply) -> bool {
    match reply {
        DaemonReply::KubeClient(result) => result is Err,
        DaemonReply::Connector(result) => result is Err,
        DaemonReply::Listen(result) => result is Err,
        DaemonReply::Terminated(result) => result is Err,
        DaemonReply::Done => false,
    }
}

/// Whether none of the replies tells of a failure.
pub open spec fn all_met(replies: Seq<DaemonReply>) -> bool {
    forall|i: int| 0 <= i < replies.len() ==> !failed(#[trigger] replies[i])
}

/// A series of replies tells of no failure where neither its last reply nor
/// those before it do.
proof fn lemma_all_met(replies: Seq<DaemonReply>)
    requires
        replies.len() > 0,
    ensures
        all_met(replies) <==> all_met(replies.drop_last()) && !failed(replies.last()),
{
    let before = replies.drop_last();
    if all_met(replies) {
        assert forall|i: int| 0 <= i < before.len() implies !failed(#[trigger] before[i]) by {
            assert(!failed(replies[i]));
        }
        assert(!failed(replies[replies.len() - 1]));
    }
    if all_met(before) && !failed(replies.last()) {
        assert forall|i: int| 0 <= i < replies.len() implies !failed(#[trigger] replies[i]) by {
            if i < before.len() {
                assert(!failed(before[i]));
            }
        }
    }
}

/// The error that the daemon ends with where the reply tells of a failure.
pub open spec fn error_of(config: Configuration, reply: DaemonReply) -> CommandError
    recommends
        failed(reply),
{
    match reply {
        DaemonReply::KubeClient(result) => CommandError::Client(result->Err_0),
        DaemonReply::Connector(result) => CommandError::CleverClient(result->Err_0),
        DaemonReply::Listen(result) => CommandError::Listen(config.operator.listen, result->Err_0),
        DaemonReply::Terminated(result) => CommandError::SigTerm(result->Err_0),
        DaemonReply::Done => arbitrary(),
    }
}

/// The number of replies that lead the daemon to its end.
pub open spec fn daemon_length() -> nat {
    7 + 3 * Watcher::all().len()
}

/// The request that comes after `n` replies of a daemon that has not failed.
///
/// The Kubernetes client is created and the connector of the Clever Cloud
/// client is built, from the configured proxy if there is one. The watchers
/// are started one after the other, the address to listen on is parsed, the
/// http server is started on it and the signal is waited for. Then every
/// watcher is cancelled, every watcher is waited for, and the server is
/// cancelled and waited for.
pub open spec fn daemon_script<'a>(
    kubeconfig: &'a Option<PathBuf>,
    source: &'a ProxySource,
    listen: &'a String,
    n: int,
) -> Option<DaemonRequest<'a>> {
    let watchers = Watcher::all();
    let w = watchers.len();
    if n == 0 {
        Some(DaemonRequest::CreateKubeClient(kubeconfig))
    } else if n == 1 {
        Some(DaemonRequest::BuildConnector(source))
    } else if n < 2 + w {
        Some(DaemonRequest::StartWatcher(watchers[n - 2]))
    } else if n == 2 + w {
        Some(DaemonRequest::ParseListen(listen))
    } else if n == 3 + w {
        Some(DaemonRequest::StartServer(listen))
    } else if n == 4 + w {
        Some(DaemonRequest::AwaitTermination)
    } else if n < 5 + 2 * w {
        Some(DaemonRequest::AbortWatcher(watchers[n - 5 - w]))
    } else if n < 5 + 3 * w {
        Some(DaemonRequest::JoinWatcher(watchers[n - 5 - 2 * w]))
    } else if n == 5 + 3 * w {
        Some(DaemonRequest::AbortServer)
    } else if n == 6 + 3 * w {
        Some(DaemonRequest::JoinServer)
    } else {
        None
    }
}

/// The stage that `n` replies of a daemon that has not failed lead to.
spec fn daemon_stage(kubeconfig: Option<PathBuf>, config: Configuration, n: int) -> Daemon {
    let watchers = Watcher::all();
    let w = watchers.len();
    let listen = config.operator.listen;
    if n == 0 {
        Daemon::KubeClient { kubeconfig, config }
    } else if n == 1 {
        Daemon::Connector { source: ProxySource::of(config.proxy), listen }
    } else if n < 2 + w {
        Daemon::Watch { next: watchers[n - 2], listen }
    } else if n == 2 + w {
        Daemon::Listen { listen }
    } else if n == 3 + w {
        Daemon::Serve { listen }
    } else if n == 4 + w {
        Daemon::Wait
    } else if n < 5 + 2 * w {
        Daemon::AbortWatchers { next: watchers[n - 5 - w] }
    } else if n < 5 + 3 * w {
        Daemon::JoinWatchers { next: watchers[n - 5 - 2 * w] }
    } else if n == 5 + 3 * w {
        Daemon::AbortServer
    } else if n == 6 + 3 * w {
        Daemon::JoinServer
    } else {
        Daemon::Finished(Ok(()))
    }
}

/// The watchers are started, cancelled and waited for in one order, in which
/// each has its place.
pub proof fn law_watchers_in_order(i: int)
    requires
        0 <= i < Watcher::all().len(),
    ensures
        Watcher::all().len() == 7,
        Watcher::all().no_duplicates(),
        Watcher::all()[i].following() == (if i + 1 < Watcher::all().len() {
            Some(Watcher::all()[i + 1])
        } else {
            None
        }),
{
}

/// Each watcher is one of those that are started.
pub proof fn law_every_watcher_started(watcher: Watcher)
    ensures
        Watcher::all().contains(watcher),
{
    let watchers = Watcher::all();
    let i: int = match watcher {
        Watcher::Postgresql => 0,
        Watcher::Redis => 1,
        Watcher::Mysql => 2,
        Watcher::Mongodb => 3,
        Watcher::Pulsar => 4,
        Watcher::ConfigProvider => 5,
        Watcher::Elasticsearch => 6,
    };
    assert(watchers[i] == watcher);
}

proof fn lemma_daemon_stage(
    kubeconfig: Option<PathBuf>,
    config: Configuration,
    replies: Seq<DaemonReply>,
)
    requires
        first_stage(kubeconfig, config).takes_all(replies),
        all_met(replies),
    ensures
        first_stage(kubeconfig, config).run(replies) == daemon_stage(
            kubeconfig,
            config,
            replies.len() as int,
        ),
        replies.len() <= daemon_length(),
    decreases replies.len(),
{
    if replies.len() > 0 {
        lemma_all_met(replies);
        lemma_daemon_stage(kubeconfig, config, replies.drop_last());
        assert(Watcher::all().len() == 7);
    }
}

/// Every request of a daemon that has not failed is the one that the script
/// gives, and the daemon is finished when the script is.
pub proof fn law_daemon_script(
    kubeconfig: Option<PathBuf>,
    config: Configuration,
    replies: Seq<DaemonReply>,
)
    requires
        first_stage(kubeconfig, config).takes_all(replies),
        all_met(replies),
    ensures
        first_stage(kubeconfig, config).run(replies).pending() == daemon_script(
            &kubeconfig,
            &ProxySource::of(config.proxy),
            &config.operator.listen,
            replies.len() as int,
        ),
        replies.len() <= daemon_length(),
        replies.len() == daemon_length() <==> first_stage(kubeconfig, config).run(replies)
            == Daemon::Finished(Ok(())),
{
    lemma_daemon_stage(kubeconfig, config, replies);
    assert(Watcher::all().len() == 7);
}

/// Only the last reply of a daemon can tell of a failure.
pub proof fn law_daemon_met_until_last(
    kubeconfig: Option<PathBuf>,
    config: Configuration,
    replies: Seq<DaemonReply>,
)
    requires
        first_stage(kubeconfig, config).takes_all(replies),
    ensures
        replies.len() > 0 ==> all_met(replies.drop_last()),
    decreases replies.len(),
{
    if replies.len() > 0 {
        let before = replies.drop_last();
        law_daemon_met_until_last(kubeconfig, config, before);
        if before.len() > 0 {
            let stage = first_stage(kubeconfig, config).run(before.drop_last());
            assert(first_stage(kubeconfig, config).takes_all(before));
            assert(first_stage(kubeconfig, config).run(before) == stage.after(before.last()));
            lemma_all_met(before);
        }
    }
}

/// A daemon has seen no failure just where it waits on a request or succeeded.
pub proof fn law_daemon_met(
    kubeconfig: Option<PathBuf>,
    config: Configuration,
    replies: Seq<DaemonReply>,
)
    requires
        first_stage(kubeconfig, config).takes_all(replies),
    ensures
        all_met(replies) <==> !(first_stage(kubeconfig, config).run(replies) matches Daemon::Finished(
            Err(_),
        )),
{
    if replies.len() > 0 {
        law_daemon_met_until_last(kubeconfig, config, replies);
        lemma_all_met(replies);
        lemma_daemon_stage(kubeconfig, config, replies.drop_last());
        assert(Watcher::all().len() == 7);
    }
}

/// The first replies of a daemon are replies of a daemon: they are those of one
/// that has not failed where more follow, and the next answers the request that
/// is then waited on.
pub proof fn law_daemon_prefix(
    kubeconfig: Option<PathBuf>,
    config: Configuration,
    replies: Seq<DaemonReply>,
    n: int,
)
    requires
        first_stage(kubeconfig, config).takes_all(replies),
        0 <= n <= replies.len(),
    ensures
        first_stage(kubeconfig, config).takes_all(replies.take(n)),
        n < replies.len() ==> all_met(replies.take(n)),
        n < replies.len() ==> first_stage(kubeconfig, config).run(replies.take(n)).takes(
            replies[n],
        ),
    decreases replies.len(),
{
    if n < replies.len() {
        let before = replies.drop_last();
        law_daemon_prefix(kubeconfig, config, before, n);
        law_daemon_met_until_last(kubeconfig, config, replies);
        assert(before.take(n) =~= replies.take(n));
        if n == before.len() {
            assert(before.take(n) =~= before);
        }
    } else {
        assert(replies.take(n) =~= replies);
    }
}

/// The daemon fails with the first request that fails, and with its error.
pub proof fn law_daemon_failure(
    kubeconfig: Option<PathBuf>,
    config: Configuration,
    replies: Seq<DaemonReply>,
    err: CommandError,
)
    requires
        first_stage(kubeconfig, config).takes_all(replies),
    ensures
        first_stage(kubeconfig, config).run(replies) == Daemon::Finished(Err(err)) <==> {
            &&& replies.len() > 0
            &&& all_met(replies.drop_last())
            &&& failed(replies.last())
            &&& err == error_of(config, replies.last())
        },
{
    if replies.len() > 0 {
        law_daemon_met_until_last(kubeconfig, config, replies);
        lemma_daemon_stage(kubeconfig, config, replies.drop_last());
        assert(Watcher::all().len() == 7);
    }
}

/// The daemon comes to its end once each request is answered, whatever the
/// replies are.
pub proof fn law_daemon_ends(
    kubeconfig: Option<PathBuf>,
    config: Configuration,
    replies: Seq<DaemonReply>,
)
    requires
        first_stage(kubeconfig, config).takes_all(replies),
    ensures
        replies.len() <= daemon_length(),
        replies.len() == daemon_length() ==> first_stage(kubeconfig, config).run(
            replies,
        ).pending() is None,
{
    law_daemon_met_until_last(kubeconfig, config, replies);
    assert(Watcher::all().len() == 7);
    if replies.len() > 0 {
        lemma_daemon_stage(kubeconfig, config, replies.drop_last());
    }
}

/// The http server is started on the configured address, and only where it was
/// parsed.
pub proof fn law_server_on_parsed_address(
    kubeconfig: Option<PathBuf>,
    config: Configuration,
    replies: Seq<DaemonReply>,
    listen: String,
)
    requires
        first_stage(kubeconfig, config).takes_all(replies),
        first_stage(kubeconfig, config).run(replies).pending() == Some(
            DaemonRequest::StartServer(&listen),
        ),
    ensures
        listen == config.operator.listen,
        replies.len() > 0,
        first_stage(kubeconfig, config).run(replies.drop_last()).pending() == Some(
            DaemonRequest::ParseListen(&listen),
        ),
        replies.last() matches DaemonReply::Listen(Ok(_)),
{
    law_daemon_met_until_last(kubeconfig, config, replies);
    assert(Watcher::all().len() == 7);
    if replies.len() > 0 {
        lemma_daemon_stage(kubeconfig, config, replies.drop_last());
    }
}

/// Nothing is cancelled before the signal to terminate has come.
pub proof fn law_cancel_after_termination(
    kubeconfig: Option<PathBuf>,
    config: Configuration,
    replies: Seq<DaemonReply>,
)
    requires
        first_stage(kubeconfig, config).takes_all(replies),
        match first_stage(kubeconfig, config).run(replies).pending() {
            Some(DaemonRequest::AbortWatcher(_)) => true,
            Some(DaemonRequest::AbortServer) => true,
            _ => false,
        },
    ensures
        exists|i: int|
            0 <= i < replies.len() && #[trigger] replies[i] matches DaemonReply::Terminated(Ok(_)),
{
    law_daemon_met(kubeconfig, config, replies);
    lemma_daemon_stage(kubeconfig, config, replies);
    let n: int = (4 + Watcher::all().len()) as int;
    law_daemon_prefix(kubeconfig, config, replies, n);
    lemma_daemon_stage(kubeconfig, config, replies.take(n));
    assert(!failed(replies[n]));
}

/// The proxy for https comes before the one for http, and the environment is
/// asked only where the configuration gives neither.
pub proof fn law_proxy_preference(proxy: ProxyConfiguration)
    ensures
        proxy.https matches Some(url) ==> ProxySource::of(Some(proxy)) == (ProxySource::Configured {
            url,
            no: proxy.no,
        }),
        proxy.https is None ==> (proxy.http matches Some(url) ==> ProxySource::of(Some(proxy)) == (
        ProxySource::Configured { url, no: proxy.no })),
        ProxySource::of(Some(proxy)) is Environment <==> proxy.https is None && proxy.http is None,
        ProxySource::of(None) is Environment,
{
}

/// The connector is built from the proxy that the configuration asks for: the
/// one of the url for https, else of the url for http, with the configured
/// rules, and none of the library's making where there is neither url.
pub proof fn law_connector_proxy(
    kubeconfig: Option<PathBuf>,
    config: Configuration,
    replies: Seq<DaemonReply>,
    source: ProxySource,
    url: Option<String>,
)
    requires
        first_stage(kubeconfig, config).takes_all(replies),
        first_stage(kubeconfig, config).run(replies).pending() == Some(
            DaemonRequest::BuildConnector(&source),
        ),
        url == match config.proxy {
            Some(proxy) => if proxy.https is Some {
                proxy.https
            } else {
                proxy.http
            },
            None => None,
        },
    ensures
        source.built() is None <==> url is None,
        url matches Some(url) ==> source.built() == Some(
            if crate::cmd::proxy::url_host(url@) == Some(None::<Seq<char>>) {
                None
            } else {
                Some(crate::cmd::proxy::proxy_of(url@, config.proxy->0.no.deep_view()))
            },
        ),
{
    law_daemon_met(kubeconfig, config, replies);
    lemma_daemon_stage(kubeconfig, config, replies);
    assert(Watcher::all().len() == 7);
}

} // verus!
