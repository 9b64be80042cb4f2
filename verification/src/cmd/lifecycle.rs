//! # Lifecycle of the daemon
//!
//! How the daemon starts, runs and stops. The lifecycle is a chain of stages: a
//! stage tells which request comes next, and the reply to it leads to the next
//! stage.

use crate::cmd::proxy::ProxySource;
use crate::cmd::{AddressError, CommandError};
use crate::svc::cfg::Configuration;
use crate::svc::k8s::client::ClientError;
use std::path::PathBuf;
use vstd::prelude::*;

verus! {

// -----------------------------------------------------------------------------
// Watcher enum

/// The custom resources that the daemon watches, each with a reconciler.
#[derive(PartialEq, Eq, Structural, Clone, Copy, Debug)]
pub enum Watcher {
    Postgresql,
    Redis,
    Mysql,
    Mongodb,
    Pulsar,
    ConfigProvider,
    Elasticsearch,
}

impl Watcher {
    /// The watchers in the order in which they are started.
    pub open spec fn all() -> Seq<Watcher> {
        seq![
            Watcher::Postgresql,
            Watcher::Redis,
            Watcher::Mysql,
            Watcher::Mongodb,
            Watcher::Pulsar,
            Watcher::ConfigProvider,
            Watcher::Elasticsearch,
        ]
    }

    /// The watcher that comes after this one, none after the last.
    pub open spec fn following(self) -> Option<Watcher> {
        match self {
            Watcher::Postgresql => Some(Watcher::Redis),
            Watcher::Redis => Some(Watcher::Mysql),
            Watcher::Mysql => Some(Watcher::Mongodb),
            Watcher::Mongodb => Some(Watcher::Pulsar),
            Watcher::Pulsar => Some(Watcher::ConfigProvider),
            Watcher::ConfigProvider => Some(Watcher::Elasticsearch),
            Watcher::Elasticsearch => None,
        }
    }

    /// The watcher that comes after this one, none after the last.
    pub fn successor(&self) -> (watcher: Option<Watcher>)
        ensures
            watcher == self.following(),
    {
        match self {
            Watcher::Postgresql => Some(Watcher::Redis),
            Watcher::Redis => Some(Watcher::Mysql),
            Watcher::Mysql => Some(Watcher::Mongodb),
            Watcher::Mongodb => Some(Watcher::Pulsar),
            Watcher::Pulsar => Some(Watcher::ConfigProvider),
            Watcher::ConfigProvider => Some(Watcher::Elasticsearch),
            Watcher::Elasticsearch => None,
        }
    }

    /// The name of the addon that the custom resource stands for.
    pub open spec fn text(self) -> Seq<char> {
        match self {
            Watcher::Postgresql => "postgresql"@,
            Watcher::Redis => "redis"@,
            Watcher::Mysql => "mysql"@,
            Watcher::Mongodb => "mongodb"@,
            Watcher::Pulsar => "pulsar"@,
            Watcher::ConfigProvider => "config-provider"@,
            Watcher::Elasticsearch => "elasticsearch"@,
        }
    }

    /// The name of the addon, as the logs tell it.
    pub fn name(&self) -> (name: &'static str)
        ensures
            name@ == self.text(),
            name@ == match self {
                Watcher::Postgresql => "postgresql"@,
                Watcher::Redis => "redis"@,
                Watcher::Mysql => "mysql"@,
                Watcher::Mongodb => "mongodb"@,
                Watcher::Pulsar => "pulsar"@,
                Watcher::ConfigProvider => "config-provider"@,
                Watcher::Elasticsearch => "elasticsearch"@,
            },
    {
        match self {
            Watcher::Postgresql => "postgresql",
            Watcher::Redis => "redis",
            Watcher::Mysql => "mysql",
            Watcher::Mongodb => "mongodb",
            Watcher::Pulsar => "pulsar",
            Watcher::ConfigProvider => "config-provider",
            Watcher::Elasticsearch => "elasticsearch",
        }
    }
}

// -----------------------------------------------------------------------------
// Request enum

/// What the daemon asks for.
#[derive(PartialEq, Eq, Debug)]
pub enum DaemonRequest<'a> {
    /// Create a Kubernetes client from the path, or from the environment or
    /// the default locations where there is none.
    CreateKubeClient(&'a Option<PathBuf>),
    /// Build the connector of the Clever Cloud client.
    BuildConnector(&'a ProxySource),
    /// Start to watch the custom resource.
    StartWatcher(Watcher),
    /// Parse the address to listen on.
    ParseListen(&'a String),
    /// Start the http server on the address that was parsed from the text.
    StartServer(&'a String),
    /// Wait for the signal to terminate.
    AwaitTermination,
    /// Cancel the watcher.
    AbortWatcher(Watcher),
    /// Wait for the watcher to end.
    JoinWatcher(Watcher),
    /// Cancel the http server.
    AbortServer,
    /// Wait for the http server to end.
    JoinServer,
}

// -----------------------------------------------------------------------------
// Reply enum

/// What came of a request of the daemon.
#[derive(Debug)]
pub enum DaemonReply {
    KubeClient(Result<(), ClientError>),
    Connector(Result<(), clevercloud_sdk::oauth10a::proxy::Error>),
    Listen(Result<(), AddressError>),
    Terminated(Result<(), std::io::Error>),
    /// What cannot fail, or whose failure changes nothing, is done.
    Done,
}

// -----------------------------------------------------------------------------
// Daemon enum

/// The stages of the daemon.
#[derive(Debug)]
pub enum Daemon {
    KubeClient { kubeconfig: Option<PathBuf>, config: Configuration },
    Connector { source: ProxySource, listen: String },
    Watch { next: Watcher, listen: String },
    Listen { listen: String },
    Serve { listen: String },
    Wait,
    AbortWatchers { next: Watcher },
    JoinWatchers { next: Watcher },
    AbortServer,
    JoinServer,
    Finished(Result<(), CommandError>),
}

impl Daemon {
    /// The request that the stage waits on, none once it is finished.
    pub open spec fn pending(&self) -> Option<DaemonRequest<'_>> {
        match self {
            Daemon::KubeClient { kubeconfig, .. } => Some(
                DaemonRequest::CreateKubeClient(kubeconfig),
            ),
            Daemon::Connector { source, .. } => Some(DaemonRequest::BuildConnector(source)),
            Daemon::Watch { next, .. } => Some(
                DaemonRequest::StartWatcher(*next),
            ),
            Daemon::Listen { listen } => Some(DaemonRequest::ParseListen(listen)),
            Daemon::Serve { listen } => Some(DaemonRequest::StartServer(listen)),
            Daemon::Wait => Some(DaemonRequest::AwaitTermination),
            Daemon::AbortWatchers { next } => Some(
                DaemonRequest::AbortWatcher(*next),
            ),
            Daemon::JoinWatchers { next } => Some(
                DaemonRequest::JoinWatcher(*next),
            ),
            Daemon::AbortServer => Some(DaemonRequest::AbortServer),
            Daemon::JoinServer => Some(DaemonRequest::JoinServer),
            Daemon::Finished(_) => None,
        }
    }

    /// Whether `reply` answers the request that the stage waits on.
    pub open spec fn takes(self, reply: DaemonReply) -> bool {
        match self {
            Daemon::KubeClient { .. } => reply is KubeClient,
            Daemon::Connector { .. } => reply is Connector,
            Daemon::Listen { .. } => reply is Listen,
            Daemon::Wait => reply is Terminated,
            Daemon::Finished(_) => false,
            _ => reply is Done,
        }
    }

    /// The error that a failed request ends the daemon with.
    pub open spec fn failure(self, reply: DaemonReply) -> Option<CommandError> {
        match (self, reply) {
            (_, DaemonReply::KubeClient(Err(err))) => Some(CommandError::Client(err)),
            (_, DaemonReply::Connector(Err(err))) => Some(CommandError::CleverClient(err)),
            (Daemon::Listen { listen }, DaemonReply::Listen(Err(err))) => Some(
                CommandError::Listen(listen, err),
            ),
            (_, DaemonReply::Terminated(Err(err))) => Some(CommandError::SigTerm(err)),
            _ => None,
        }
    }

    /// The stage that follows a request that was met.
    pub open spec fn proceed(self) -> Daemon {
        match self {
            Daemon::KubeClient { config, .. } => Daemon::Connector {
                source: ProxySource::of(config.proxy),
                listen: config.operator.listen,
            },
            Daemon::Connector { listen, .. } => Daemon::Watch { next: Watcher::Postgresql, listen },
            Daemon::Watch { next, listen } => match next.following() {
                Some(next) => Daemon::Watch { next, listen },
                None => Daemon::Listen { listen },
            },
            Daemon::Listen { listen } => Daemon::Serve { listen },
            Daemon::Serve { .. } => Daemon::Wait,
            Daemon::Wait => Daemon::AbortWatchers { next: Watcher::Postgresql },
            Daemon::AbortWatchers { next } => match next.following() {
                Some(next) => Daemon::AbortWatchers { next },
                None => Daemon::JoinWatchers { next: Watcher::Postgresql },
            },
            Daemon::JoinWatchers { next } => match next.following() {
                Some(next) => Daemon::JoinWatchers { next },
                None => Daemon::AbortServer,
            },
            Daemon::AbortServer => Daemon::JoinServer,
            Daemon::JoinServer => Daemon::Finished(Ok(())),
            Daemon::Finished(result) => Daemon::Finished(result),
        }
    }

    /// The stage that follows the reply: a failure ends the daemon at once.
    pub open spec fn after(self, reply: DaemonReply) -> Daemon {
        match self.failure(reply) {
            Some(err) => Daemon::Finished(Err(err)),
            None => self.proceed(),
        }
    }

    /// The stage that a series of replies leads to.
    pub open spec fn run(self, replies: Seq<DaemonReply>) -> Daemon
        decreases replies.len(),
    {
        if replies.len() == 0 {
            self
        } else {
            self.run(replies.drop_last()).after(replies.last())
        }
    }

    /// Whether each of the replies answers the request that is waited on when
    /// it comes.
    pub open spec fn takes_all(self, replies: Seq<DaemonReply>) -> bool
        decreases replies.len(),
    {
        replies.len() > 0 ==> {
            &&& self.takes_all(replies.drop_last())
            &&& self.run(replies.drop_last()).takes(replies.last())
        }
    }

    /// The request that the stage waits on, none once it is finished.
    pub fn request(&self) -> (request: Option<DaemonRequest<'_>>)
        ensures
            request == self.pending(),
    {
        match self {
            Daemon::KubeClient { kubeconfig, .. } => Some(
                DaemonRequest::CreateKubeClient(kubeconfig),
            ),
            Daemon::Connector { source, .. } => Some(DaemonRequest::BuildConnector(source)),
            Daemon::Watch { next, .. } => Some(
                DaemonRequest::StartWatcher(*next),
            ),
            Daemon::Listen { listen } => Some(DaemonRequest::ParseListen(listen)),
            Daemon::Serve { listen } => Some(DaemonRequest::StartServer(listen)),
            Daemon::Wait => Some(DaemonRequest::AwaitTermination),
            Daemon::AbortWatchers { next } => Some(
                DaemonRequest::AbortWatcher(*next),
            ),
            Daemon::JoinWatchers { next } => Some(
                DaemonRequest::JoinWatcher(*next),
            ),
            Daemon::AbortServer => Some(DaemonRequest::AbortServer),
            Daemon::JoinServer => Some(DaemonRequest::JoinServer),
            Daemon::Finished(_) => None,
        }
    }

    /// Whether the reply answers the request that the stage waits on.
    pub fn accepts(&self, reply: &DaemonReply) -> (accepted: bool)
        ensures
            accepted == self.takes(*reply),
            accepted <==> match *self {
                Daemon::KubeClient { .. } => reply is KubeClient,
                Daemon::Connector { .. } => reply is Connector,
                Daemon::Watch { .. } => reply is Done,
                Daemon::Listen { .. } => reply is Listen,
                Daemon::Serve { .. } => reply is Done,
                Daemon::Wait => reply is Terminated,
                Daemon::AbortWatchers { .. } => reply is Done,
                Daemon::JoinWatchers { .. } => reply is Done,
                Daemon::AbortServer => reply is Done,
                Daemon::JoinServer => reply is Done,
                Daemon::Finished(_) => false,
            },
    {
        match (self, reply) {
            (Daemon::KubeClient { .. }, DaemonReply::KubeClient(_)) => true,
            (Daemon::Connector { .. }, DaemonReply::Connector(_)) => true,
            (Daemon::Listen { .. }, DaemonReply::Listen(_)) => true,
            (Daemon::Wait, DaemonReply::Terminated(_)) => true,
            (Daemon::Watch { .. }, DaemonReply::Done) => true,
            (Daemon::Serve { .. }, DaemonReply::Done) => true,
            (Daemon::AbortWatchers { .. }, DaemonReply::Done) => true,
            (Daemon::JoinWatchers { .. }, DaemonReply::Done) => true,
            (Daemon::AbortServer, DaemonReply::Done) => true,
            (Daemon::JoinServer, DaemonReply::Done) => true,
            _ => false,
        }
    }

    /// The stage that follows the reply.
    pub fn advance(self, reply: DaemonReply) -> (next: Daemon)
        requires
            self.takes(reply),
        ensures
            next == self.after(reply),
    {
        match (self, reply) {
            (Daemon::KubeClient { .. }, DaemonReply::KubeClient(Err(err))) => {
                Daemon::Finished(Err(CommandError::Client(err)))
            },
            (Daemon::KubeClient { config, .. }, _) => Daemon::Connector {
                source: ProxySource::select(config.proxy),
                listen: config.operator.listen,
            },
            (Daemon::Connector { .. }, DaemonReply::Connector(Err(err))) => {
                Daemon::Finished(Err(CommandError::CleverClient(err)))
            },
            (Daemon::Connector { listen, .. }, _) => Daemon::Watch { next: Watcher::Postgresql, listen },
            (Daemon::Watch { next, listen }, _) => match next.successor() {
                Some(next) => Daemon::Watch { next, listen },
                None => Daemon::Listen { listen },
            },
            (Daemon::Listen { listen }, DaemonReply::Listen(Err(err))) => {
                Daemon::Finished(Err(CommandError::Listen(listen, err)))
            },
            (Daemon::Listen { listen }, _) => Daemon::Serve { listen },
            (Daemon::Serve { .. }, _) => Daemon::Wait,
            (Daemon::Wait, DaemonReply::Terminated(Err(err))) => {
                Daemon::Finished(Err(CommandError::SigTerm(err)))
            },
            (Daemon::Wait, _) => Daemon::AbortWatchers { next: Watcher::Postgresql },
            (Daemon::AbortWatchers { next }, _) => match next.successor() {
                Some(next) => Daemon::AbortWatchers { next },
                None => Daemon::JoinWatchers { next: Watcher::Postgresql },
            },
            (Daemon::JoinWatchers { next }, _) => match next.successor() {
                Some(next) => Daemon::JoinWatchers { next },
                None => Daemon::AbortServer,
            },
            (Daemon::AbortServer, _) => Daemon::JoinServer,
            (Daemon::JoinServer, _) => Daemon::Finished(Ok(())),
            (Daemon::Finished(result), _) => Daemon::Finished(result),
        }
    }
}

} // verus!
