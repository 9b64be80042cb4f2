//! # Command module
//!
//! This module provide command line interface structures and helpers

use crate::cmd::crd::{CustomResourceDefinition, CustomResourceDefinitionError};
use crate::cmd::lifecycle::Daemon;
use crate::svc::cfg::Configuration;
use crate::svc::k8s::client::ClientError;
use std::path::PathBuf;
use std::sync::Arc;
use vstd::prelude::*;

pub mod crd;
pub mod laws;
pub mod lifecycle;
pub mod proxy;
pub mod steps;

verus! {

// -----------------------------------------------------------------------------
// CommandError enum

/// Why an address could not be parsed.
#[derive(PartialEq, Eq, Debug)]
pub struct AddressError {
    pub message: String,
}

/// Why a command failed.
#[derive(Debug)]
pub enum CommandError {
    Execution(String, Arc<CommandError>),
    CustomResourceDefinition(CustomResourceDefinitionError),
    Listen(String, AddressError),
    SigTerm(std::io::Error),
    Client(ClientError),
    CleverClient(clevercloud_sdk::oauth10a::proxy::Error),
}

impl CommandError {
    /// Whether `text` tells what failed and then what the carried error
    /// displays.
    pub open spec fn reads(self, text: Seq<char>) -> bool
        decreases self,
    {
        match self {
            CommandError::Execution(name, err) => {
                let start = "failed to execute command '"@ + name@ + "', "@;
                start.is_prefix_of(text) && err.reads(text.skip(start.len() as int))
            },
            CommandError::CustomResourceDefinition(err) => {
                text == "failed to execute command, "@ + err.message@
            },
            CommandError::Listen(listen, err) => {
                text == "failed to parse listen address '"@ + listen@ + "', "@ + err.message@
            },
            CommandError::SigTerm(err) => exists|cause: String|
                text == "failed to handle termintion signal, "@ + cause@
                    && #[trigger] vstd::string::to_string_from_display_ensures::<std::io::Error>(
                    &err,
                    cause,
                ),
            CommandError::Client(err) => {
                text == "failed to create kubernetes client, "@ + err.message@
            },
            CommandError::CleverClient(err) => exists|cause: String|
                text == "failed to create clever cloud client, "@ + cause@
                    && #[trigger] vstd::string::to_string_from_display_ensures::<
                    clevercloud_sdk::oauth10a::proxy::Error,
                >(&err, cause),
        }
    }

    /// The message of the error.
    pub fn message(&self) -> (text: String)
        ensures
            self.reads(text@),
        decreases self,
    {
        match self {
            CommandError::Execution(name, err) => {
                let cause: String = err.message();
                let text: String = "failed to execute command '".to_owned().concat(
                    name.as_str(),
                ).concat("', ").concat(cause.as_str());
                proof {
                    let start = "failed to execute command '"@ + name@ + "', "@;
                    assert(text@.skip(start.len() as int) =~= cause@);
                }
                text
            },
            CommandError::CustomResourceDefinition(err) => {
                "failed to execute command, ".to_owned().concat(err.message.as_str())
            },
            CommandError::Listen(listen, err) => {
                "failed to parse listen address '".to_owned().concat(listen.as_str()).concat(
                    "', ",
                ).concat(err.message.as_str())
            },
            CommandError::SigTerm(err) => {
                let cause: String = err.to_string();
                "failed to handle termintion signal, ".to_owned().concat(cause.as_str())
            },
            CommandError::Client(err) => {
                "failed to create kubernetes client, ".to_owned().concat(err.message.as_str())
            },
            CommandError::CleverClient(err) => {
                let cause: String = err.to_string();
                "failed to create clever cloud client, ".to_owned().concat(cause.as_str())
            },
        }
    }
}

// -----------------------------------------------------------------------------
// Command enum

/// What the command line asks for in place of the daemon.
#[derive(PartialEq, Eq, Clone, Debug)]
pub enum Command {
    /// Interact with custom resource definition
    CustomResourceDefinition(CustomResourceDefinition),
}

impl Command {
    /// What the execution of the command comes to, given what came of the
    /// command that it holds: a failure is told with the name of the command.
    pub fn execute(&self, outcome: Result<(), CustomResourceDefinitionError>) -> (result: Result<
        (),
        CommandError,
    >)
        ensures
            result is Ok <==> outcome is Ok,
            outcome matches Err(err) ==> (result matches Err(CommandError::Execution(name, cause))
                && name@ == "custom-resource-definition"@
                && *cause == CommandError::CustomResourceDefinition(err)),
    {
        match self {
            Command::CustomResourceDefinition(_) => match outcome {
                Ok(()) => Ok(()),
                Err(err) => Err(
                    CommandError::Execution(
                        "custom-resource-definition".to_owned(),
                        Arc::new(CommandError::CustomResourceDefinition(err)),
                    ),
                ),
            },
        }
    }
}

// -----------------------------------------------------------------------------
// Args struct

/// The command line of the operator.
#[derive(PartialEq, Eq, Clone, Debug)]
pub struct Args {
    /// Increase log verbosity
    pub verbosity: usize,
    /// Specify location of kubeconfig
    pub kubeconfig: Option<PathBuf>,
    /// Specify location of configuration
    pub config: Option<PathBuf>,
    /// Check if configuration is healthy
    pub check: bool,
    pub command: Option<Command>,
}

// -----------------------------------------------------------------------------
// daemon function

/// Begins to run the operator: a Kubernetes client is created from the path if
/// it is given, then a Clever Cloud client, then the watchers and the http
/// server are started until the signal to terminate comes.
pub fn daemon(kubeconfig: Option<PathBuf>, config: Configuration) -> (stage: Daemon)
    ensures
        stage == (Daemon::KubeClient { kubeconfig, config }),
{
    Daemon::KubeClient { kubeconfig, config }
}

} // verus!
