//! The bootstrap controller: validates the invocation, then drives the
//! startup chain — logging initialization, configuration load, server start —
//! as a step machine. Each step takes the outcome of the outside work the
//! previous step commanded and decides what happens next; every failure is
//! wrapped with one context message and ends the bootstrap.

use vstd::prelude::*;

use crate::errors::TerminalError;
use crate::text::opt_text;

verus! {

/// What the bootstrap commands next. `Fail` ends the attempt: the error is
/// rendered and the process exits with a failure status. The other steps name
/// the outside work whose outcome feeds the next decision.
pub enum BootStep {
    /// Render the error to the diagnostic stream and exit with status 1.
    Fail(TerminalError),
    /// Initialize logging, then load the configuration at this path.
    InitLoggingAndLoadConfig(String),
    /// Hand the loaded configuration to the server subsystem.
    StartServer,
    /// The server owns the remainder of the process lifetime.
    Running,
}

/// The usage message shown when the invocation lacks a configuration path.
pub open spec fn spec_usage_message() -> Seq<char> {
    "Usage: octobot <config-file>"@
}

/// The context wrapped around a configuration-load failure.
pub open spec fn spec_config_context() -> Seq<char> {
    "Error parsing config"@
}

/// The context wrapped around a server-start failure.
pub open spec fn spec_server_context() -> Seq<char> {
    "Failed to start server"@
}

/// The first bootstrap decision, taken on the invocation arguments alone.
/// With fewer than two arguments the step is `Fail` with the usage message as
/// the whole chain: no logging, configuration or server work is commanded.
/// Otherwise the second argument is the configuration path and logging
/// initialization comes next. `backtrace` is the trace captured at error
/// construction when capture is enabled.
pub fn on_invocation(args: &Vec<String>, backtrace: Option<String>) -> (s: BootStep)
    ensures
        args@.len() < 2 ==> (s matches BootStep::Fail(e) && e.msgs() == seq![spec_usage_message()]
            && e.trace() == opt_text(backtrace)),
        args@.len() >= 2 ==> (s matches BootStep::InitLoggingAndLoadConfig(p) && p@ == args@[1]@),
{
    if args.len() < 2 {
        BootStep::Fail(TerminalError::root(String::from_str("Usage: octobot <config-file>"), backtrace))
    } else {
        BootStep::InitLoggingAndLoadConfig(String::from_str(args[1].as_str()))
    }
}

/// The decision on the outcome of the configuration load. Success hands the
/// configuration to the server; failure wraps the underlying cause with the
/// configuration context, giving a two-message chain.
pub fn on_config_result(outcome: Result<(), String>, backtrace: Option<String>) -> (s: BootStep)
    ensures
        outcome is Ok ==> s == BootStep::StartServer,
        outcome matches Err(cause) ==> (s matches BootStep::Fail(e) && e.msgs() == seq![
            spec_config_context(),
            cause@,
        ] && e.trace() == opt_text(backtrace)),
{
    match outcome {
        Ok(()) => BootStep::StartServer,
        Err(cause) => {
            let ghost cause_text = cause@;
            let root = TerminalError::root(cause, backtrace);
            let e = TerminalError::chain(String::from_str("Error parsing config"), root);
            proof {
                assert(e.msgs() =~= seq![spec_config_context(), cause_text]);
            }
            BootStep::Fail(e)
        },
    }
}

/// The decision on the outcome of the server start. Success means the server
/// now owns the process; failure wraps the underlying cause with the
/// server-start context, giving a two-message chain.
pub fn on_server_result(outcome: Result<(), String>, backtrace: Option<String>) -> (s: BootStep)
    ensures
        outcome is Ok ==> s == BootStep::Running,
        outcome matches Err(cause) ==> (s matches BootStep::Fail(e) && e.msgs() == seq![
            spec_server_context(),
            cause@,
        ] && e.trace() == opt_text(backtrace)),
{
    match outcome {
        Ok(()) => BootStep::Running,
        Err(cause) => {
            let ghost cause_text = cause@;
            let root = TerminalError::root(cause, backtrace);
            let e = TerminalError::chain(String::from_str("Failed to start server"), root);
            proof {
                assert(e.msgs() =~= seq![spec_server_context(), cause_text]);
            }
            BootStep::Fail(e)
        },
    }
}

} // verus!
