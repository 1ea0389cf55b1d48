//! The three execution environments and the rule that picks one of them.
use vstd::prelude::*;
use vstd::string::StringExecFns;

verus! {

/// The context key under which the selected runtime's name is recorded.
pub const KEY_RUNTIME: &'static str = "task_runtime";

/// The environment variable whose presence signals the function host.
pub const FC_SIGNAL: &'static str = "FC_REGION";

/// The environment variable whose presence signals the event-loop host.
pub const LAMBDA_SIGNAL: &'static str = "AWS_REGION";

/// The execution environment a process runs in.
#[derive(Clone, Copy, Debug, PartialEq, Eq, Structural)]
pub enum Runtime {
    /// An HTTP-triggered function host.
    FC,
    /// An event-loop host that invokes the task once per event.
    Lambda,
    /// A local command-line invocation.
    Local,
}

impl Runtime {
    /// The lower-case name of the runtime, as recorded in the context.
    pub open spec fn name(self) -> Seq<char> {
        match self {
            Runtime::FC => "fc"@,
            Runtime::Lambda => "lambda"@,
            Runtime::Local => "local"@,
        }
    }

    /// What a run under a hosted runtime reports when its host has stopped
    /// serving; a local run has no such report.
    pub open spec fn served_message(self) -> Option<Seq<char>> {
        match self {
            Runtime::FC => Some("FC function executed"@),
            Runtime::Lambda => Some("AWS Lambda function executed"@),
            Runtime::Local => None,
        }
    }

    /// The report of a run whose host has stopped serving.
    pub fn served_report(&self) -> (report: Option<String>)
        ensures
            match report {
                Some(text) => self.served_message() == Some(text@),
                None => self.served_message() is None,
            },
    {
        match self {
            Runtime::FC => Some(String::from_str("FC function executed")),
            Runtime::Lambda => Some(String::from_str("AWS Lambda function executed")),
            Runtime::Local => None,
        }
    }

    /// The runtime's name as an owned string.
    pub fn to_string(&self) -> (text: String)
        ensures
            text@ == self.name(),
    {
        match self {
            Runtime::FC => String::from_str("fc"),
            Runtime::Lambda => String::from_str("lambda"),
            Runtime::Local => String::from_str("local"),
        }
    }
}

/// The runtime that the two environment signals select: the function-host
/// signal wins over the event-loop signal, and with neither the runtime is
/// local.
pub open spec fn selected_runtime(fc_signal: bool, lambda_signal: bool) -> Runtime {
    if fc_signal {
        Runtime::FC
    } else if lambda_signal {
        Runtime::Lambda
    } else {
        Runtime::Local
    }
}

/// Picks the runtime from the presence of the two environment signals. Only
/// presence counts, never a signal's value; the caller looks the signals up.
pub fn get_runtime(fc_signal: bool, lambda_signal: bool) -> (runtime: Runtime)
    ensures
        runtime == selected_runtime(fc_signal, lambda_signal),
{
    if fc_signal {
        Runtime::FC
    } else if lambda_signal {
        Runtime::Lambda
    } else {
        Runtime::Local
    }
}

} // verus!
