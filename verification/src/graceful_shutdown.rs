//! The report on a request to end another process.
//!
//! The request itself is the caller's: it signals or terminates the process
//! and says here how that went.

use vstd::prelude::*;
use vstd::string::StringExecFns;
use crate::text::{decimal, push_decimal};

verus! {

/// How a request to end a process went.
#[derive(Debug)]
pub enum SignalOutcome {
    /// The interrupt signal was sent.
    Sent,
    /// The interrupt signal could not be sent; with the reason.
    SendFailed(String),
    /// The process could not be opened for termination.
    OpenFailed,
    /// The process was terminated.
    Terminated,
    /// The process was opened and could not be terminated.
    TerminateFailed,
}

/// The mathematical value of a [`SignalOutcome`].
pub enum SignalOutcomeView {
    Sent,
    SendFailed(Seq<char>),
    OpenFailed,
    Terminated,
    TerminateFailed,
}

impl View for SignalOutcome {
    type V = SignalOutcomeView;

    open spec fn view(&self) -> SignalOutcomeView {
        match self {
            SignalOutcome::Sent => SignalOutcomeView::Sent,
            SignalOutcome::SendFailed(reason) => SignalOutcomeView::SendFailed(reason@),
            SignalOutcome::OpenFailed => SignalOutcomeView::OpenFailed,
            SignalOutcome::Terminated => SignalOutcomeView::Terminated,
            SignalOutcome::TerminateFailed => SignalOutcomeView::TerminateFailed,
        }
    }
}

impl SignalOutcomeView {
    /// Whether the process was signalled or terminated.
    pub open spec fn succeeded(self) -> bool {
        self is Sent || self is Terminated
    }

    /// The sentence that reports the outcome for the process `pid`.
    pub open spec fn message(self, pid: nat) -> Seq<char> {
        match self {
            SignalOutcomeView::Sent => "SIGINT sent to process "@ + decimal(pid),
            SignalOutcomeView::SendFailed(reason) => "Failed to send SIGINT to process "@
                + decimal(pid) + ": "@ + reason,
            SignalOutcomeView::OpenFailed => "Failed to open process "@ + decimal(pid),
            SignalOutcomeView::Terminated => "Process "@ + decimal(pid) + " terminated"@,
            SignalOutcomeView::TerminateFailed => "Failed to terminate process "@ + decimal(pid),
        }
    }
}

/// The mathematical value of a [`SignalResult`].
pub struct SignalResultView {
    pub success: bool,
    pub message: Seq<char>,
}

/// What the caller of a shutdown request is told.
#[derive(Debug)]
pub struct SignalResult {
    success: bool,
    message: String,
}

impl View for SignalResult {
    type V = SignalResultView;

    closed spec fn view(&self) -> SignalResultView {
        SignalResultView { success: self.success, message: self.message@ }
    }
}

impl SignalResult {
    /// The report on a request to end the process `pid` that went as
    /// `outcome` says.
    pub fn report(pid: u32, outcome: &SignalOutcome) -> (result: SignalResult)
        ensures
            result@ == (SignalResultView {
                success: outcome@.succeeded(),
                message: outcome@.message(pid as nat),
            }),
    {
        let id: u128 = pid as u128;
        match outcome {
            SignalOutcome::Sent => {
                let mut message = String::from_str("SIGINT sent to process ");
                push_decimal(&mut message, id);
                SignalResult { success: true, message }
            },
            SignalOutcome::SendFailed(reason) => {
                let mut message = String::from_str("Failed to send SIGINT to process ");
                push_decimal(&mut message, id);
                message.append(": ");
                message.append(reason.as_str());
                SignalResult { success: false, message }
            },
            SignalOutcome::OpenFailed => {
                let mut message = String::from_str("Failed to open process ");
                push_decimal(&mut message, id);
                SignalResult { success: false, message }
            },
            SignalOutcome::Terminated => {
                let mut message = String::from_str("Process ");
                push_decimal(&mut message, id);
                message.append(" terminated");
                SignalResult { success: true, message }
            },
            SignalOutcome::TerminateFailed => {
                let mut message = String::from_str("Failed to terminate process ");
                push_decimal(&mut message, id);
                SignalResult { success: false, message }
            },
        }
    }

    /// Whether the process was signalled or terminated.
    pub fn success(&self) -> (success: bool)
        ensures
            success == self@.success,
    {
        self.success
    }

    /// The sentence that reports the outcome.
    pub fn message(&self) -> (message: &str)
        ensures
            message@ == self@.message,
    {
        self.message.as_str()
    }
}

} // verus!
