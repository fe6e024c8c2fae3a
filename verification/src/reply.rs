//! What a tool tells its caller: the text for each outcome of a request,
//! and when the service counts as unavailable.
use crate::command::{LaunchAppRequest, ScreenshotRequest};
use crate::text::{debug_list, debug_list_string, decimal, decimal_string, texts};
use tokio::sync::oneshot::error::RecvError;
use vstd::prelude::*;

verus! {

/// What became of a command after it was handed to the command channel.
#[derive(Debug, PartialEq, Eq)]
pub enum Delivery<T> {
    /// The channel did not take the command, for the given reason: the
    /// render domain is gone.
    Refused(String),
    /// The response slot was dropped unwritten.
    Dropped,
    /// The render domain wrote this reply.
    Answered(T),
}

/// The service cannot answer; with the reason. A request that ends so is
/// not tried again.
#[derive(Debug, PartialEq, Eq)]
pub struct ServiceUnavailable {
    pub message: String,
}

/// The text for a launch of `command` with `args` that ended in `outcome`:
/// a process id, or the reason for which no process was started.
pub open spec fn launch_text(command: Seq<char>, args: Seq<Seq<char>>, outcome: Result<u32, String>) -> Seq<
    char,
> {
    match outcome {
        Ok(pid) => "Launched "@ + command + " (pid "@ + decimal(pid as nat) + ") with args "@
            + debug_list(args),
        Err(reason) => "Failed to launch "@ + command + ": "@ + reason@,
    }
}

/// The text for a capture that ended in `outcome`: the descriptor as it
/// is, or the reason for which nothing was captured.
pub open spec fn screenshot_text(outcome: Result<String, String>) -> Seq<char> {
    match outcome {
        Ok(told) => told@,
        Err(reason) => "Failed to take screenshot: "@ + reason@,
    }
}

/// The text that tells a caller that the command channel did not take its
/// command.
pub open spec fn refused_text(reason: Seq<char>) -> Seq<char> {
    "Failed to send command: "@ + reason
}

/// The text that tells a caller that its response slot was dropped.
pub open spec fn dropped_text() -> Seq<char> {
    "Event loop dropped response channel"@
}

impl<T> Delivery<T> {
    /// What waiting on the receiving half of a response slot gave: the
    /// reply, or the notice that the slot was dropped unwritten.
    pub fn received(waited: Result<T, RecvError>) -> (delivery: Delivery<T>)
        ensures
            match waited {
                Ok(reply) => delivery == Delivery::Answered(reply),
                Err(_) => delivery == Delivery::<T>::Dropped,
            },
    {
        match waited {
            Ok(reply) => Delivery::Answered(reply),
            Err(_) => Delivery::Dropped,
        }
    }
}

fn unavailable<T>(delivery: Delivery<T>) -> (r: Result<T, ServiceUnavailable>)
    ensures
        match delivery {
            Delivery::Refused(reason) => r matches Err(e) && e.message@ == refused_text(reason@),
            Delivery::Dropped => r matches Err(e) && e.message@ == dropped_text(),
            Delivery::Answered(reply) => r == Ok::<T, ServiceUnavailable>(reply),
        },
{
    match delivery {
        Delivery::Refused(reason) => Err(
            ServiceUnavailable {
                message: String::from_str("Failed to send command: ").concat(reason.as_str()),
            },
        ),
        Delivery::Dropped => Err(
            ServiceUnavailable { message: String::from_str("Event loop dropped response channel") },
        ),
        Delivery::Answered(reply) => Ok(reply),
    }
}

impl LaunchAppRequest {
    /// What the caller of the launch tool is told. A launch that failed is
    /// still an answer: its text says why. Only a command that was not
    /// taken, or a slot that was dropped, makes the service unavailable.
    pub fn reply(&self, delivery: Delivery<Result<u32, String>>) -> (out: Result<
        String,
        ServiceUnavailable,
    >)
        ensures
            match delivery {
                Delivery::Refused(reason) => out matches Err(e) && e.message@ == refused_text(
                    reason@,
                ),
                Delivery::Dropped => out matches Err(e) && e.message@ == dropped_text(),
                Delivery::Answered(outcome) => out matches Ok(s) && s@ == launch_text(
                    self.command@,
                    texts(self.args@),
                    outcome,
                ),
            },
    {
        match unavailable(delivery) {
            Err(e) => Err(e),
            Ok(Ok(pid)) => {
                let mut s = String::from_str("Launched ");
                s.append(self.command.as_str());
                s.append(" (pid ");
                s.append(decimal_string(pid).as_str());
                s.append(") with args ");
                s.append(debug_list_string(&self.args).as_str());
                Ok(s)
            },
            Ok(Err(reason)) => {
                let mut s = String::from_str("Failed to launch ");
                s.append(self.command.as_str());
                s.append(": ");
                s.append(reason.as_str());
                Ok(s)
            },
        }
    }
}

impl ScreenshotRequest {
    /// What the caller of the capture tool is told. A capture that failed
    /// is still an answer: its text says why. Only a command that was not
    /// taken, or a slot that was dropped, makes the service unavailable.
    pub fn reply(&self, delivery: Delivery<Result<String, String>>) -> (out: Result<
        String,
        ServiceUnavailable,
    >)
        ensures
            match delivery {
                Delivery::Refused(reason) => out matches Err(e) && e.message@ == refused_text(
                    reason@,
                ),
                Delivery::Dropped => out matches Err(e) && e.message@ == dropped_text(),
                Delivery::Answered(outcome) => out matches Ok(s) && s@ == screenshot_text(outcome),
            },
    {
        match unavailable(delivery) {
            Err(e) => Err(e),
            Ok(Ok(told)) => Ok(told),
            Ok(Err(reason)) => Ok(
                String::from_str("Failed to take screenshot: ").concat(reason.as_str()),
            ),
        }
    }
}

} // verus!
