//! The commands that cross from the service domain into the render domain.
use crate::slot::open_slot;
use crate::text::{debug_list, debug_list_string, debug_quote, debug_quoted, texts};
use tokio::sync::oneshot::{Receiver, Sender};
use vstd::prelude::*;

verus! {

/// Parameters of the tool that launches an application.
pub struct LaunchAppRequest {
    pub command: String,
    pub args: Vec<String>,
}

/// Parameters of the tool that captures the output.
pub struct ScreenshotRequest {
    /// File path to save the screenshot to (PNG format)
    pub filename: String,
}

/// A request on its way to the render domain, with the sending half of the
/// slot on which its one reply is owed.
#[allow(inconsistent_fields)]
pub enum McpCommand {
    LaunchApp {
        command: String,
        args: Vec<String>,
        response_tx: Sender<Result<u32, String>>,
    },
    Screenshot { filename: String, response_tx: Sender<Result<String, String>> },
}

impl McpCommand {
    /// Whether this command asks for a launch of `command` with `args`.
    pub open spec fn launches(&self, command: Seq<char>, args: Seq<Seq<char>>) -> bool {
        match *self {
            McpCommand::LaunchApp { command: c, args: a, .. } => c@ == command && texts(a@) == args,
            McpCommand::Screenshot { .. } => false,
        }
    }

    /// Whether this command asks for a capture saved at `filename`.
    pub open spec fn captures(&self, filename: Seq<char>) -> bool {
        match *self {
            McpCommand::LaunchApp { .. } => false,
            McpCommand::Screenshot { filename: f, .. } => f@ == filename,
        }
    }

    /// The command as a log line shows it: its kind and its parameters in
    /// the standard `{:?}` form, without the response slot.
    pub open spec fn debug_text(&self) -> Seq<char> {
        match *self {
            McpCommand::LaunchApp { command, args, .. } => "LaunchApp { command: "@ + debug_quoted(
                command@,
            ) + ", args: "@ + debug_list(texts(args@)) + " }"@,
            McpCommand::Screenshot { filename, .. } => "Screenshot { filename: "@ + debug_quoted(
                filename@,
            ) + " }"@,
        }
    }

    /// Writes the command as a log line shows it.
    pub fn debug_string(&self) -> (s: String)
        ensures
            s@ == self.debug_text(),
    {
        match self {
            McpCommand::LaunchApp { command, args, .. } => {
                let mut s = String::from_str("LaunchApp { command: ");
                s.append(debug_quote(command.as_str()).as_str());
                s.append(", args: ");
                s.append(debug_list_string(args).as_str());
                s.append(" }");
                s
            },
            McpCommand::Screenshot { filename, .. } => {
                let mut s = String::from_str("Screenshot { filename: ");
                s.append(debug_quote(filename.as_str()).as_str());
                s.append(" }");
                s
            },
        }
    }
}

fn clone_texts(items: &Vec<String>) -> (copy: Vec<String>)
    ensures
        texts(copy@) == texts(items@),
{
    let mut copy: Vec<String> = Vec::new();
    let mut i: usize = 0;
    while i < items.len()
        invariant
            i <= items.len(),
            copy.len() == i,
            forall|k: int| 0 <= k < i ==> copy@[k]@ == items@[k]@,
        decreases items.len() - i,
    {
        copy.push(items[i].clone());
        i = i + 1;
    }
    assert(texts(copy@) =~= texts(items@));
    copy
}

impl LaunchAppRequest {
    /// Opens a fresh response slot and builds the command that carries this
    /// request and the slot's sending half. The receiving half comes back
    /// for the caller to wait on.
    pub fn issue(&self) -> (issued: (McpCommand, Receiver<Result<u32, String>>))
        ensures
            issued.0.launches(self.command@, texts(self.args@)),
    {
        let (response_tx, response_rx) = open_slot();
        let command = self.command.clone();
        let args = clone_texts(&self.args);
        (McpCommand::LaunchApp { command, args, response_tx }, response_rx)
    }
}

impl ScreenshotRequest {
    /// Opens a fresh response slot and builds the command that carries this
    /// request and the slot's sending half. The receiving half comes back
    /// for the caller to wait on.
    pub fn issue(&self) -> (issued: (McpCommand, Receiver<Result<String, String>>))
        ensures
            issued.0.captures(self.filename@),
    {
        let (response_tx, response_rx) = open_slot();
        let filename = self.filename.clone();
        (McpCommand::Screenshot { filename, response_tx }, response_rx)
    }
}

} // verus!
