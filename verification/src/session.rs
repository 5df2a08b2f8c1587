//! The interface between a scenario and the process session that it drives.
//!
//! The scenario never touches a process. It hands out one [`Action`] at a
//! time, the caller performs it on the session, and hands back what came of
//! it as a [`SessionReply`].

use vstd::prelude::*;

verus! {

/// What the scenario asks the caller to do next.
#[derive(Debug, PartialEq, Eq)]
pub enum Action {
    /// Start the interactive shell, with reads bounded by `timeout` seconds.
    Spawn { timeout: u32 },
    /// Write the text and a line terminator to the input of the process.
    SendLine(String),
    /// Read whatever non-empty output the process produces next.
    ReadOutput,
    /// Read whatever non-empty output the process produces next on its error
    /// stream.
    ReadError,
    /// Wait until the process has ended, and report its exit status.
    AwaitExit,
    /// Nothing is left to do: end the session, if there is one.
    Release,
}

/// The mathematical form of an [`Action`].
pub enum ActionView {
    Spawn { timeout: u32 },
    SendLine(Seq<char>),
    ReadOutput,
    ReadError,
    AwaitExit,
    Release,
}

impl View for Action {
    type V = ActionView;

    open spec fn view(&self) -> ActionView {
        match self {
            Action::Spawn { timeout } => ActionView::Spawn { timeout: *timeout },
            Action::SendLine(text) => ActionView::SendLine(text@),
            Action::ReadOutput => ActionView::ReadOutput,
            Action::ReadError => ActionView::ReadError,
            Action::AwaitExit => ActionView::AwaitExit,
            Action::Release => ActionView::Release,
        }
    }
}

/// What came of the action that the scenario asked for.
#[derive(Debug, PartialEq, Eq)]
pub enum SessionReply {
    /// The shell was started, or the line was written.
    Ready,
    /// The read matched this text.
    Output(String),
    /// The process has ended with this exit status.
    Exited(i32),
    /// The process ended, or its stream was closed, before anything matched:
    /// what the read was looking for, what it had got so far, and the exit
    /// status of the process where it is known.
    Eof { expected: String, got: String, exit_code: Option<i32> },
    /// Any other failure: the shell did not start, an I/O error, a timeout.
    Other,
}

/// The mathematical form of a [`SessionReply`].
pub enum ReplyView {
    Ready,
    Output(Seq<char>),
    Exited(i32),
    Eof { expected: Seq<char>, got: Seq<char>, exit_code: Option<i32> },
    Other,
}

impl View for SessionReply {
    type V = ReplyView;

    open spec fn view(&self) -> ReplyView {
        match self {
            SessionReply::Ready => ReplyView::Ready,
            SessionReply::Output(text) => ReplyView::Output(text@),
            SessionReply::Exited(code) => ReplyView::Exited(*code),
            SessionReply::Eof { expected, got, exit_code } => ReplyView::Eof {
                expected: expected@,
                got: got@,
                exit_code: *exit_code,
            },
            SessionReply::Other => ReplyView::Other,
        }
    }
}

/// Why a run failed.
#[derive(Debug, PartialEq, Eq)]
pub enum Failure {
    /// The shell could not be started; no act was looked at.
    Spawn,
    /// What was observed differs from what an act expects.
    Mismatch,
    /// The process ended, or its stream was closed, before the current act
    /// could be decided.
    EndOfOutput { expected: String, got: String, exit_code: Option<i32> },
    /// Any other failure of the session.
    Session,
}

/// The mathematical form of a [`Failure`].
pub enum FailureView {
    Spawn,
    Mismatch,
    EndOfOutput { expected: Seq<char>, got: Seq<char>, exit_code: Option<i32> },
    Session,
}

impl View for Failure {
    type V = FailureView;

    open spec fn view(&self) -> FailureView {
        match self {
            Failure::Spawn => FailureView::Spawn,
            Failure::Mismatch => FailureView::Mismatch,
            Failure::EndOfOutput { expected, got, exit_code } => FailureView::EndOfOutput {
                expected: expected@,
                got: got@,
                exit_code: *exit_code,
            },
            Failure::Session => FailureView::Session,
        }
    }
}

impl ReplyView {
    /// The failure that this reply stands for where it cannot be used: the
    /// end of output with its context, or else a failure of the session.
    pub open spec fn failure(self) -> FailureView {
        match self {
            ReplyView::Eof { expected, got, exit_code } => FailureView::EndOfOutput {
                expected,
                got,
                exit_code,
            },
            _ => FailureView::Session,
        }
    }

    /// The exit status that this reply carries: that of a process that has
    /// ended, be it reported as such or along with the end of output.
    pub open spec fn exit_status(self) -> Option<i32> {
        match self {
            ReplyView::Exited(code) => Some(code),
            ReplyView::Eof { exit_code, .. } => exit_code,
            _ => None,
        }
    }

    /// The exit status after this reply, where `before` was the last one
    /// observed: the status that the reply carries, if it carries one.
    pub open spec fn exit_code_after(self, before: i32) -> i32 {
        match self.exit_status() {
            Some(code) => code,
            None => before,
        }
    }
}

impl SessionReply {
    /// The failure that this reply stands for where it cannot be used.
    pub fn failure(&self) -> (failure: Failure)
        ensures
            failure@ == self@.failure(),
    {
        match self {
            SessionReply::Eof { expected, got, exit_code } => Failure::EndOfOutput {
                expected: expected.clone(),
                got: got.clone(),
                exit_code: *exit_code,
            },
            _ => Failure::Session,
        }
    }

    /// The exit status that this reply carries, if it carries one.
    pub fn exit_status(&self) -> (status: Option<i32>)
        ensures
            status == self@.exit_status(),
    {
        match self {
            SessionReply::Exited(code) => Some(*code),
            SessionReply::Eof { exit_code, .. } => *exit_code,
            _ => None,
        }
    }

    /// The exit status after this reply, where `before` was the last one
    /// observed.
    pub fn exit_code_after(&self, before: i32) -> (code: i32)
        ensures
            code == self@.exit_code_after(before),
    {
        match self.exit_status() {
            Some(code) => code,
            None => before,
        }
    }
}

} // verus!
