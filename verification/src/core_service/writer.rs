//! The writer that hands the user's responses to the process of a turn.

use vstd::prelude::*;

verus! {

/// The user's decision on a tool call or question.
#[derive(Clone, Debug)]
pub enum ApprovalDecision {
    Allow,
    Deny(String),
    HostExecutedShell(String),
    Answer(String),
    ShellEvidence(String),
}

/// The user's response to a request of the core.
#[derive(Clone, Debug)]
pub struct ApprovalResponse {
    pub request_id: String,
    pub decision: ApprovalDecision,
}

/// What the writer is told.
pub enum WriterInput {
    /// The request is on screen.
    Receipt(String),
    /// The user responded.
    Response(ApprovalResponse),
    /// Nobody responded for a while.
    Timeout,
    /// Nobody will respond any more.
    Disconnected,
    /// Whether the receipt went out.
    ReceiptSent(bool),
    /// Whether the answer to this question went out.
    AnswerSent(String, bool),
    /// Whether the decision went out.
    DecisionSent(bool),
    /// The caller knows that the answer went out.
    Confirmed,
    /// The user authenticated.
    AuthArrived,
    /// No authentication has arrived.
    AuthEmpty,
    /// None will arrive any more.
    AuthDisconnected,
    /// Whether the authentication went out.
    AuthSent(bool),
}

/// What the writer does next.
pub enum WriterAction {
    /// Wait a moment for a response.
    Await,
    /// Confirm that the request is on screen.
    SendReceipt(String),
    /// Send the answer to a question and note it in the question gate.
    SendAnswer(ApprovalResponse),
    /// Send the decision.
    SendDecision(ApprovalResponse),
    /// Tell the caller that the answer to this question went out.
    Confirm(String),
    /// Look for an authentication response.
    PollAuth,
    /// Send the authentication response.
    SendAuth,
    /// Tell the caller and the turn that the answer could not be written, and
    /// end.
    Refuse,
    /// End.
    End,
}

/// The channels that the writer still reads.
#[derive(Clone, Copy, Debug, PartialEq, Eq, Structural)]
pub struct Writer {
    pub approval_open: bool,
    pub auth_open: bool,
}

/// What happens around the writer.
#[derive(Clone, Copy, Debug, PartialEq, Eq, Structural)]
pub struct Surroundings {
    /// The turn is over.
    pub done: bool,
    /// The turn was cancelled.
    pub cancelled: bool,
    /// The process understands receipts.
    pub receipt_capable: bool,
}

/// The next round: responses come before authentication, and the writer ends
/// with the turn or with its last channel.
pub open spec fn next_round(w: Writer, around: Surroundings) -> WriterAction {
    if around.done || around.cancelled {
        WriterAction::End
    } else if w.approval_open {
        WriterAction::Await
    } else if w.auth_open {
        WriterAction::PollAuth
    } else {
        WriterAction::End
    }
}

/// The rest of a round without a response.
pub open spec fn rest_of_round(w: Writer, around: Surroundings) -> WriterAction {
    if w.auth_open {
        WriterAction::PollAuth
    } else {
        next_round(w, around)
    }
}

/// What follows a message that went out, or did not.
pub open spec fn after_sending(w: Writer, sent: bool, around: Surroundings) -> WriterAction {
    if sent {
        next_round(w, around)
    } else {
        WriterAction::End
    }
}

/// One step of the writer.
pub open spec fn writer_step(w: Writer, input: WriterInput, around: Surroundings) -> (
    Writer,
    WriterAction,
) {
    match input {
        WriterInput::Receipt(id) => (
            w,
            if around.receipt_capable {
                WriterAction::SendReceipt(id)
            } else {
                next_round(w, around)
            },
        ),
        WriterInput::Response(response) => (
            w,
            if response.decision is Answer {
                WriterAction::SendAnswer(response)
            } else {
                WriterAction::SendDecision(response)
            },
        ),
        WriterInput::Timeout => (w, rest_of_round(w, around)),
        WriterInput::Disconnected => {
            let next = Writer { approval_open: false, ..w };
            (next, rest_of_round(next, around))
        },
        WriterInput::ReceiptSent(sent) => (w, after_sending(w, sent, around)),
        WriterInput::AnswerSent(id, sent) => (
            w,
            if sent {
                WriterAction::Confirm(id)
            } else {
                WriterAction::Refuse
            },
        ),
        WriterInput::DecisionSent(sent) => (w, after_sending(w, sent, around)),
        WriterInput::Confirmed => (w, next_round(w, around)),
        WriterInput::AuthArrived => (w, WriterAction::SendAuth),
        WriterInput::AuthEmpty => (w, next_round(w, around)),
        WriterInput::AuthDisconnected => {
            let next = Writer { auth_open: false, ..w };
            (next, next_round(next, around))
        },
        WriterInput::AuthSent(sent) => (w, after_sending(w, sent, around)),
    }
}

impl Writer {
    /// A writer with both channels open, and what it does first.
    pub fn open(around: Surroundings) -> (res: (Writer, WriterAction))
        ensures
            res.0 == (Writer { approval_open: true, auth_open: true }),
            res.1 == next_round(res.0, around),
    {
        let writer = Writer { approval_open: true, auth_open: true };
        let action = writer.begin_round(around);
        (writer, action)
    }

    fn begin_round(&self, around: Surroundings) -> (res: WriterAction)
        ensures
            res == next_round(*self, around),
    {
        if around.done || around.cancelled {
            WriterAction::End
        } else if self.approval_open {
            WriterAction::Await
        } else if self.auth_open {
            WriterAction::PollAuth
        } else {
            WriterAction::End
        }
    }

    fn finish_round(&self, around: Surroundings) -> (res: WriterAction)
        ensures
            res == rest_of_round(*self, around),
    {
        if self.auth_open {
            WriterAction::PollAuth
        } else {
            self.begin_round(around)
        }
    }

    fn go_on(&self, sent: bool, around: Surroundings) -> (res: WriterAction)
        ensures
            res == after_sending(*self, sent, around),
    {
        if sent {
            self.begin_round(around)
        } else {
            WriterAction::End
        }
    }

    /// Decides what an input leads to. A receipt goes only to a process that
    /// understands it, and a message that does not go out ends the writer.
    pub fn on_input(&mut self, input: WriterInput, around: Surroundings) -> (res: WriterAction)
        ensures
            (*final(self), res) == writer_step(*old(self), input, around),
    {
        match input {
            WriterInput::Receipt(id) => {
                if around.receipt_capable {
                    WriterAction::SendReceipt(id)
                } else {
                    self.begin_round(around)
                }
            },
            WriterInput::Response(response) => {
                let answer: bool = match &response.decision {
                    ApprovalDecision::Answer(_) => true,
                    _ => false,
                };
                if answer {
                    WriterAction::SendAnswer(response)
                } else {
                    WriterAction::SendDecision(response)
                }
            },
            WriterInput::Timeout => self.finish_round(around),
            WriterInput::Disconnected => {
                self.approval_open = false;
                self.finish_round(around)
            },
            WriterInput::ReceiptSent(sent) => self.go_on(sent, around),
            WriterInput::AnswerSent(id, sent) => {
                if sent {
                    WriterAction::Confirm(id)
                } else {
                    WriterAction::Refuse
                }
            },
            WriterInput::DecisionSent(sent) => self.go_on(sent, around),
            WriterInput::Confirmed => self.begin_round(around),
            WriterInput::AuthArrived => WriterAction::SendAuth,
            WriterInput::AuthEmpty => self.begin_round(around),
            WriterInput::AuthDisconnected => {
                self.auth_open = false;
                self.begin_round(around)
            },
            WriterInput::AuthSent(sent) => self.go_on(sent, around),
        }
    }
}

/// A channel that is closed stays closed.
pub proof fn closed_channels_stay_closed(w: Writer, input: WriterInput, around: Surroundings)
    ensures
        !w.approval_open ==> !writer_step(w, input, around).0.approval_open,
        !w.auth_open ==> !writer_step(w, input, around).0.auth_open,
{
}

/// The writer begins no round behind the end or the cancellation of its turn.
pub proof fn ended_turns_are_not_waited_for(w: Writer, input: WriterInput, around: Surroundings)
    requires
        around.done || around.cancelled,
    ensures
        !(writer_step(w, input, around).1 is Await),
{
}

/// A response that arrives is never dropped: it goes out as an answer or as a
/// decision, as it is.
pub proof fn responses_go_out(w: Writer, response: ApprovalResponse, around: Surroundings)
    ensures
        ({
            let action = writer_step(w, WriterInput::Response(response), around).1;
            action == WriterAction::SendAnswer(response) || action == WriterAction::SendDecision(
                response,
            )
        }),
{
}

} // verus!
