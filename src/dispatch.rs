//! The decisions of a send: asking for confirmation, then sending and
//! archiving the emails one after the other. The caller performs each
//! action and reports back what happened.
use crate::text::{lower_of, lowercase, trim, trimmed};
use vstd::prelude::*;

verus! {

/// The answer to the confirmation question.
#[derive(Debug, Clone, Copy, PartialEq, Eq)]
pub enum Confirmed {
    Yes,
    No,
}

/// What an answer means once trimmed and in lowercase: `y`/`yes`,
/// `n`/`no`, or nothing.
pub open spec fn answer_of(lowered: Seq<char>) -> Option<Confirmed> {
    if lowered == "y"@ || lowered == "yes"@ {
        Some(Confirmed::Yes)
    } else if lowered == "n"@ || lowered == "no"@ {
        Some(Confirmed::No)
    } else {
        None
    }
}

impl Confirmed {
    /// The answer given by a trimmed, lowercase line.
    pub fn from_lowered(lowered: &str) -> (r: Option<Confirmed>)
        ensures
            r == answer_of(lowered@),
    {
        let s = String::from_str(lowered);
        if s == String::from_str("y") || s == String::from_str("yes") {
            Some(Confirmed::Yes)
        } else if s == String::from_str("n") || s == String::from_str("no") {
            Some(Confirmed::No)
        } else {
            None
        }
    }

    /// The answer given by a line of input: yes or no, in any case, with
    /// surrounding white space ignored.
    pub fn from_answer(line: &str) -> (r: Option<Confirmed>)
        ensures
            r == answer_of(lower_of(trimmed(line@))),
    {
        let lowered = lowercase(trim(line));
        Self::from_lowered(lowered.as_str())
    }
}

/// Where a send stands.
#[derive(Debug, Clone, Copy, PartialEq, Eq)]
pub enum Stage {
    /// Waiting for the user to confirm.
    AwaitingConfirmation,
    /// The email at this position is to be sent.
    Sending(usize),
    /// The email at this position is sent and to be archived.
    Archiving(usize),
    /// Every email was handled.
    Done,
    /// The user declined: nothing is sent or archived.
    Skipped,
}

/// What the caller is to do next.
#[derive(Debug, Clone, Copy, PartialEq, Eq)]
pub enum Action {
    /// Show the receivers and ask for confirmation.
    Prompt,
    /// The answer was not understood: ask again.
    Reprompt,
    /// Send the email at this position and report its status.
    Send(usize),
    /// Archive the email at this position.
    Archive(usize),
    /// Report that every email was handled.
    Finish,
    /// Report that the send was aborted.
    Abort,
}

/// What happened since the last action.
#[derive(Debug, Clone, PartialEq, Eq)]
pub enum Event {
    /// A line of input was read in answer to the prompt.
    Answer(String),
    /// The email of the current position was handed to the transport.
    Sent,
    /// The email of the current position was archived.
    Archived,
}

/// The state of a send of `total` emails, archived or not.
#[derive(Debug, Clone, Copy, PartialEq, Eq)]
pub struct Dispatch {
    pub total: usize,
    pub archive: bool,
    pub stage: Stage,
}

/// The stage that sending starts in.
pub open spec fn first_send(total: usize) -> Stage {
    if total == 0 {
        Stage::Done
    } else {
        Stage::Sending(0)
    }
}

/// The stage after the email at position `i` was fully handled.
pub open spec fn after(total: usize, i: usize) -> Stage {
    if i + 1 < total {
        Stage::Sending((i + 1) as usize)
    } else {
        Stage::Done
    }
}

/// The action that a stage asks for.
pub open spec fn pending(stage: Stage) -> Action {
    match stage {
        Stage::AwaitingConfirmation => Action::Prompt,
        Stage::Sending(i) => Action::Send(i),
        Stage::Archiving(i) => Action::Archive(i),
        Stage::Done => Action::Finish,
        Stage::Skipped => Action::Abort,
    }
}

/// The next stage after an event; an answer is given already trimmed and
/// in lowercase. An event that does not fit the stage changes nothing.
pub open spec fn next_stage(d: Dispatch, event: Event, lowered: Seq<char>) -> Stage {
    match (d.stage, event) {
        (Stage::AwaitingConfirmation, Event::Answer(_)) => match answer_of(lowered) {
            Some(Confirmed::Yes) => first_send(d.total),
            Some(Confirmed::No) => Stage::Skipped,
            None => Stage::AwaitingConfirmation,
        },
        (Stage::Sending(i), Event::Sent) => if d.archive {
            Stage::Archiving(i)
        } else {
            after(d.total, i)
        },
        (Stage::Archiving(i), Event::Archived) => after(d.total, i),
        _ => d.stage,
    }
}

/// The action after an event: a new prompt where the answer was not
/// understood, else what the new stage asks for.
pub open spec fn next_action(d: Dispatch, event: Event, lowered: Seq<char>) -> Action {
    if d.stage == Stage::AwaitingConfirmation && event is Answer && answer_of(lowered) is None {
        Action::Reprompt
    } else {
        pending(next_stage(d, event, lowered))
    }
}

/// The characters of an answer once trimmed and in lowercase; empty for
/// other events.
pub open spec fn lowered_answer(event: Event) -> Seq<char> {
    match event {
        Event::Answer(line) => lower_of(trimmed(line@)),
        _ => seq![],
    }
}

/// The last line reported for a send that ended with `action`: sent, sent
/// in a dry run, or aborted.
pub open spec fn closing_line_spec(action: Action, dry_run: bool, bulk: bool) -> Seq<char> {
    if action == Action::Abort {
        "Aborted"@
    } else if bulk {
        if dry_run {
            "All emails sent (dry run)"@
        } else {
            "All emails sent"@
        }
    } else if dry_run {
        "Email sent (dry run)"@
    } else {
        "Email sent"@
    }
}

/// The last line reported for a send that ended with `action`.
pub fn closing_line(action: Action, dry_run: bool, bulk: bool) -> (r: &'static str)
    ensures
        r@ == closing_line_spec(action, dry_run, bulk),
{
    if let Action::Abort = action {
        "Aborted"
    } else if bulk {
        if dry_run {
            "All emails sent (dry run)"
        } else {
            "All emails sent"
        }
    } else if dry_run {
        "Email sent (dry run)"
    } else {
        "Email sent"
    }
}

impl Dispatch {
    /// A send of `total` emails: straight to sending when confirmation is
    /// assumed, else to the prompt.
    pub fn new(total: usize, assume_yes: bool, archive: bool) -> (r: (Dispatch, Action))
        ensures
            r.0.total == total,
            r.0.archive == archive,
            r.0.stage == if assume_yes {
                first_send(total)
            } else {
                Stage::AwaitingConfirmation
            },
            r.1 == pending(r.0.stage),
    {
        let stage = if assume_yes {
            Self::first_send(total)
        } else {
            Stage::AwaitingConfirmation
        };
        let d = Dispatch { total, archive, stage };
        (d, Self::pending(stage))
    }

    fn first_send(total: usize) -> (r: Stage)
        ensures
            r == first_send(total),
    {
        if total == 0 {
            Stage::Done
        } else {
            Stage::Sending(0)
        }
    }

    fn after(total: usize, i: usize) -> (r: Stage)
        ensures
            r == after(total, i),
    {
        if i < total && i + 1 < total {
            Stage::Sending(i + 1)
        } else {
            Stage::Done
        }
    }

    fn pending(stage: Stage) -> (r: Action)
        ensures
            r == pending(stage),
    {
        match stage {
            Stage::AwaitingConfirmation => Action::Prompt,
            Stage::Sending(i) => Action::Send(i),
            Stage::Archiving(i) => Action::Archive(i),
            Stage::Done => Action::Finish,
            Stage::Skipped => Action::Abort,
        }
    }

    /// Advances on an answer that is already trimmed and in lowercase, or
    /// on another event.
    pub fn step_lowered(&mut self, event: &Event, lowered: &str) -> (r: Action)
        ensures
            final(self).total == old(self).total,
            final(self).archive == old(self).archive,
            final(self).stage == next_stage(*old(self), *event, lowered@),
            r == next_action(*old(self), *event, lowered@),
    {
        match (self.stage, event) {
            (Stage::AwaitingConfirmation, Event::Answer(_)) => match Confirmed::from_lowered(lowered) {
                Some(Confirmed::Yes) => {
                    self.stage = Self::first_send(self.total);
                    Self::pending(self.stage)
                },
                Some(Confirmed::No) => {
                    self.stage = Stage::Skipped;
                    Action::Abort
                },
                None => Action::Reprompt,
            },
            (Stage::Sending(i), Event::Sent) => {
                self.stage = if self.archive {
                    Stage::Archiving(i)
                } else {
                    Self::after(self.total, i)
                };
                Self::pending(self.stage)
            },
            (Stage::Archiving(i), Event::Archived) => {
                self.stage = Self::after(self.total, i);
                Self::pending(self.stage)
            },
            _ => Self::pending(self.stage),
        }
    }

    /// Advances on what happened since the last action.
    pub fn step(&mut self, event: &Event) -> (r: Action)
        ensures
            final(self).total == old(self).total,
            final(self).archive == old(self).archive,
            final(self).stage == next_stage(*old(self), *event, lowered_answer(*event)),
            r == next_action(*old(self), *event, lowered_answer(*event)),
    {
        match event {
            Event::Answer(line) => {
                let lowered = lowercase(trim(line.as_str()));
                self.step_lowered(event, lowered.as_str())
            },
            _ => self.step_lowered(event, ""),
        }
    }
}

/// While confirmation is awaited, only an answer meaning yes leads to a
/// send, and an answer that means neither yes nor no changes nothing and
/// asks again.
pub proof fn lemma_only_yes_sends(d: Dispatch, event: Event, lowered: Seq<char>)
    requires
        d.stage == Stage::AwaitingConfirmation,
    ensures
        next_action(d, event, lowered) is Send ==> answer_of(lowered) == Some(Confirmed::Yes),
        next_stage(d, event, lowered) != Stage::AwaitingConfirmation ==> (event is Answer
            && answer_of(lowered) is Some),
        (event is Answer && answer_of(lowered) is None) ==> (next_stage(d, event, lowered)
            == d.stage && next_action(d, event, lowered) == Action::Reprompt),
{
}

/// Once the user declined, whatever happens, nothing is sent or archived.
pub proof fn lemma_skipped_is_final(d: Dispatch, event: Event, lowered: Seq<char>)
    requires
        d.stage == Stage::Skipped,
    ensures
        next_stage(d, event, lowered) == Stage::Skipped,
        next_action(d, event, lowered) == Action::Abort,
{
}

/// Emails are sent in order, each one only after the one before it was
/// sent and, where asked, archived.
pub proof fn lemma_sends_in_order(d: Dispatch, event: Event, lowered: Seq<char>)
    ensures
        next_action(d, event, lowered) matches Action::Send(j) ==> (j == 0 || (d.stage
            matches Stage::Sending(i) && !d.archive && j == i + 1) || (d.stage
            matches Stage::Archiving(i) && j == i + 1) || d.stage == Stage::Sending(j)),
{
}

} // verus!
