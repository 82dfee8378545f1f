//! The decision loop around one chosen commit message: the user may commit
//! it, edit it and look again, ask for a revision, or abort. Every
//! transition here is driven by one user decision or one collaborator
//! result handed in by the caller; the loop ends only at a commit or an
//! abort.

use vstd::prelude::*;

use crate::text::str_eq;

verus! {

/// What the user can do with the presented message.
#[derive(Debug, Copy, Clone, PartialEq, Eq, Structural)]
pub enum Task {
    Commit,
    Edit,
    Revise,
    Abort,
}

impl Task {
    /// The menu label under which the selection prompt offers the choice.
    pub open spec fn spec_label(self) -> Seq<char> {
        match self {
            Task::Commit => "Commit it"@,
            Task::Edit => "Edit it & Commit"@,
            Task::Revise => "Revise"@,
            Task::Abort => "Abort"@,
        }
    }

    pub fn to_str(&self) -> (s: &str)
        ensures
            s@ == self.spec_label(),
    {
        match self {
            Task::Commit => "Commit it",
            Task::Edit => "Edit it & Commit",
            Task::Revise => "Revise",
            Task::Abort => "Abort",
        }
    }

    /// The task behind a selected menu label. Only the four labels of
    /// [`Task::to_str`] ever come back from the menu.
    pub fn from_str(s: &str) -> (t: Task)
        requires
            exists|t: Task| s@ == t.spec_label(),
        ensures
            s@ == t.spec_label(),
    {
        if str_eq(s, "Commit it") {
            Task::Commit
        } else if str_eq(s, "Edit it & Commit") {
            Task::Edit
        } else if str_eq(s, "Revise") {
            Task::Revise
        } else {
            proof {
                let t = choose|t: Task| s@ == t.spec_label();
                assert(t is Abort);
            }
            Task::Abort
        }
    }
}

/// Where the loop stands.
#[derive(Debug, Copy, Clone, PartialEq, Eq, Structural)]
pub enum Phase {
    /// A message is on the table, awaiting the user's decision.
    Presented,
    /// The commit collaborator is running on the current message.
    Committing,
    /// An external editor holds the message.
    Edited,
    /// A revision round is under way: the conversation grows and a new
    /// candidate is being fetched.
    Reviewing,
    /// The message was committed; the loop is over.
    Done,
    /// The user walked away; nothing was committed.
    Aborted,
}

/// What the caller must do next on behalf of the loop.
#[derive(Debug, Copy, Clone, PartialEq, Eq, Structural)]
pub enum Step {
    /// Run the commit collaborator on the current message and report back.
    RunCommit,
    /// Open the external editor on the current message and hand back its
    /// result.
    OpenEditor,
    /// Record the revision exchange, fetch new candidates, and hand back
    /// the newly chosen one.
    AskRevision,
    /// Stop; no further work.
    Halt,
}

/// The loop's state: the message currently under consideration and the
/// phase the loop is in.
#[derive(Debug)]
pub struct ActionLoop {
    pub message: String,
    pub phase: Phase,
}

impl ActionLoop {
    /// The loop has reached an end state and takes no further decisions.
    pub open spec fn is_terminal(self) -> bool {
        self.phase == Phase::Done || self.phase == Phase::Aborted
    }

    /// A freshly chosen candidate enters the loop.
    pub fn new(message: String) -> (s: Self)
        ensures
            s.phase == Phase::Presented,
            s.message == message,
    {
        Self { message, phase: Phase::Presented }
    }

    /// One user decision on the presented message. The message itself is
    /// untouched; the phase moves, and the returned step says what outside
    /// work the caller owes before the next call.
    pub fn on_task(&mut self, task: Task) -> (a: Step)
        requires
            old(self).phase == Phase::Presented,
        ensures
            final(self).message == old(self).message,
            match task {
                Task::Commit => a == Step::RunCommit && final(self).phase == Phase::Committing,
                Task::Edit => a == Step::OpenEditor && final(self).phase == Phase::Edited,
                Task::Revise => a == Step::AskRevision && final(self).phase == Phase::Reviewing,
                Task::Abort => a == Step::Halt && final(self).phase == Phase::Aborted,
            },
    {
        match task {
            Task::Commit => {
                self.phase = Phase::Committing;
                Step::RunCommit
            },
            Task::Edit => {
                self.phase = Phase::Edited;
                Step::OpenEditor
            },
            Task::Revise => {
                self.phase = Phase::Reviewing;
                Step::AskRevision
            },
            Task::Abort => {
                self.phase = Phase::Aborted;
                Step::Halt
            },
        }
    }

    /// The commit collaborator reported back. Success ends the loop;
    /// failure is fatal to the whole run — it is never retried, and the
    /// caller must surface the failure and exit nonzero.
    pub fn commit_finished(&mut self, success: bool) -> (fatal: bool)
        requires
            old(self).phase == Phase::Committing,
        ensures
            final(self).message == old(self).message,
            success ==> final(self).phase == Phase::Done && !fatal,
            !success ==> final(self).phase == old(self).phase && fatal,
    {
        if success {
            self.phase = Phase::Done;
            false
        } else {
            true
        }
    }

    /// The external editor returned: its result replaces the message and
    /// the loop presents it again. Editing never commits by itself.
    pub fn edited(&mut self, new_text: String)
        requires
            old(self).phase == Phase::Edited,
        ensures
            final(self).message == new_text,
            final(self).phase == Phase::Presented,
    {
        self.message = new_text;
        self.phase = Phase::Presented;
    }

    /// A revision round finished and the user chose a candidate from the
    /// new batch: it replaces the message and is presented again.
    pub fn revised(&mut self, chosen: String)
        requires
            old(self).phase == Phase::Reviewing,
        ensures
            final(self).message == chosen,
            final(self).phase == Phase::Presented,
    {
        self.message = chosen;
        self.phase = Phase::Presented;
    }
}

} // verus!
