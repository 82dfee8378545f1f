//! The ordered list of role-tagged messages a completion request is made
//! from. It grows in one direction only: messages are appended as the user
//! revises, never reordered or dropped.

use vstd::prelude::*;

use crate::protocol::{Message, Role};

verus! {

/// An append-only conversation: the system prompt first, then the diff and
/// whatever the user and the model said after it.
#[derive(Debug, Clone)]
pub struct Conversation {
    messages: Vec<Message>,
}

impl View for Conversation {
    type V = Seq<Message>;

    closed spec fn view(&self) -> Seq<Message> {
        self.messages@
    }
}

impl Conversation {
    /// A conversation is ready to be sent once it opens with the system
    /// prompt and at least one user message (the diff) follows.
    pub open spec fn ready_for_request(self) -> bool {
        &&& self@.len() >= 2
        &&& self@[0].role == Role::System
        &&& exists|i: int| 1 <= i < self@.len() && #[trigger] self@[i].role == Role::User
    }

    pub fn new() -> (c: Self)
        ensures
            c@ == Seq::<Message>::empty(),
    {
        Self { messages: Vec::new() }
    }

    /// Appends one message; everything already said stays in place.
    pub fn add_message(&mut self, message: Message)
        ensures
            final(self)@ == old(self)@.push(message),
    {
        self.messages.push(message);
    }

    /// The messages in order, for building a request body.
    pub fn snapshot(&self) -> (m: &Vec<Message>)
        ensures
            m@ == self@,
    {
        &self.messages
    }

    pub fn len(&self) -> (n: usize)
        ensures
            n == self@.len(),
    {
        self.messages.len()
    }

    /// Decides [`Conversation::ready_for_request`]: callers check this
    /// before sending, so no request ever goes out without the system
    /// prompt and the diff in place.
    pub fn is_ready_for_request(&self) -> (b: bool)
        ensures
            b == self.ready_for_request(),
    {
        if self.messages.len() < 2 {
            return false;
        }
        if !matches!(self.messages[0].role, Role::System) {
            return false;
        }
        let mut i: usize = 1;
        while i < self.messages.len()
            invariant
                1 <= i <= self@.len(),
                self@.len() >= 2,
                self@[0].role == Role::System,
                forall|j: int| 1 <= j < i ==> self@[j].role != Role::User,
            decreases self@.len() - i,
        {
            if matches!(self.messages[i].role, Role::User) {
                assert(1 <= i < self@.len() && self@[i as int].role == Role::User);
                return true;
            }
            i += 1;
        }
        false
    }

    /// Records one revision round: the answer the user was shown goes in as
    /// an assistant message, the user's critique follows it, so the model
    /// sees its own prior answer next to the complaint.
    pub fn record_revision(&mut self, answer: String, critique: String)
        ensures
            final(self)@.len() == old(self)@.len() + 2,
            final(self)@ == old(self)@
                .push(Message { role: Role::Assistant, content: answer })
                .push(Message { role: Role::User, content: critique }),
    {
        self.messages.push(Message::assistant(answer));
        self.messages.push(Message::user(critique));
    }
}

} // verus!
