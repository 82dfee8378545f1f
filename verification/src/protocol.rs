//! Data carried over the chat-completion wire protocol: role-tagged
//! messages, the streamed response shape, and the error payload the
//! endpoint returns.
//!
//! These are plain data types; the transport that fills them lives outside
//! the library and hands values in.

use vstd::prelude::*;

verus! {

/// Who said a message: the fixed system prompt, the user, or the model.
#[derive(Debug, Copy, Clone, PartialEq, Eq, Structural)]
pub enum Role {
    System,
    User,
    Assistant,
}

/// One role-tagged message of a conversation.
#[derive(Debug, Clone)]
pub struct Message {
    pub role: Role,
    pub content: String,
}

impl Message {
    /// A message carrying the system prompt.
    pub fn system(content: String) -> (m: Self)
        ensures
            m.role == Role::System,
            m.content == content,
    {
        Self { role: Role::System, content }
    }

    /// A message written by the user.
    pub fn user(content: String) -> (m: Self)
        ensures
            m.role == Role::User,
            m.content == content,
    {
        Self { role: Role::User, content }
    }

    /// A message the model answered with.
    pub fn assistant(content: String) -> (m: Self)
        ensures
            m.role == Role::Assistant,
            m.content == content,
    {
        Self { role: Role::Assistant, content }
    }
}

/// The incremental content fragment for one candidate within a streamed event.
#[derive(Debug, Clone)]
pub struct Delta {
    pub role: Option<Role>,
    pub content: Option<String>,
}

/// One entry of a streamed event: which candidate it belongs to and what
/// fragment it appends.
#[derive(Debug, Clone)]
pub struct Choice {
    pub index: i64,
    pub finish_reason: Option<String>,
    pub delta: Delta,
}

/// Token usage as the endpoint reports it at the end of a call.
#[derive(Debug, Clone)]
pub struct Usage {
    pub prompt_tokens: usize,
    pub completion_tokens: usize,
    pub total_tokens: usize,
}

/// One parsed streamed event payload.
#[derive(Debug, Clone)]
pub struct Response {
    pub id: String,
    pub object: String,
    pub created: i64,
    pub model: String,
    pub choices: Vec<Choice>,
    pub usage: Option<Usage>,
}

impl Response {
    /// The payload an unreadable event degrades to: it carries no fragments,
    /// so applying it leaves every candidate as it was.
    pub fn empty() -> (r: Self)
        ensures
            r.choices@ == Seq::<Choice>::empty(),
    {
        Self {
            id: String::new(),
            object: String::new(),
            created: 0,
            model: String::new(),
            choices: Vec::new(),
            usage: None,
        }
    }
}

/// The error body the endpoint returns on a failed request.
#[derive(Debug, Clone)]
pub struct Error {
    pub message: String,
    pub type_field: String,
    pub param: Option<String>,
    pub code: Option<String>,
}

/// The envelope around [`Error`] in a failed response.
#[derive(Debug, Clone)]
pub struct ErrorRoot {
    pub error: Error,
}

} // verus!
