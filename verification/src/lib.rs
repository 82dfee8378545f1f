//! Core logic of an interactive commit-message assistant: it sizes a staged
//! diff against a language model's context window, assembles streamed
//! completion candidates, tracks token/cost accounting, and drives the
//! commit / edit / revise decision loop.

pub mod actions;
pub mod choices;
pub mod conversation;
pub mod errors;
pub mod model;
pub mod negotiate;
pub mod protocol;
pub mod stream;
pub mod text;
pub mod tokens;
