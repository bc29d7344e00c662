//! Resolves the tool calls of an assistant turn and threads their results
//! back into the conversation.
//!
//! - `json`: the opaque JSON value that history messages and tool inputs are.
//! - `content`: content items, turns, tool results and the result sequence.
//! - `tools`: the registry of known tools and the dispatcher.
//! - `assembler`: builds the message sequence of the next turn.

pub mod json;
pub mod content;
pub mod tools;
pub mod assembler;
