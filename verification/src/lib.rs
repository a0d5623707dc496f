//! Conversation memory for chat agents: a bounded history of turns per
//! conversation, the assembly of prompts from a fixed seed dialogue and the
//! recent turns, and a registry of agents keyed by conversation.

pub mod commands;
pub mod completion;
pub mod dialogue;
pub mod god;
pub mod kirby;
pub mod nursery;
pub mod templates;
