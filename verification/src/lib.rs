//! A conversational agent that calls tools.
//!
//! The agent drives a chat-completion provider through the cycles of a turn:
//! it sends the conversation and the definitions of its tools, appends what
//! the provider answers, invokes the tool that the provider asks for, notes
//! the result in the conversation and asks again, until the provider asks
//! for no tool, a tool stops the turn, a stage fails or the limit of cycles
//! is reached.
//!
//! [`turn`] holds the decisions of a turn as a state machine, [`laws`] what
//! holds of every turn, [`agent`] the loop that drives a turn, and [`actor`]
//! the agent behind a mailbox. [`tools`] and [`chat_completion`] hold the
//! data and the interfaces, [`toolset`] builds capabilities from
//! declarations, and the remaining modules hold what the program around the
//! agent computes.

pub mod actor;
pub mod agent;
pub mod chat_completion;
pub mod config;
pub mod errors;
pub mod json_schema;
pub mod laws;
pub mod providers;
pub mod social;
pub mod stop;
pub mod text;
pub mod tools;
pub mod toolset;
pub mod turn;
