//! Command registration, dispatch and reply construction for a chat bot.
//!
//! The registry holds a closed set of named commands, the dispatcher routes an
//! inbound event to the command of that name, and the reply builder turns what
//! a command produced into the message that goes back over the gateway.

pub mod reply;
pub mod registry;
pub mod commands;
pub mod dispatch;
pub mod startup;
