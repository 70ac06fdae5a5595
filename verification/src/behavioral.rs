//! Behavioural patterns: how objects talk to each other and share the work.

pub mod command;
pub mod iter;
pub mod mediator;
pub mod strategy;
