//! Creational patterns: how objects come to be.

pub mod builder;
pub mod factory;
pub mod prototype;
