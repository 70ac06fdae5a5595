//! Classic object-oriented design patterns, each shown on a small scenario,
//! with the behaviour of every piece stated as a contract and proved.
//!
//! The scenarios write no output themselves: whatever a scenario would say is
//! appended to a [`transcript::Transcript`], and the caller decides where the
//! lines go.

pub mod behavioral;
pub mod creational;
pub mod structural;
pub mod text;
pub mod transcript;
