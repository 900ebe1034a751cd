//! A time-boxed, multi-candidate voting poll: poll creation with a bounded
//! validity window, candidate registration before the poll opens, and vote
//! tallying while the window is open.

pub mod candidate;
pub mod ids;
pub mod poll;
pub mod store;
pub mod vote;
