//! Interactive triage of local branches, one keystroke per branch.
//!
//! The crate holds the decisions of a branch review: which branches are
//! offered and in what order, what each keystroke means, what is printed, and
//! which change the repository is asked to make. Reading the keyboard, writing
//! to the terminal and talking to the repository are left to the program that
//! drives a [`review::Review`].

pub mod action;
pub mod branch;
pub mod decision;
pub mod error;
pub mod laws;
pub mod lister;
pub mod queue;
pub mod review;
pub mod text;
pub mod time;
