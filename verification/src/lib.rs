//! Turns a ticket reference into a feature branch.
//!
//! A ticket key is found in free text ([`key`]), the tracker is asked for the
//! ticket's title ([`client`]), and a branch named after key and title
//! ([`slug`], [`branch`]) is created and made the active one.
//!
//! The library decides and its caller acts: [`workflow`] names one action at
//! a time and takes what came of it, and [`run`] states what holds of every
//! run, whatever comes of the actions. [`error`] holds the ways in which a
//! run can fail, with the exit code and the message of each.

pub mod branch;
pub mod client;
pub mod error;
pub mod key;
pub mod run;
pub mod slug;
pub mod text;
pub mod workflow;
