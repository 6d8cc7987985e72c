//! The one-time bootstrap of a management cluster, as a verified state machine.
//!
//! [`bootstrap::bootstrap`] takes the settings, the stage that was reached and the answer to the
//! last action, and says what follows: notes for the terminal and the next action, success, or a
//! failure. It runs no program and opens no connection itself; whoever drives it performs the
//! actions of [`protocol::Action`] and hands back their answers.
//!
//! Each phase stands in a module of its own, as a specification of what follows at each point and
//! a function that is proved to follow it. What is told and asked for in each phase, from its first
//! line to its last, is proved in [`scripts`]. What holds of the bootstrap as a whole is proved in
//! [`answers`], [`cleanup`], [`order`], [`rerun`], [`secrecy`], [`success`] and [`termination`].

pub mod answers;
pub mod aws;
pub mod bootstrap;
pub mod cleanup;
pub mod cli;
pub mod cluster;
pub mod decimal;
pub mod failure;
pub mod flux;
pub mod order;
pub mod outside;
pub mod preflight;
pub mod process;
pub mod protocol;
pub mod registry;
pub mod rerun;
pub mod scripts;
pub mod secrecy;
pub mod success;
pub mod termination;
pub mod text;
pub mod watch;
