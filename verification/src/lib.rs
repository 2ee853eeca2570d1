//! The signer's view of the chain as a verified state machine, and the
//! symbolic expressions that contract code is represented with.
//!
//! `signer_state` holds the state machine. Whatever the signer learns from its
//! node, its database or the clock reaches it as a `Reply` to a `Request`; every
//! decision between two requests is made, and verified, here. What the calls do for their
//! callers is stated in `verdicts`, `courses` and `successions`: what is asked, what is told,
//! and what comes of it.

pub mod arrival;
pub mod calls;
pub mod chain;
pub mod courses;
pub mod errors;
pub mod histories;
pub mod inactivity;
pub mod laws;
pub mod messages;
pub mod miner;
pub mod representations;
pub mod signer_state;
pub mod successions;
pub mod tenure;
pub mod timeout;
pub mod update;
pub mod verdicts;
