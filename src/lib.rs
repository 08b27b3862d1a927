//! Mirrors what a listener is playing on a scrobbling service into the
//! status text of a Revolt account.
//!
//! The library holds the decisions: which track counts as playing, when the
//! status must be written, what it says, and how each upstream and
//! downstream error is handled. The program around it performs the HTTP
//! calls and the timing.
pub mod cli;
pub mod config;
pub mod engine;
pub mod lastfm;
pub mod listenbrainz;
pub mod login;
pub mod revolt;
pub mod supervisor;
pub mod track;
