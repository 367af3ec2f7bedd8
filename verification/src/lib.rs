//! The decisions behind the `ns-inscriber` command line: it keeps keys under a key encryption key,
//! derives and uses them, and inscribes names on the Bitcoin chain.
//!
//! A run of the program is a [`session::Session`]. It asks for one thing at a time, such as a
//! prompt, a file, a signature or a call to the Bitcoin node, is answered with plain values, and
//! decides what comes next.

pub mod behaviour;
pub mod chain;
pub mod cli;
pub mod cose;
pub mod derivation;
pub mod files;
pub mod form;
pub mod hexadecimal;
pub mod keystore;
pub mod listing;
pub mod messages;
pub mod names;
pub mod node;
pub mod progress;
pub mod protection;
pub mod reach;
pub mod roundtrip;
pub mod run;
pub mod seeds;
pub mod session;
pub mod spending;
pub mod state;
pub mod text;
pub mod vetting;
pub mod wire;
