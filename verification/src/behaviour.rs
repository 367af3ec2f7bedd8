//! What each command does, told as the whole conversation of its run: for every input and every
//! answer, what is asked, with what, and in which order.

pub mod addresses;
pub mod always;
pub mod deriving;
pub mod fitting;
pub mod inscribing;
pub mod keeping;
pub mod listing;
pub mod models;
pub mod refusing;
pub mod sending;
pub mod signing;
pub mod steps;
pub mod texts;
