use vstd::prelude::*;

pub mod api;
pub mod browser;
pub mod chrome;
pub mod clock;
pub mod config;
pub mod coordinator;
pub mod input;
pub mod ipc;
pub mod location;
pub mod render;
pub mod scripting;
pub mod seqs;
pub mod text;
pub mod typescape;

verus! {
} // verus!
