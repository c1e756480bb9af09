//! Security policies for fuzzing applications: the rules that decide whether a call to a
//! monitored function breaks a policy, the policies themselves, and the decisions of the
//! runtime that monitors the calls.

pub mod text;
pub mod engine;
pub mod policies;
pub mod laws;
pub mod listener;
pub mod cli;
pub mod random_bytes;
pub mod fuzzer_options;
pub mod regs;
pub mod tauri_utils;
