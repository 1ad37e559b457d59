//! Startup configuration of a webview desktop shell.
//!
//! The library decides, and proves, what the shell does before it hands control
//! to the application framework: the browser flags it writes into the process
//! environment, the capabilities it registers and in which order, and when the
//! run loop may be entered. Performing those steps is left to the caller.
use vstd::prelude::*;

pub mod arguments;
pub mod startup;

verus! {

} // verus!
