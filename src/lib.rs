//! Emulation of a USB keyboard through a Linux HID gadget.
//!
//! - `keycode`: ASCII bytes to HID usage codes and modifiers.
//! - `report`: the 8-byte input reports and the report descriptor.
//! - `run`: ordered steps that stop at the first failure.
//! - `commands`: the configuration actions that set the gadget up and tear
//!   it down, and the errors they report.
//! - `sender`: typing a string as press/release reports.
use vstd::prelude::*;

pub mod commands;
pub mod keycode;
pub mod report;
pub mod run;
pub mod sender;

verus! {

} // verus!
