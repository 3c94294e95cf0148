//! Commands into the hotkey monitor thread.
//!
//! The monitor itself reads input devices and lives outside this crate;
//! it resolves one of the two backends at startup and reports it on the
//! unified command stream, from which the coordinator derives the
//! buffering policy.

use vstd::prelude::*;

verus! {

/// Commands the coordinator sends to the hotkey monitor.
#[derive(Debug)]
pub enum HotkeyCommand {
    ReloadConfig,
}

} // verus!
