//! The logic of a small QEMU front end: the virtual machine's
//! configuration and its named options, the QEMU command line it stands
//! for, the checks before a launch, the bounded activity log, the
//! "create disk image" dialog and the reactions to the emulator's start,
//! exit and kill. Every function here is verified, except the four calls
//! into the standard library in `host`, whose contracts are trusted; the
//! window and the processes live in the program around it.
use vstd::prelude::*;

pub mod text;
pub mod options;
pub mod config;
pub mod cmdline;
pub mod log;
pub mod host;
pub mod gui;
pub mod presets;

verus! {

} // verus!
