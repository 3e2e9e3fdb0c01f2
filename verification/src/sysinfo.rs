//! Collectors of system information: parsers for the text that system
//! files and diagnostic commands hand out.  Reading the files and
//! running the commands is the callers' part; the parsing is verified
//! here.

use vstd::prelude::*;

pub mod application;
pub mod cmdline;
pub mod cpuinfo;
pub mod mount;
pub mod meminfo;
pub mod smart;
pub mod text;

verus! {

} // verus!
