//! The host platforms that engine builds exist for.

use vstd::prelude::*;

verus! {

/// The operating system that the engine runs on.
#[derive(Debug, Clone, Copy, PartialEq, Eq, Structural)]
pub enum Platform {
    Windows,
    Linux,
}

} // verus!
