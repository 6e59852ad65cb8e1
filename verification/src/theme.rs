//! The system colour theme. Reading it from the operating system and
//! watching it for changes are the UI layer's business; the library only
//! carries the value, which icon styles that follow the system theme
//! consult.

use vstd::prelude::*;

verus! {

/// The system-wide light or dark theme.
#[derive(Debug, Clone, Copy, PartialEq, Eq, Structural)]
pub enum SystemTheme {
    Light,
    Dark,
}

} // verus!
