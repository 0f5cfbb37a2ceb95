//! Window, display and input configuration.
use vstd::prelude::*;

pub mod controls;
pub mod windows;

verus! {

} // verus!
