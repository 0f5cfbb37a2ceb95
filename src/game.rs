//! The in-game camera rig.
use vstd::prelude::*;

pub mod cameras;

verus! {

} // verus!
