//! Application-level state enums and the guards that decide their changes.
use vstd::prelude::*;

pub mod app_state;
pub mod options_state;
pub mod game_state;
pub mod data_state;
pub mod profile_state;

verus! {

} // verus!
