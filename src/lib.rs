//! Verified rules of a menu-driven game shell: state transition guards,
//! focus navigation over static screen graphs, window and camera settings.
use vstd::prelude::*;

pub mod config;
pub mod game;
pub mod states;
pub mod ui;

verus! {

} // verus!
