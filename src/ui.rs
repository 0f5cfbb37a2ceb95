//! Screens made of focusable buttons, their navigation graphs and what
//! selecting each button asks for.
use vstd::prelude::*;

pub mod ui_manager;
pub mod splash;
pub mod title;
pub mod loadsave;
pub mod credits;
pub mod gameover;
pub mod options_menu;
pub mod options_general;
pub mod options_controls;
pub mod options_audio;
pub mod options_video;

verus! {

} // verus!
