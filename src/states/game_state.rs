use vstd::prelude::*;

verus! {

/// Whether the game runs or is paused.
#[derive(Clone, Copy, Debug, PartialEq, Eq, Hash, Structural)]
pub enum GameState {
    Playing,
    Paused,
}

impl Default for GameState {
    fn default() -> (r: GameState)
        ensures
            r == GameState::Playing,
    {
        GameState::Playing
    }
}

/// A request to toggle between playing and paused.
#[derive(Clone, Copy, Debug, PartialEq, Eq, Hash, Structural)]
pub struct EditGameState;

pub open spec fn toggled(state: GameState) -> GameState {
    match state {
        GameState::Playing => GameState::Paused,
        GameState::Paused => GameState::Playing,
    }
}

/// The pause key emits one toggle request on the step it is first pressed.
pub fn emit_edit_game_state(space_just_pressed: bool) -> (r: Option<EditGameState>)
    ensures
        r is Some <==> space_just_pressed,
{
    if space_just_pressed {
        Some(EditGameState)
    } else {
        None
    }
}

/// Every toggle request of a step asks for the opposite of the current
/// state, so any number of them leaves that one request pending.
pub fn handle_edit_game_state(
    game_state: GameState,
    next_game_state: &mut Option<GameState>,
    edits: &Vec<EditGameState>,
)
    ensures
        *final(next_game_state) == (if edits@.len() > 0 {
            Some(toggled(game_state))
        } else {
            *old(next_game_state)
        }),
{
    let mut i: usize = 0;
    while i < edits.len()
        invariant
            i <= edits@.len(),
            *next_game_state == (if i > 0 {
                Some(toggled(game_state))
            } else {
                *old(next_game_state)
            }),
        decreases edits.len() - i,
    {
        match game_state {
            GameState::Playing => {
                *next_game_state = Some(GameState::Paused);
            },
            GameState::Paused => {
                *next_game_state = Some(GameState::Playing);
            },
        }
        i = i + 1;
    }
}

} // verus!
