use vstd::prelude::*;

use crate::states::app_state::AppState;
use crate::ui::ui_manager::{
    focused_navigation, lemma_screen_nodes_single_focus, nav, requests, screen_nodes, selected,
    single_focus, well_formed_screen, InitialUiFocus, UiElement, UiFocusable, UiNavigation, UiNode,
    UiRequests, UiSelection,
};

verus! {

/// The buttons of the game-over screen.
#[derive(Clone, Copy, Debug, PartialEq, Eq, Hash, Structural)]
pub enum GameoverElement {
    Game,
    Title,
}

/// The navigation records of the game-over screen's buttons, in spawn order.
pub open spec fn gameover_navigation() -> Seq<UiNavigation> {
    seq![
        nav(
            UiElement::Gameover(GameoverElement::Game),
            UiElement::Gameover(GameoverElement::Title),
            UiElement::Gameover(GameoverElement::Title),
            UiElement::Null,
            UiElement::Null,
        ),
        nav(
            UiElement::Gameover(GameoverElement::Title),
            UiElement::Gameover(GameoverElement::Game),
            UiElement::Gameover(GameoverElement::Game),
            UiElement::Null,
            UiElement::Null,
        ),
    ]
}

/// The spawn position of each button.
pub open spec fn gameover_position(element: GameoverElement) -> int {
    match element {
        GameoverElement::Game => 0,
        GameoverElement::Title => 1,
    }
}

/// The buttons of the game-over screen, the remembered one focused.
pub fn spawn_gameover(initial_focus: &InitialUiFocus) -> (r: Vec<UiNode>)
    ensures
        r@ == screen_nodes(gameover_navigation(), gameover_position(initial_focus.gameover)),
        well_formed_screen(r@),
        single_focus(r@),
{
    let focus: usize = match initial_focus.gameover {
        GameoverElement::Game => 0,
        GameoverElement::Title => 1,
    };
    let r = vec![
        UiNode {
            navigation: UiNavigation {
                self_id: UiElement::Gameover(GameoverElement::Game),
                up: UiElement::Gameover(GameoverElement::Title),
                down: UiElement::Gameover(GameoverElement::Title),
                left: UiElement::Null,
                right: UiElement::Null,
            },
            focusable: UiFocusable { is_focused: focus == 0 },
        },
        UiNode {
            navigation: UiNavigation {
                self_id: UiElement::Gameover(GameoverElement::Title),
                up: UiElement::Gameover(GameoverElement::Game),
                down: UiElement::Gameover(GameoverElement::Game),
                left: UiElement::Null,
                right: UiElement::Null,
            },
            focusable: UiFocusable { is_focused: focus == 1 },
        },
    ];
    proof {
        assert(r@ =~= screen_nodes(gameover_navigation(), focus as int));
        lemma_screen_nodes_single_focus(gameover_navigation(), focus as int);
        reveal(well_formed_screen);
    }
    r
}

/// What selecting the button `navigation` does on the game-over screen, and the
/// button the screen will focus when it is next shown.
pub open spec fn gameover_selected(navigation: UiNavigation, initial: InitialUiFocus) -> (
    UiSelection,
    InitialUiFocus,
) {
    match navigation.self_id {
        UiElement::Gameover(GameoverElement::Game) => (
            requests(Some(AppState::Game), None, None, false),
            InitialUiFocus { gameover: GameoverElement::Game, ..initial },
        ),
        UiElement::Gameover(GameoverElement::Title) => (
            requests(Some(AppState::Title), None, None, false),
            InitialUiFocus { gameover: GameoverElement::Game, ..initial },
        ),
        _ => (UiSelection::Unexpected(navigation), initial),
    }
}

/// On a fresh select input, carries out the focused button of the game-over screen.
pub fn handle_ui_selection(
    select_just_pressed: bool,
    nodes: &Vec<UiNode>,
    initial_focus: &mut InitialUiFocus,
) -> (r: UiSelection)
    ensures
        (r, *final(initial_focus)) == (match selected(select_just_pressed, nodes@) {
            Some(navigation) => gameover_selected(navigation, *old(initial_focus)),
            None => (UiSelection::Idle, *old(initial_focus)),
        }),
{
    if !select_just_pressed {
        return UiSelection::Idle;
    }
    match focused_navigation(nodes) {
        None => UiSelection::Idle,
        Some(navigation) => match navigation.self_id {
            UiElement::Gameover(element) => match element {
                GameoverElement::Game => {
                    initial_focus.gameover = GameoverElement::Game;
                    UiSelection::Requests(UiRequests {
                        app_state: Some(AppState::Game),
                        options_state: None,
                        profile_state: None,
                        exit: false,
                    })
                },
                GameoverElement::Title => {
                    initial_focus.gameover = GameoverElement::Game;
                    UiSelection::Requests(UiRequests {
                        app_state: Some(AppState::Title),
                        options_state: None,
                        profile_state: None,
                        exit: false,
                    })
                },
            },
            _ => UiSelection::Unexpected(navigation),
        },
    }
}

} // verus!
