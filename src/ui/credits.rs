use vstd::prelude::*;

use crate::states::app_state::AppState;
use crate::ui::ui_manager::{
    focused_navigation, lemma_screen_nodes_single_focus, nav, requests, screen_nodes, selected,
    single_focus, well_formed_screen, InitialUiFocus, UiElement, UiFocusable, UiNavigation, UiNode,
    UiRequests, UiSelection,
};

verus! {

/// The buttons of the credits screen.
#[derive(Clone, Copy, Debug, PartialEq, Eq, Hash, Structural)]
pub enum CreditsElement {
    Back,
}

/// The navigation records of the credits screen's buttons, in spawn order.
pub open spec fn credits_navigation() -> Seq<UiNavigation> {
    seq![
        nav(
            UiElement::Credits(CreditsElement::Back),
            UiElement::Null,
            UiElement::Null,
            UiElement::Null,
            UiElement::Null,
        ),
    ]
}

/// The spawn position of each button.
pub open spec fn credits_position(element: CreditsElement) -> int {
    match element {
        CreditsElement::Back => 0,
    }
}

/// The buttons of the credits screen, the remembered one focused.
pub fn spawn_credits(initial_focus: &InitialUiFocus) -> (r: Vec<UiNode>)
    ensures
        r@ == screen_nodes(credits_navigation(), credits_position(initial_focus.credits)),
        well_formed_screen(r@),
        single_focus(r@),
{
    let focus: usize = match initial_focus.credits {
        CreditsElement::Back => 0,
    };
    let r = vec![
        UiNode {
            navigation: UiNavigation {
                self_id: UiElement::Credits(CreditsElement::Back),
                up: UiElement::Null,
                down: UiElement::Null,
                left: UiElement::Null,
                right: UiElement::Null,
            },
            focusable: UiFocusable { is_focused: focus == 0 },
        },
    ];
    proof {
        assert(r@ =~= screen_nodes(credits_navigation(), focus as int));
        lemma_screen_nodes_single_focus(credits_navigation(), focus as int);
        reveal(well_formed_screen);
    }
    r
}

/// What selecting the button `navigation` does on the credits screen, and the
/// button the screen will focus when it is next shown.
pub open spec fn credits_selected(navigation: UiNavigation, initial: InitialUiFocus) -> (
    UiSelection,
    InitialUiFocus,
) {
    match navigation.self_id {
        UiElement::Credits(CreditsElement::Back) => (
            requests(Some(AppState::Title), None, None, false),
            InitialUiFocus { credits: CreditsElement::Back, ..initial },
        ),
        _ => (UiSelection::Unexpected(navigation), initial),
    }
}

/// On a fresh select input, carries out the focused button of the credits screen.
pub fn handle_ui_selection(
    select_just_pressed: bool,
    nodes: &Vec<UiNode>,
    initial_focus: &mut InitialUiFocus,
) -> (r: UiSelection)
    ensures
        (r, *final(initial_focus)) == (match selected(select_just_pressed, nodes@) {
            Some(navigation) => credits_selected(navigation, *old(initial_focus)),
            None => (UiSelection::Idle, *old(initial_focus)),
        }),
{
    if !select_just_pressed {
        return UiSelection::Idle;
    }
    match focused_navigation(nodes) {
        None => UiSelection::Idle,
        Some(navigation) => match navigation.self_id {
            UiElement::Credits(element) => match element {
                CreditsElement::Back => {
                    initial_focus.credits = CreditsElement::Back;
                    UiSelection::Requests(UiRequests {
                        app_state: Some(AppState::Title),
                        options_state: None,
                        profile_state: None,
                        exit: false,
                    })
                },
            },
            _ => UiSelection::Unexpected(navigation),
        },
    }
}

} // verus!
