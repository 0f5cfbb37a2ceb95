use vstd::prelude::*;

use crate::states::app_state::AppState;
use crate::states::options_state::OptionsState;
use crate::states::profile_state::ProfileState;
use crate::ui::credits::CreditsElement;
use crate::ui::gameover::GameoverElement;
use crate::ui::loadsave::LoadSaveElement;
use crate::ui::options_audio::AudioOptionsElement;
use crate::ui::options_controls::ControlsOptionsElement;
use crate::ui::options_general::GeneralOptionsElement;
use crate::ui::options_menu::OptionsMenuElement;
use crate::ui::options_video::VideoOptionsElement;
use crate::ui::title::TitleElement;

verus! {

/// Identifies a button of some screen; `Null` stands for no button.
#[derive(Clone, Copy, Debug, PartialEq, Eq, Hash, Structural)]
pub enum UiElement {
    Null,
    Title(TitleElement),
    LoadSave(LoadSaveElement),
    Gameover(GameoverElement),
    Credits(CreditsElement),
    OptionsMenu(OptionsMenuElement),
    GeneralOptions(GeneralOptionsElement),
    ControlsOptions(ControlsOptionsElement),
    AudioOptions(AudioOptionsElement),
    VideoOptions(VideoOptionsElement),
}

/// The button that each screen focuses when it is shown.
#[derive(Clone, Copy, Debug, PartialEq, Eq, Hash, Structural)]
pub struct InitialUiFocus {
    pub title: TitleElement,
    pub loadsave: LoadSaveElement,
    pub credits: CreditsElement,
    pub gameover: GameoverElement,
    pub options_menu: OptionsMenuElement,
    pub general_options: GeneralOptionsElement,
    pub controls_options: ControlsOptionsElement,
    pub audio_options: AudioOptionsElement,
    pub video_options: VideoOptionsElement,
}

impl Default for InitialUiFocus {
    fn default() -> (r: InitialUiFocus)
        ensures
            r == (InitialUiFocus {
                title: TitleElement::Play,
                loadsave: LoadSaveElement::Profile1,
                credits: CreditsElement::Back,
                gameover: GameoverElement::Game,
                options_menu: OptionsMenuElement::General,
                general_options: GeneralOptionsElement::Back,
                controls_options: ControlsOptionsElement::Back,
                audio_options: AudioOptionsElement::Back,
                video_options: VideoOptionsElement::Back,
            }),
    {
        InitialUiFocus {
            title: TitleElement::Play,
            loadsave: LoadSaveElement::Profile1,
            credits: CreditsElement::Back,
            gameover: GameoverElement::Game,
            options_menu: OptionsMenuElement::General,
            general_options: GeneralOptionsElement::Back,
            controls_options: ControlsOptionsElement::Back,
            audio_options: AudioOptionsElement::Back,
            video_options: VideoOptionsElement::Back,
        }
    }
}

/// The state changes, profile switch and exit that selecting a button asks for.
#[derive(Clone, Copy, Debug, PartialEq, Eq, Hash, Structural)]
pub struct UiRequests {
    pub app_state: Option<AppState>,
    pub options_state: Option<OptionsState>,
    pub profile_state: Option<ProfileState>,
    pub exit: bool,
}

/// What a select input did on a screen: nothing (no input, or no focused
/// button), the requests of the focused button, or nothing but an error
/// because the focused button belongs to another screen.
#[derive(Clone, Copy, Debug, PartialEq, Eq, Hash, Structural)]
pub enum UiSelection {
    Idle,
    Requests(UiRequests),
    Unexpected(UiNavigation),
}

pub open spec fn requests(
    app_state: Option<AppState>,
    options_state: Option<OptionsState>,
    profile_state: Option<ProfileState>,
    exit: bool,
) -> UiSelection {
    UiSelection::Requests(UiRequests { app_state, options_state, profile_state, exit })
}

/// Whether a button holds the input focus.
#[derive(Clone, Copy, Debug, PartialEq, Eq, Hash, Structural)]
pub struct UiFocusable {
    pub is_focused: bool,
}

/// A button's identity and its neighbours in each direction.
#[derive(Clone, Copy, Debug, PartialEq, Eq, Hash, Structural)]
pub struct UiNavigation {
    pub self_id: UiElement,
    pub up: UiElement,
    pub down: UiElement,
    pub left: UiElement,
    pub right: UiElement,
}

/// A button on screen: where it leads and whether it is focused.
#[derive(Clone, Copy, Debug, PartialEq, Eq, Hash, Structural)]
pub struct UiNode {
    pub navigation: UiNavigation,
    pub focusable: UiFocusable,
}

/// A direction of movement between buttons.
#[derive(Clone, Copy, Debug, PartialEq, Eq, Hash, Structural)]
pub enum NavDirection {
    Up,
    Down,
    Left,
    Right,
}

impl UiNavigation {
    pub open spec fn spec_neighbor(&self, direction: NavDirection) -> UiElement {
        match direction {
            NavDirection::Up => self.up,
            NavDirection::Down => self.down,
            NavDirection::Left => self.left,
            NavDirection::Right => self.right,
        }
    }

    /// The neighbour in `direction`.
    #[verifier::when_used_as_spec(spec_neighbor)]
    pub fn neighbor(&self, direction: NavDirection) -> (r: UiElement)
        ensures
            r == self.spec_neighbor(direction),
    {
        match direction {
            NavDirection::Up => self.up,
            NavDirection::Down => self.down,
            NavDirection::Left => self.left,
            NavDirection::Right => self.right,
        }
    }
}

/// How far, in thousandths, a stick or pad must be pushed along an axis
/// before it counts as a move.
pub const NAV_THRESHOLD: i32 = 850;

/// The direction of a move input whose axes are given in thousandths of
/// full deflection; vertical moves win over horizontal ones.
pub open spec fn spec_direction_from_axis(x: i32, y: i32) -> Option<NavDirection> {
    if y > NAV_THRESHOLD {
        Some(NavDirection::Up)
    } else if y < -NAV_THRESHOLD {
        Some(NavDirection::Down)
    } else if x < -NAV_THRESHOLD {
        Some(NavDirection::Left)
    } else if x > NAV_THRESHOLD {
        Some(NavDirection::Right)
    } else {
        None
    }
}

pub fn direction_from_axis(x: i32, y: i32) -> (r: Option<NavDirection>)
    ensures
        r == spec_direction_from_axis(x, y),
{
    if y > NAV_THRESHOLD {
        Some(NavDirection::Up)
    } else if y < -NAV_THRESHOLD {
        Some(NavDirection::Down)
    } else if x < -NAV_THRESHOLD {
        Some(NavDirection::Left)
    } else if x > NAV_THRESHOLD {
        Some(NavDirection::Right)
    } else {
        None
    }
}

/// `i` is the first focused button of `nodes`.
pub open spec fn is_first_focused(nodes: Seq<UiNode>, i: int) -> bool {
    &&& 0 <= i < nodes.len()
    &&& nodes[i].focusable.is_focused
    &&& forall|j: int| 0 <= j < i ==> !(#[trigger] nodes[j]).focusable.is_focused
}

/// `i` is the first button of `nodes` that carries `id`.
pub open spec fn is_first_with_id(nodes: Seq<UiNode>, id: UiElement, i: int) -> bool {
    &&& 0 <= i < nodes.len()
    &&& nodes[i].navigation.self_id == id
    &&& forall|j: int| 0 <= j < i ==> (#[trigger] nodes[j]).navigation.self_id != id
}

pub open spec fn has_focus(nodes: Seq<UiNode>) -> bool {
    exists|i: int| is_first_focused(nodes, i)
}

pub open spec fn first_focused(nodes: Seq<UiNode>) -> int {
    choose|i: int| is_first_focused(nodes, i)
}

pub open spec fn first_with_id(nodes: Seq<UiNode>, id: UiElement) -> int {
    choose|i: int| is_first_with_id(nodes, id, i)
}

/// The navigation record of the focused button, if any button is focused.
pub open spec fn focused_of(nodes: Seq<UiNode>) -> Option<UiNavigation> {
    if has_focus(nodes) {
        Some(nodes[first_focused(nodes)].navigation)
    } else {
        None
    }
}

/// The button that a move in `direction` leads to from the focused one;
/// `Null` when nothing is focused, there is no move, or the focused button
/// has no neighbour that way.
pub open spec fn focus_target(nodes: Seq<UiNode>, direction: Option<NavDirection>) -> UiElement {
    match (focused_of(nodes), direction) {
        (Some(navigation), Some(d)) => navigation.spec_neighbor(d),
        _ => UiElement::Null,
    }
}

pub open spec fn with_focus(node: UiNode, is_focused: bool) -> UiNode {
    UiNode { navigation: node.navigation, focusable: UiFocusable { is_focused } }
}

/// The buttons after a move in `direction`: when the move leads to a button
/// of the screen, the focused button loses focus and the first button
/// carrying the target gains it, in one step; otherwise nothing changes.
pub open spec fn navigated(nodes: Seq<UiNode>, direction: Option<NavDirection>) -> Seq<UiNode> {
    let target = focus_target(nodes, direction);
    if target != UiElement::Null && exists|i: int| is_first_with_id(nodes, target, i) {
        let from = first_focused(nodes);
        let to = first_with_id(nodes, target);
        nodes.update(from, with_focus(nodes[from], false)).update(to, with_focus(nodes[to], true))
    } else {
        nodes
    }
}

/// Finds the first focused button.
pub fn find_focused(nodes: &Vec<UiNode>) -> (r: Option<usize>)
    ensures
        match r {
            Some(i) => is_first_focused(nodes@, i as int),
            None => !has_focus(nodes@),
        },
{
    let mut i: usize = 0;
    while i < nodes.len()
        invariant
            i <= nodes@.len(),
            forall|j: int| 0 <= j < i ==> !(#[trigger] nodes@[j]).focusable.is_focused,
        decreases nodes.len() - i,
    {
        if nodes[i].focusable.is_focused {
            return Some(i);
        }
        i = i + 1;
    }
    assert forall|k: int| !is_first_focused(nodes@, k) by {
        if 0 <= k < nodes@.len() {
            assert(!nodes@[k].focusable.is_focused);
        }
    }
    None
}

/// Finds the first button that carries `id`.
pub fn find_element(nodes: &Vec<UiNode>, id: UiElement) -> (r: Option<usize>)
    ensures
        match r {
            Some(i) => is_first_with_id(nodes@, id, i as int),
            None => !(exists|i: int| is_first_with_id(nodes@, id, i)),
        },
{
    let mut i: usize = 0;
    while i < nodes.len()
        invariant
            i <= nodes@.len(),
            forall|j: int| 0 <= j < i ==> (#[trigger] nodes@[j]).navigation.self_id != id,
        decreases nodes.len() - i,
    {
        if nodes[i].navigation.self_id == id {
            return Some(i);
        }
        i = i + 1;
    }
    assert forall|k: int| !is_first_with_id(nodes@, id, k) by {
        if 0 <= k < nodes@.len() {
            assert(nodes@[k].navigation.self_id != id);
        }
    }
    None
}

/// The first focused button is the one that `first_focused` names.
pub proof fn lemma_first_focused_unique(nodes: Seq<UiNode>, i: int)
    requires
        is_first_focused(nodes, i),
    ensures
        has_focus(nodes),
        first_focused(nodes) == i,
{
    let k = first_focused(nodes);
    assert(is_first_focused(nodes, k));
    if k < i {
        assert(!nodes[k].focusable.is_focused);
    } else if i < k {
        assert(!nodes[i].focusable.is_focused);
    }
}

/// The first button carrying `id` is the one that `first_with_id` names.
pub proof fn lemma_first_with_id_unique(nodes: Seq<UiNode>, id: UiElement, i: int)
    requires
        is_first_with_id(nodes, id, i),
    ensures
        first_with_id(nodes, id) == i,
{
    let k = first_with_id(nodes, id);
    assert(is_first_with_id(nodes, id, k));
    if k < i {
        assert(nodes[k].navigation.self_id != id);
    } else if i < k {
        assert(nodes[i].navigation.self_id != id);
    }
}

/// The navigation record of the focused button, if any.
pub fn focused_navigation(nodes: &Vec<UiNode>) -> (r: Option<UiNavigation>)
    ensures
        r == focused_of(nodes@),
{
    match find_focused(nodes) {
        Some(i) => {
            proof {
                lemma_first_focused_unique(nodes@, i as int);
            }
            Some(nodes[i].navigation)
        },
        None => None,
    }
}

/// On a fresh move input, moves the focus from the focused button to its
/// neighbour in the move's direction, if it has one on the screen; a single
/// focused button stays single.
pub fn handle_ui_navigation(
    move_just_pressed: bool,
    direction: Option<NavDirection>,
    nodes: &mut Vec<UiNode>,
)
    ensures
        final(nodes)@ == (if move_just_pressed {
            navigated(old(nodes)@, direction)
        } else {
            old(nodes)@
        }),
        single_focus(old(nodes)@) ==> single_focus(final(nodes)@),
{
    if !move_just_pressed {
        return;
    }
    let ghost start = nodes@;
    match find_focused(nodes) {
        Some(from) => {
            proof {
                lemma_first_focused_unique(start, from as int);
            }
            let next_ui_element = match direction {
                Some(d) => nodes[from].navigation.neighbor(d),
                None => UiElement::Null,
            };
            assert(next_ui_element == focus_target(start, direction));
            if next_ui_element != UiElement::Null {
                match find_element(nodes, next_ui_element) {
                    Some(to) => {
                        proof {
                            lemma_first_with_id_unique(start, next_ui_element, to as int);
                        }
                        let node = nodes[from];
                        nodes.set(
                            from,
                            UiNode {
                                navigation: node.navigation,
                                focusable: UiFocusable { is_focused: false },
                            },
                        );
                        let node = nodes[to];
                        nodes.set(
                            to,
                            UiNode {
                                navigation: node.navigation,
                                focusable: UiFocusable { is_focused: true },
                            },
                        );
                        assert(nodes@ =~= start.update(
                            from as int,
                            with_focus(start[from as int], false),
                        ).update(to as int, with_focus(start[to as int], true)));
                    },
                    None => {},
                }
            }
        },
        None => {
            assert(focus_target(start, direction) == UiElement::Null);
        },
    }
    proof {
        if single_focus(start) {
            lemma_navigation_keeps_single_focus(start, direction);
        }
    }
}

/// Exactly one button is focused.
pub open spec fn single_focus(nodes: Seq<UiNode>) -> bool {
    exists|i: int|
        0 <= i < nodes.len() && nodes[i].focusable.is_focused && forall|j: int|
            0 <= j < nodes.len() && j != i ==> !(#[trigger] nodes[j]).focusable.is_focused
}

/// A screen's buttons carry distinct ids, none of them `Null`, and every
/// neighbour that is not `Null` is a button of the same screen.
#[verifier::opaque]
pub open spec fn well_formed_screen(nodes: Seq<UiNode>) -> bool {
    &&& forall|i: int, j: int|
        0 <= i < nodes.len() && 0 <= j < nodes.len() && i != j ==> (#[trigger] nodes[i]).navigation.self_id
            != (#[trigger] nodes[j]).navigation.self_id
    &&& forall|i: int| 0 <= i < nodes.len() ==> (#[trigger] nodes[i]).navigation.self_id != UiElement::Null
    &&& forall|i: int, d: NavDirection|
        0 <= i < nodes.len() && (#[trigger] nodes[i].navigation.spec_neighbor(d)) != UiElement::Null
            ==> exists|j: int|
            0 <= j < nodes.len() && (#[trigger] nodes[j]).navigation.self_id
                == nodes[i].navigation.spec_neighbor(d)
}

/// With exactly one focused button, a move never leaves the buttons without
/// focus nor with two focused; the buttons' navigation records stay as they
/// were, so a well-formed screen stays well-formed.
pub proof fn lemma_navigation_keeps_single_focus(
    nodes: Seq<UiNode>,
    direction: Option<NavDirection>,
)
    requires
        single_focus(nodes),
    ensures
        single_focus(navigated(nodes, direction)),
        well_formed_screen(nodes) ==> well_formed_screen(navigated(nodes, direction)),
        navigated(nodes, direction).len() == nodes.len(),
        forall|k: int|
            0 <= k < nodes.len() ==> (#[trigger] navigated(nodes, direction)[k]).navigation
                == nodes[k].navigation,
{
    let f = choose|i: int|
        0 <= i < nodes.len() && nodes[i].focusable.is_focused && forall|j: int|
            0 <= j < nodes.len() && j != i ==> !(#[trigger] nodes[j]).focusable.is_focused;
    assert(is_first_focused(nodes, f)) by {
        assert forall|j: int| 0 <= j < f implies !(#[trigger] nodes[j]).focusable.is_focused by {
            assert(j != f);
        }
    }
    lemma_first_focused_unique(nodes, f);
    let target = focus_target(nodes, direction);
    if target != UiElement::Null && exists|i: int| is_first_with_id(nodes, target, i) {
        let j = first_with_id(nodes, target);
        assert(is_first_with_id(nodes, target, j));
        let result = nodes.update(f, with_focus(nodes[f], false)).update(j, with_focus(nodes[j], true));
        assert(navigated(nodes, direction) == result);
        assert forall|k: int| 0 <= k < result.len() && k != j implies !(#[trigger] result[k]).focusable.is_focused by {
            if k != f {
                assert(!nodes[k].focusable.is_focused);
            }
        }
        assert(result[j].focusable.is_focused);
    }
    let result = navigated(nodes, direction);
    assert(forall|k: int| 0 <= k < nodes.len() ==> (#[trigger] result[k]).navigation == nodes[k].navigation);
    if well_formed_screen(nodes) {
        assert(well_formed_screen(result)) by {
            reveal(well_formed_screen);
            assert forall|i: int, d: NavDirection|
                0 <= i < result.len() && (#[trigger] result[i].navigation.spec_neighbor(d))
                    != UiElement::Null implies exists|j: int|
                0 <= j < result.len() && (#[trigger] result[j]).navigation.self_id
                    == result[i].navigation.spec_neighbor(d) by {
                assert(nodes[i].navigation.spec_neighbor(d) != UiElement::Null);
                let j = choose|j: int|
                    0 <= j < nodes.len() && (#[trigger] nodes[j]).navigation.self_id
                        == nodes[i].navigation.spec_neighbor(d);
                assert(result[j].navigation.self_id == result[i].navigation.spec_neighbor(d));
            }
        }
    }
}

pub open spec fn nav(
    self_id: UiElement,
    up: UiElement,
    down: UiElement,
    left: UiElement,
    right: UiElement,
) -> UiNavigation {
    UiNavigation { self_id, up, down, left, right }
}

/// The buttons of a screen in spawn order, the one at `focus` focused.
pub open spec fn screen_nodes(navigations: Seq<UiNavigation>, focus: int) -> Seq<UiNode> {
    Seq::new(
        navigations.len(),
        |i: int| UiNode { navigation: navigations[i], focusable: UiFocusable { is_focused: i == focus } },
    )
}

pub proof fn lemma_screen_nodes_single_focus(navigations: Seq<UiNavigation>, focus: int)
    requires
        0 <= focus < navigations.len(),
    ensures
        single_focus(screen_nodes(navigations, focus)),
{
    let nodes = screen_nodes(navigations, focus);
    assert(nodes[focus].focusable.is_focused);
    assert(forall|j: int| 0 <= j < nodes.len() && j != focus ==> !(#[trigger] nodes[j]).focusable.is_focused);
}

/// The focused button that a select input acts on, if any.
pub open spec fn selected(select_just_pressed: bool, nodes: Seq<UiNode>) -> Option<UiNavigation> {
    if select_just_pressed {
        focused_of(nodes)
    } else {
        None
    }
}

} // verus!
