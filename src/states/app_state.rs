use vstd::prelude::*;

use crate::states::options_state::OptionsState;

verus! {

/// The top-level screens of the application.
#[derive(Clone, Copy, Debug, PartialEq, Eq, Hash, Structural)]
pub enum AppState {
    Splash,
    Title,
    Options,
    Credits,
    LoadSave,
    Game,
    Fail,
}

impl Default for AppState {
    fn default() -> (r: AppState)
        ensures
            r == AppState::Splash,
    {
        AppState::Splash
    }
}

/// The successors that the default allow-list grants to each application state.
pub open spec fn app_state_successors(from: AppState) -> Seq<AppState> {
    match from {
        AppState::Splash => seq![AppState::Title],
        AppState::Title => seq![AppState::Options, AppState::Credits, AppState::LoadSave],
        AppState::Options => seq![AppState::Title],
        AppState::Credits => seq![AppState::Title],
        AppState::LoadSave => seq![AppState::Title, AppState::Game],
        AppState::Game => seq![AppState::Fail, AppState::Title],
        AppState::Fail => seq![AppState::Game, AppState::Title],
    }
}

/// For each application state, the states that a change request may lead to.
pub struct AppStateAllowedChanges {
    pub splash: Vec<AppState>,
    pub title: Vec<AppState>,
    pub options: Vec<AppState>,
    pub credits: Vec<AppState>,
    pub loadsave: Vec<AppState>,
    pub game: Vec<AppState>,
    pub fail: Vec<AppState>,
}

impl AppStateAllowedChanges {
    /// The allow-list of `from`.
    pub open spec fn successors(&self, from: AppState) -> Seq<AppState> {
        match from {
            AppState::Splash => self.splash@,
            AppState::Title => self.title@,
            AppState::Options => self.options@,
            AppState::Credits => self.credits@,
            AppState::LoadSave => self.loadsave@,
            AppState::Game => self.game@,
            AppState::Fail => self.fail@,
        }
    }

    pub open spec fn permits(&self, from: AppState, to: AppState) -> bool {
        self.successors(from).contains(to)
    }

    pub fn list_for(&self, from: AppState) -> (r: &Vec<AppState>)
        ensures
            r@ == self.successors(from),
    {
        match from {
            AppState::Splash => &self.splash,
            AppState::Title => &self.title,
            AppState::Options => &self.options,
            AppState::Credits => &self.credits,
            AppState::LoadSave => &self.loadsave,
            AppState::Game => &self.game,
            AppState::Fail => &self.fail,
        }
    }

    /// Whether the allow-list of `from` holds `to`.
    pub fn allows(&self, from: AppState, to: AppState) -> (r: bool)
        ensures
            r == self.permits(from, to),
    {
        let list = self.list_for(from);
        let mut i: usize = 0;
        while i < list.len()
            invariant
                i <= list@.len(),
                list@ == self.successors(from),
                forall|j: int| 0 <= j < i ==> list@[j] != to,
            decreases list.len() - i,
        {
            if list[i] == to {
                return true;
            }
            i = i + 1;
        }
        false
    }
}

impl Default for AppStateAllowedChanges {
    fn default() -> (r: AppStateAllowedChanges)
        ensures
            forall|s: AppState| #[trigger] r.successors(s) == app_state_successors(s),
    {
        let r = AppStateAllowedChanges {
            splash: vec![AppState::Title],
            title: vec![AppState::Options, AppState::Credits, AppState::LoadSave],
            options: vec![AppState::Title],
            credits: vec![AppState::Title],
            loadsave: vec![AppState::Title, AppState::Game],
            game: vec![AppState::Fail, AppState::Title],
            fail: vec![AppState::Game, AppState::Title],
        };
        assert(r.splash@ =~= app_state_successors(AppState::Splash));
        assert(r.title@ =~= app_state_successors(AppState::Title));
        assert(r.options@ =~= app_state_successors(AppState::Options));
        assert(r.credits@ =~= app_state_successors(AppState::Credits));
        assert(r.loadsave@ =~= app_state_successors(AppState::LoadSave));
        assert(r.game@ =~= app_state_successors(AppState::Game));
        assert(r.fail@ =~= app_state_successors(AppState::Fail));
        r
    }
}

/// A request to change the application state.
#[derive(Clone, Copy, Debug, PartialEq, Eq, Hash, Structural)]
pub struct EditAppState {
    pub desired_app_state: AppState,
}

/// The pending application state after `edits` are read in order while the
/// current state is `current`: each request that the allow-list permits
/// replaces the pending state, the others are dropped.
pub open spec fn app_state_requested(
    allowed: AppStateAllowedChanges,
    current: AppState,
    edits: Seq<EditAppState>,
    pending: Option<AppState>,
) -> Option<AppState>
    decreases edits.len(),
{
    if edits.len() == 0 {
        pending
    } else {
        let earlier = app_state_requested(allowed, current, edits.drop_last(), pending);
        let desired = edits.last().desired_app_state;
        if allowed.permits(current, desired) {
            Some(desired)
        } else {
            earlier
        }
    }
}

/// The pending options state after the same requests: an accepted request
/// to enter the options screen opens its menu.
pub open spec fn options_menu_requested(
    allowed: AppStateAllowedChanges,
    current: AppState,
    edits: Seq<EditAppState>,
    pending: Option<OptionsState>,
) -> Option<OptionsState>
    decreases edits.len(),
{
    if edits.len() == 0 {
        pending
    } else {
        let earlier = options_menu_requested(allowed, current, edits.drop_last(), pending);
        let desired = edits.last().desired_app_state;
        if allowed.permits(current, desired) && desired == AppState::Options {
            Some(OptionsState::Menu)
        } else {
            earlier
        }
    }
}

/// Applies the change requests of one step to the pending application
/// state; entering the options screen also opens the options menu.
pub fn handle_edit_app_state(
    current_app_state: AppState,
    allowed_changes: &AppStateAllowedChanges,
    next_app_state: &mut Option<AppState>,
    edits: &Vec<EditAppState>,
    next_options_state: &mut Option<OptionsState>,
)
    ensures
        *final(next_app_state) == app_state_requested(
            *allowed_changes,
            current_app_state,
            edits@,
            *old(next_app_state),
        ),
        *final(next_options_state) == options_menu_requested(
            *allowed_changes,
            current_app_state,
            edits@,
            *old(next_options_state),
        ),
{
    let ghost start_app = *next_app_state;
    let ghost start_options = *next_options_state;
    let mut i: usize = 0;
    while i < edits.len()
        invariant
            i <= edits@.len(),
            *next_app_state == app_state_requested(
                *allowed_changes,
                current_app_state,
                edits@.subrange(0, i as int),
                start_app,
            ),
            *next_options_state == options_menu_requested(
                *allowed_changes,
                current_app_state,
                edits@.subrange(0, i as int),
                start_options,
            ),
        decreases edits.len() - i,
    {
        let desired = edits[i].desired_app_state;
        assert(edits@.subrange(0, i + 1).drop_last() =~= edits@.subrange(0, i as int));
        if allowed_changes.allows(current_app_state, desired) {
            if desired == AppState::Options {
                *next_options_state = Some(OptionsState::Menu);
            }
            *next_app_state = Some(desired);
        }
        i = i + 1;
    }
    assert(edits@.subrange(0, edits@.len() as int) =~= edits@);
}

/// A change request from `current` to `desired` is applied exactly when the
/// allow-list of `current` holds `desired`; otherwise it is dropped and the
/// pending state stays as it was.
pub proof fn lemma_app_transition_iff_allowed(
    allowed: AppStateAllowedChanges,
    current: AppState,
    desired: AppState,
    pending: Option<AppState>,
)
    ensures
        app_state_requested(
            allowed,
            current,
            seq![EditAppState { desired_app_state: desired }],
            pending,
        ) == (if allowed.permits(current, desired) {
            Some(desired)
        } else {
            pending
        }),
{
    let edits = seq![EditAppState { desired_app_state: desired }];
    assert(edits.drop_last() =~= Seq::<EditAppState>::empty());
    assert(edits.last() == edits[0]);
    assert(app_state_requested(allowed, current, Seq::<EditAppState>::empty(), pending) == pending);
}

} // verus!
