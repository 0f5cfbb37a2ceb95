use vstd::prelude::*;

verus! {

/// The sub-screens of the options screen; `Closed` while options are not shown.
#[derive(Clone, Copy, Debug, PartialEq, Eq, Hash, Structural)]
pub enum OptionsState {
    Closed,
    Menu,
    Controls,
    General,
    Audio,
    Video,
}

impl Default for OptionsState {
    fn default() -> (r: OptionsState)
        ensures
            r == OptionsState::Closed,
    {
        OptionsState::Closed
    }
}

/// The successors that the default allow-list grants to each options state.
pub open spec fn options_state_successors(from: OptionsState) -> Seq<OptionsState> {
    match from {
        OptionsState::Closed => seq![OptionsState::Menu],
        OptionsState::Menu => seq![
            OptionsState::Closed,
            OptionsState::General,
            OptionsState::Controls,
            OptionsState::Audio,
            OptionsState::Video,
        ],
        OptionsState::Controls => seq![OptionsState::Menu],
        OptionsState::General => seq![OptionsState::Menu],
        OptionsState::Audio => seq![OptionsState::Menu],
        OptionsState::Video => seq![OptionsState::Menu],
    }
}

/// For each options state, the states that a change request may lead to.
pub struct OptionsStateAllowedChanges {
    pub closed: Vec<OptionsState>,
    pub menu: Vec<OptionsState>,
    pub controls: Vec<OptionsState>,
    pub general: Vec<OptionsState>,
    pub audio: Vec<OptionsState>,
    pub video: Vec<OptionsState>,
}

impl OptionsStateAllowedChanges {
    /// The allow-list of `from`.
    pub open spec fn successors(&self, from: OptionsState) -> Seq<OptionsState> {
        match from {
            OptionsState::Closed => self.closed@,
            OptionsState::Menu => self.menu@,
            OptionsState::Controls => self.controls@,
            OptionsState::General => self.general@,
            OptionsState::Audio => self.audio@,
            OptionsState::Video => self.video@,
        }
    }

    pub open spec fn permits(&self, from: OptionsState, to: OptionsState) -> bool {
        self.successors(from).contains(to)
    }

    pub fn list_for(&self, from: OptionsState) -> (r: &Vec<OptionsState>)
        ensures
            r@ == self.successors(from),
    {
        match from {
            OptionsState::Closed => &self.closed,
            OptionsState::Menu => &self.menu,
            OptionsState::Controls => &self.controls,
            OptionsState::General => &self.general,
            OptionsState::Audio => &self.audio,
            OptionsState::Video => &self.video,
        }
    }

    /// Whether the allow-list of `from` holds `to`.
    pub fn allows(&self, from: OptionsState, to: OptionsState) -> (r: bool)
        ensures
            r == self.permits(from, to),
    {
        let list = self.list_for(from);
        let mut i: usize = 0;
        while i < list.len()
            invariant
                i <= list@.len(),
                list@ == self.successors(from),
                forall|j: int| 0 <= j < i ==> list@[j] != to,
            decreases list.len() - i,
        {
            if list[i] == to {
                return true;
            }
            i = i + 1;
        }
        false
    }
}

impl Default for OptionsStateAllowedChanges {
    fn default() -> (r: OptionsStateAllowedChanges)
        ensures
            forall|s: OptionsState| #[trigger] r.successors(s) == options_state_successors(s),
    {
        let r = OptionsStateAllowedChanges {
            closed: vec![OptionsState::Menu],
            menu: vec![
                OptionsState::Closed,
                OptionsState::General,
                OptionsState::Controls,
                OptionsState::Audio,
                OptionsState::Video,
            ],
            controls: vec![OptionsState::Menu],
            general: vec![OptionsState::Menu],
            audio: vec![OptionsState::Menu],
            video: vec![OptionsState::Menu],
        };
        assert(r.closed@ =~= options_state_successors(OptionsState::Closed));
        assert(r.menu@ =~= options_state_successors(OptionsState::Menu));
        assert(r.controls@ =~= options_state_successors(OptionsState::Controls));
        assert(r.general@ =~= options_state_successors(OptionsState::General));
        assert(r.audio@ =~= options_state_successors(OptionsState::Audio));
        assert(r.video@ =~= options_state_successors(OptionsState::Video));
        r
    }
}

/// A request to change the options state.
#[derive(Clone, Copy, Debug, PartialEq, Eq, Hash, Structural)]
pub struct EditOptionsState {
    pub desired_options_state: OptionsState,
}

/// The pending options state after `edits` are read in order while the
/// current state is `current`: each request that the allow-list permits
/// replaces the pending state, the others are dropped.
pub open spec fn options_state_requested(
    allowed: OptionsStateAllowedChanges,
    current: OptionsState,
    edits: Seq<EditOptionsState>,
    pending: Option<OptionsState>,
) -> Option<OptionsState>
    decreases edits.len(),
{
    if edits.len() == 0 {
        pending
    } else {
        let earlier = options_state_requested(allowed, current, edits.drop_last(), pending);
        let desired = edits.last().desired_options_state;
        if allowed.permits(current, desired) {
            Some(desired)
        } else {
            earlier
        }
    }
}

/// Applies the change requests of one step to the pending options state.
pub fn handle_edit_options_state(
    allowed_changes: &OptionsStateAllowedChanges,
    current_options_state: OptionsState,
    next_options_state: &mut Option<OptionsState>,
    edits: &Vec<EditOptionsState>,
)
    ensures
        *final(next_options_state) == options_state_requested(
            *allowed_changes,
            current_options_state,
            edits@,
            *old(next_options_state),
        ),
{
    let ghost start = *next_options_state;
    let mut i: usize = 0;
    while i < edits.len()
        invariant
            i <= edits@.len(),
            *next_options_state == options_state_requested(
                *allowed_changes,
                current_options_state,
                edits@.subrange(0, i as int),
                start,
            ),
        decreases edits.len() - i,
    {
        let desired = edits[i].desired_options_state;
        assert(edits@.subrange(0, i + 1).drop_last() =~= edits@.subrange(0, i as int));
        if allowed_changes.allows(current_options_state, desired) {
            *next_options_state = Some(desired);
        }
        i = i + 1;
    }
    assert(edits@.subrange(0, edits@.len() as int) =~= edits@);
}

/// A change request from `current` to `desired` is applied exactly when the
/// allow-list of `current` holds `desired`; otherwise it is dropped and the
/// pending state stays as it was.
pub proof fn lemma_options_transition_iff_allowed(
    allowed: OptionsStateAllowedChanges,
    current: OptionsState,
    desired: OptionsState,
    pending: Option<OptionsState>,
)
    ensures
        options_state_requested(
            allowed,
            current,
            seq![EditOptionsState { desired_options_state: desired }],
            pending,
        ) == (if allowed.permits(current, desired) {
            Some(desired)
        } else {
            pending
        }),
{
    let edits = seq![EditOptionsState { desired_options_state: desired }];
    assert(edits.drop_last() =~= Seq::<EditOptionsState>::empty());
    assert(edits.last() == edits[0]);
    assert(options_state_requested(allowed, current, Seq::<EditOptionsState>::empty(), pending) == pending);
}

} // verus!
