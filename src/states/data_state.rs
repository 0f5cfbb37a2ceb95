use vstd::prelude::*;

verus! {

/// What the persistence layer is busy with.
#[derive(Clone, Copy, Debug, PartialEq, Eq, Hash, Structural)]
pub enum DataState {
    Idle,
    Loading,
    Saving,
}

impl Default for DataState {
    fn default() -> (r: DataState)
        ensures
            r == DataState::Loading,
    {
        DataState::Loading
    }
}

/// A request to change the data state.
#[derive(Clone, Copy, Debug, PartialEq, Eq, Hash, Structural)]
pub struct EditDataState {
    pub desired_data_state: DataState,
}

/// Data state changes are not guarded: the last request of a step is the
/// one left pending.
pub fn handle_edit_data_state(next_data_state: &mut Option<DataState>, edits: &Vec<EditDataState>)
    ensures
        *final(next_data_state) == (if edits@.len() > 0 {
            Some(edits@.last().desired_data_state)
        } else {
            *old(next_data_state)
        }),
{
    let mut i: usize = 0;
    while i < edits.len()
        invariant
            i <= edits@.len(),
            *next_data_state == (if i > 0 {
                Some(edits@[i - 1].desired_data_state)
            } else {
                *old(next_data_state)
            }),
        decreases edits.len() - i,
    {
        *next_data_state = Some(edits[i].desired_data_state);
        i = i + 1;
    }
}

} // verus!
