use vstd::prelude::*;

verus! {

/// The save profile in use.
#[derive(Clone, Copy, Debug, PartialEq, Eq, Hash, Structural)]
pub enum ProfileState {
    Profile1,
    Profile2,
    Profile3,
    Profile4,
}

impl Default for ProfileState {
    fn default() -> (r: ProfileState)
        ensures
            r == ProfileState::Profile1,
    {
        ProfileState::Profile1
    }
}

/// A request to switch to another profile.
#[derive(Clone, Copy, Debug, PartialEq, Eq, Hash, Structural)]
pub struct EditProfileState {
    pub desired_profile_state: ProfileState,
}

/// Profile changes are not guarded: the last request of a step is the one
/// left pending.
pub fn handle_edit_profile_state(
    next_profile_state: &mut Option<ProfileState>,
    edits: &Vec<EditProfileState>,
)
    ensures
        *final(next_profile_state) == (if edits@.len() > 0 {
            Some(edits@.last().desired_profile_state)
        } else {
            *old(next_profile_state)
        }),
{
    let mut i: usize = 0;
    while i < edits.len()
        invariant
            i <= edits@.len(),
            *next_profile_state == (if i > 0 {
                Some(edits@[i - 1].desired_profile_state)
            } else {
                *old(next_profile_state)
            }),
        decreases edits.len() - i,
    {
        *next_profile_state = Some(edits[i].desired_profile_state);
        i = i + 1;
    }
}

} // verus!
