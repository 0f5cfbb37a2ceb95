use make_like::states::app_state::{
    handle_edit_app_state, AppState, AppStateAllowedChanges, EditAppState,
};
use make_like::states::data_state::{handle_edit_data_state, DataState, EditDataState};
use make_like::states::game_state::{
    emit_edit_game_state, handle_edit_game_state, EditGameState, GameState,
};
use make_like::states::options_state::{
    handle_edit_options_state, EditOptionsState, OptionsState, OptionsStateAllowedChanges,
};
use make_like::states::profile_state::{
    handle_edit_profile_state, EditProfileState, ProfileState,
};

const ALL_APP: [AppState; 7] = [
    AppState::Splash,
    AppState::Title,
    AppState::Options,
    AppState::Credits,
    AppState::LoadSave,
    AppState::Game,
    AppState::Fail,
];

fn table_allows(from: AppState, to: AppState) -> bool {
    matches!(
        (from, to),
        (AppState::Splash, AppState::Title)
            | (AppState::Title, AppState::Options)
            | (AppState::Title, AppState::Credits)
            | (AppState::Title, AppState::LoadSave)
            | (AppState::Options, AppState::Title)
            | (AppState::Credits, AppState::Title)
            | (AppState::LoadSave, AppState::Title)
            | (AppState::LoadSave, AppState::Game)
            | (AppState::Game, AppState::Fail)
            | (AppState::Game, AppState::Title)
            | (AppState::Fail, AppState::Game)
            | (AppState::Fail, AppState::Title)
    )
}

fn app_edit(to: AppState) -> EditAppState {
    EditAppState { desired_app_state: to }
}

#[test]
fn app_state_defaults() {
    assert_eq!(AppState::default(), AppState::Splash);
    assert_eq!(OptionsState::default(), OptionsState::Closed);
    assert_eq!(GameState::default(), GameState::Playing);
    assert_eq!(DataState::default(), DataState::Loading);
    assert_eq!(ProfileState::default(), ProfileState::Profile1);
}

#[test]
fn every_app_transition_occurs_iff_listed() {
    let allowed = AppStateAllowedChanges::default();
    for from in ALL_APP {
        for to in ALL_APP {
            let mut next = None;
            let mut next_options = None;
            handle_edit_app_state(from, &allowed, &mut next, &vec![app_edit(to)], &mut next_options);
            if table_allows(from, to) {
                assert_eq!(next, Some(to), "{:?} -> {:?}", from, to);
            } else {
                assert_eq!(next, None, "{:?} -> {:?}", from, to);
            }
            assert_eq!(allowed.allows(from, to), table_allows(from, to));
        }
    }
}

#[test]
fn entering_options_opens_the_menu() {
    let allowed = AppStateAllowedChanges::default();
    let mut next = None;
    let mut next_options = None;
    handle_edit_app_state(
        AppState::Title,
        &allowed,
        &mut next,
        &vec![app_edit(AppState::Options)],
        &mut next_options,
    );
    assert_eq!(next, Some(AppState::Options));
    assert_eq!(next_options, Some(OptionsState::Menu));
}

#[test]
fn rejected_options_request_leaves_options_state() {
    let allowed = AppStateAllowedChanges::default();
    let mut next = Some(AppState::Credits);
    let mut next_options = None;
    handle_edit_app_state(
        AppState::Game,
        &allowed,
        &mut next,
        &vec![app_edit(AppState::Options)],
        &mut next_options,
    );
    assert_eq!(next, Some(AppState::Credits));
    assert_eq!(next_options, None);
}

#[test]
fn last_accepted_app_request_wins() {
    let allowed = AppStateAllowedChanges::default();
    let mut next = None;
    let mut next_options = None;
    let edits = vec![
        app_edit(AppState::Game),
        app_edit(AppState::Credits),
        app_edit(AppState::Fail),
    ];
    handle_edit_app_state(AppState::LoadSave, &allowed, &mut next, &edits, &mut next_options);
    assert_eq!(next, Some(AppState::Game));
    let mut next = None;
    let edits = vec![app_edit(AppState::Title), app_edit(AppState::Game)];
    handle_edit_app_state(AppState::LoadSave, &allowed, &mut next, &edits, &mut next_options);
    assert_eq!(next, Some(AppState::Game));
}

#[test]
fn no_app_requests_change_nothing() {
    let allowed = AppStateAllowedChanges::default();
    let mut next = Some(AppState::Title);
    let mut next_options = Some(OptionsState::Audio);
    handle_edit_app_state(AppState::Splash, &allowed, &mut next, &vec![], &mut next_options);
    assert_eq!(next, Some(AppState::Title));
    assert_eq!(next_options, Some(OptionsState::Audio));
}

#[test]
fn options_transitions_follow_the_table() {
    let allowed = OptionsStateAllowedChanges::default();
    let all = [
        OptionsState::Closed,
        OptionsState::Menu,
        OptionsState::Controls,
        OptionsState::General,
        OptionsState::Audio,
        OptionsState::Video,
    ];
    for from in all {
        for to in all {
            let expected = match from {
                OptionsState::Closed => to == OptionsState::Menu,
                OptionsState::Menu => to != OptionsState::Menu,
                _ => to == OptionsState::Menu,
            };
            let mut next = None;
            handle_edit_options_state(
                &allowed,
                from,
                &mut next,
                &vec![EditOptionsState { desired_options_state: to }],
            );
            assert_eq!(next, if expected { Some(to) } else { None }, "{:?} -> {:?}", from, to);
        }
    }
}

#[test]
fn custom_allow_list_is_respected() {
    let mut allowed = AppStateAllowedChanges::default();
    allowed.splash = vec![AppState::Game];
    let mut next = None;
    let mut next_options = None;
    handle_edit_app_state(
        AppState::Splash,
        &allowed,
        &mut next,
        &vec![app_edit(AppState::Title)],
        &mut next_options,
    );
    assert_eq!(next, None);
    handle_edit_app_state(
        AppState::Splash,
        &allowed,
        &mut next,
        &vec![app_edit(AppState::Game)],
        &mut next_options,
    );
    assert_eq!(next, Some(AppState::Game));
}

#[test]
fn pause_key_toggles_game_state() {
    assert!(emit_edit_game_state(true).is_some());
    assert!(emit_edit_game_state(false).is_none());
    let mut next = None;
    handle_edit_game_state(GameState::Playing, &mut next, &vec![EditGameState]);
    assert_eq!(next, Some(GameState::Paused));
    let mut next = None;
    handle_edit_game_state(GameState::Paused, &mut next, &vec![EditGameState, EditGameState]);
    assert_eq!(next, Some(GameState::Playing));
    let mut next = None;
    handle_edit_game_state(GameState::Paused, &mut next, &vec![]);
    assert_eq!(next, None);
}

#[test]
fn data_and_profile_requests_last_one_wins() {
    let mut next = None;
    handle_edit_data_state(
        &mut next,
        &vec![
            EditDataState { desired_data_state: DataState::Saving },
            EditDataState { desired_data_state: DataState::Idle },
        ],
    );
    assert_eq!(next, Some(DataState::Idle));
    let mut next = Some(ProfileState::Profile2);
    handle_edit_profile_state(&mut next, &vec![]);
    assert_eq!(next, Some(ProfileState::Profile2));
    handle_edit_profile_state(
        &mut next,
        &vec![EditProfileState { desired_profile_state: ProfileState::Profile4 }],
    );
    assert_eq!(next, Some(ProfileState::Profile4));
}
