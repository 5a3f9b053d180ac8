use bug_lib::state::{AppState, GameEvent};

const STATES: [AppState; 6] = [
    AppState::AssetsLoading,
    AppState::MainMenu,
    AppState::InGame,
    AppState::GameOver,
    AppState::Paused,
    AppState::Fail,
];

const EVENTS: [GameEvent; 5] = [
    GameEvent::AssetsLoaded,
    GameEvent::AssetsFailed,
    GameEvent::PlayPressed,
    GameEvent::TowerDestroyed,
    GameEvent::BackToMainMenu,
];

#[test]
fn a_fresh_game_loads_its_assets() {
    assert_eq!(AppState::default(), AppState::AssetsLoading);
}

#[test]
fn loaded_assets_lead_to_the_main_menu() {
    assert_eq!(
        AppState::AssetsLoading.next(GameEvent::AssetsLoaded),
        AppState::MainMenu
    );
}

#[test]
fn failed_assets_lead_to_fail() {
    assert_eq!(
        AppState::AssetsLoading.next(GameEvent::AssetsFailed),
        AppState::Fail
    );
}

#[test]
fn play_starts_the_game_from_the_main_menu() {
    assert_eq!(
        AppState::MainMenu.next(GameEvent::PlayPressed),
        AppState::InGame
    );
}

#[test]
fn a_destroyed_tower_ends_the_game() {
    assert_eq!(
        AppState::InGame.next(GameEvent::TowerDestroyed),
        AppState::GameOver
    );
}

#[test]
fn the_game_over_screen_leads_back_to_the_main_menu() {
    assert_eq!(
        AppState::GameOver.next(GameEvent::BackToMainMenu),
        AppState::MainMenu
    );
}

#[test]
fn an_event_that_does_not_apply_changes_nothing() {
    let moves = [
        (AppState::AssetsLoading, GameEvent::AssetsLoaded),
        (AppState::AssetsLoading, GameEvent::AssetsFailed),
        (AppState::MainMenu, GameEvent::PlayPressed),
        (AppState::InGame, GameEvent::TowerDestroyed),
        (AppState::GameOver, GameEvent::BackToMainMenu),
    ];
    let mut stayed = 0;
    for state in STATES {
        for event in EVENTS {
            if !moves.contains(&(state, event)) {
                assert_eq!(state.next(event), state);
                stayed += 1;
            } else {
                assert_ne!(state.next(event), state);
            }
        }
    }
    assert_eq!(stayed, 25);
}

#[test]
fn nothing_leads_out_of_fail() {
    for event in EVENTS {
        assert_eq!(AppState::Fail.next(event), AppState::Fail);
    }
}

#[test]
fn fail_is_entered_only_by_a_failed_load() {
    for state in STATES {
        for event in EVENTS {
            if state != AppState::Fail && state.next(event) == AppState::Fail {
                assert_eq!(state, AppState::AssetsLoading);
                assert_eq!(event, GameEvent::AssetsFailed);
            }
        }
    }
}

#[test]
fn game_over_is_entered_only_when_the_tower_falls() {
    for state in STATES {
        for event in EVENTS {
            if state != AppState::GameOver && state.next(event) == AppState::GameOver {
                assert_eq!(state, AppState::InGame);
                assert_eq!(event, GameEvent::TowerDestroyed);
            }
        }
    }
}

#[test]
fn paused_is_never_entered() {
    for state in STATES {
        for event in EVENTS {
            if state != AppState::Paused {
                assert_ne!(state.next(event), AppState::Paused);
            }
        }
    }
    assert_eq!(
        AppState::Paused.next(GameEvent::BackToMainMenu),
        AppState::Paused
    );
}

#[test]
fn a_whole_round_of_play_comes_back_to_the_main_menu() {
    let round = [
        GameEvent::AssetsLoaded,
        GameEvent::PlayPressed,
        GameEvent::TowerDestroyed,
        GameEvent::BackToMainMenu,
    ];
    let seen: Vec<AppState> = round
        .iter()
        .scan(AppState::default(), |state, event| {
            *state = state.next(*event);
            Some(*state)
        })
        .collect();
    assert_eq!(
        seen,
        vec![
            AppState::MainMenu,
            AppState::InGame,
            AppState::GameOver,
            AppState::MainMenu
        ]
    );
}

#[test]
fn play_is_not_reached_without_loaded_assets() {
    let without_load = [
        GameEvent::PlayPressed,
        GameEvent::TowerDestroyed,
        GameEvent::BackToMainMenu,
        GameEvent::AssetsFailed,
        GameEvent::PlayPressed,
    ];
    let mut state = AppState::default();
    for event in without_load {
        state = state.next(event);
        assert_ne!(state, AppState::InGame);
    }
    assert_eq!(state, AppState::Fail);
}

#[test]
fn every_screen_but_paused_is_reached_by_some_run() {
    let runs: [(&[GameEvent], AppState); 5] = [
        (&[], AppState::AssetsLoading),
        (&[GameEvent::AssetsLoaded], AppState::MainMenu),
        (
            &[GameEvent::AssetsLoaded, GameEvent::PlayPressed],
            AppState::InGame,
        ),
        (
            &[
                GameEvent::AssetsLoaded,
                GameEvent::PlayPressed,
                GameEvent::TowerDestroyed,
            ],
            AppState::GameOver,
        ),
        (&[GameEvent::AssetsFailed], AppState::Fail),
    ];
    for (events, reached) in runs {
        let mut state = AppState::default();
        for event in events {
            state = state.next(*event);
        }
        assert_eq!(state, reached);
    }
}
