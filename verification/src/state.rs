//! The screens of the game and the moves between them.
//!
//! The game is on exactly one screen at a time. An event either moves it to
//! another screen or, where it does not apply to the current screen, leaves
//! it where it is.

use vstd::prelude::*;

verus! {

/// The screen the game is on.
#[derive(Debug, Clone, Copy, PartialEq, Eq, Hash, Structural)]
pub enum AppState {
    AssetsLoading,
    MainMenu,
    InGame,
    GameOver,
    Paused,
    Fail,
}

/// What can move the game from one screen to another.
#[derive(Debug, Clone, Copy, PartialEq, Eq, Hash, Structural)]
pub enum GameEvent {
    /// Every asset has been loaded.
    AssetsLoaded,
    /// Some asset could not be loaded.
    AssetsFailed,
    /// The player asked for a game from the main menu.
    PlayPressed,
    /// The tower has no health left.
    TowerDestroyed,
    /// The player left the game-over screen.
    BackToMainMenu,
}

impl Default for AppState {
    /// A fresh game starts by loading its assets.
    fn default() -> (state: Self)
        ensures
            state == AppState::AssetsLoading,
    {
        AppState::AssetsLoading
    }
}

impl AppState {
    /// The screen that follows `self` when `event` happens.
    pub open spec fn spec_next(self, event: GameEvent) -> AppState {
        match (self, event) {
            (AppState::AssetsLoading, GameEvent::AssetsLoaded) => AppState::MainMenu,
            (AppState::AssetsLoading, GameEvent::AssetsFailed) => AppState::Fail,
            (AppState::MainMenu, GameEvent::PlayPressed) => AppState::InGame,
            (AppState::InGame, GameEvent::TowerDestroyed) => AppState::GameOver,
            (AppState::GameOver, GameEvent::BackToMainMenu) => AppState::MainMenu,
            _ => self,
        }
    }

    /// The screen the game is on after a whole sequence of events, taken in
    /// order from the screen `self`.
    pub open spec fn spec_run(self, events: Seq<GameEvent>) -> AppState
        decreases events.len(),
    {
        if events.len() == 0 {
            self
        } else {
            self.spec_run(events.drop_last()).spec_next(events.last())
        }
    }

    /// Moves to the screen that follows `self` when `event` happens. An event
    /// that does not apply to the current screen changes nothing.
    pub fn next(self, event: GameEvent) -> (state: AppState)
        ensures
            state == self.spec_next(event),
    {
        match self {
            AppState::AssetsLoading => match event {
                GameEvent::AssetsLoaded => AppState::MainMenu,
                GameEvent::AssetsFailed => AppState::Fail,
                _ => self,
            },
            AppState::MainMenu => match event {
                GameEvent::PlayPressed => AppState::InGame,
                _ => self,
            },
            AppState::InGame => match event {
                GameEvent::TowerDestroyed => AppState::GameOver,
                _ => self,
            },
            AppState::GameOver => match event {
                GameEvent::BackToMainMenu => AppState::MainMenu,
                _ => self,
            },
            AppState::Paused => self,
            AppState::Fail => self,
        }
    }
}

/// No event leads out of `Fail`.
pub proof fn fail_is_final(event: GameEvent)
    ensures
        AppState::Fail.spec_next(event) == AppState::Fail,
{
}

/// `Fail` is entered only by a failed asset load.
pub proof fn fail_only_from_loading(state: AppState, event: GameEvent)
    requires
        state != AppState::Fail,
        state.spec_next(event) == AppState::Fail,
    ensures
        state == AppState::AssetsLoading,
        event == GameEvent::AssetsFailed,
{
}

/// `GameOver` is entered only from a running game whose tower was destroyed.
pub proof fn game_over_only_when_tower_falls(state: AppState, event: GameEvent)
    requires
        state != AppState::GameOver,
        state.spec_next(event) == AppState::GameOver,
    ensures
        state == AppState::InGame,
        event == GameEvent::TowerDestroyed,
{
}

/// A game that starts on the default screen never reaches `Paused`,
/// whatever happens.
pub proof fn paused_is_unreachable(events: Seq<GameEvent>)
    ensures
        AppState::AssetsLoading.spec_run(events) != AppState::Paused,
    decreases events.len(),
{
    if events.len() > 0 {
        paused_is_unreachable(events.drop_last());
    }
}

/// Every screen but `Paused` can be reached from the default screen.
pub proof fn every_other_screen_is_reachable(state: AppState)
    requires
        state != AppState::Paused,
    ensures
        exists|events: Seq<GameEvent>| AppState::AssetsLoading.spec_run(events) == state,
{
    reveal_with_fuel(AppState::spec_run, 4);
    let loaded = seq![GameEvent::AssetsLoaded];
    let playing = loaded.push(GameEvent::PlayPressed);
    let lost = playing.push(GameEvent::TowerDestroyed);
    let failed = seq![GameEvent::AssetsFailed];
    assert(AppState::AssetsLoading.spec_run(Seq::<GameEvent>::empty()) == AppState::AssetsLoading);
    assert(AppState::AssetsLoading.spec_run(loaded) == AppState::MainMenu);
    assert(AppState::AssetsLoading.spec_run(playing) == AppState::InGame);
    assert(AppState::AssetsLoading.spec_run(lost) == AppState::GameOver);
    assert(AppState::AssetsLoading.spec_run(failed) == AppState::Fail);
}

/// A game cannot be in play before its assets have been loaded: any run
/// from the default screen that ends in `InGame` has seen `AssetsLoaded`.
pub proof fn play_needs_loaded_assets(events: Seq<GameEvent>)
    requires
        AppState::AssetsLoading.spec_run(events) == AppState::InGame,
    ensures
        events.contains(GameEvent::AssetsLoaded),
{
    stays_loading_without_load(events);
}

/// As long as `AssetsLoaded` has not happened, the game is on the loading
/// screen or on `Fail`.
proof fn stays_loading_without_load(events: Seq<GameEvent>)
    ensures
        !events.contains(GameEvent::AssetsLoaded) ==> {
            let state = AppState::AssetsLoading.spec_run(events);
            state == AppState::AssetsLoading || state == AppState::Fail
        },
    decreases events.len(),
{
    if events.len() > 0 {
        let init = events.drop_last();
        stays_loading_without_load(init);
    }
}

} // verus!
