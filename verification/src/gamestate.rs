use vstd::prelude::*;

verus! {

/// Which top-level screen the application is showing.
#[derive(Debug, PartialEq, Eq, Clone, Copy, Hash, Structural)]
pub enum AppState {
    /// Initial loading screen at startup
    AssetsLoading,
    /// Main menu
    MainMenu,
    /// Gameplay
    InGame,
}

/// Whether gameplay is running or paused.
#[derive(Debug, PartialEq, Eq, Clone, Copy, Hash, Structural)]
pub enum GameState {
    Playing,
    Paused,
}

/// The state the application starts in.
pub fn initial_app_state() -> (s: AppState)
    ensures
        s == AppState::AssetsLoading,
{
    AppState::AssetsLoading
}

/// The gameplay state the game starts in.
pub fn initial_game_state() -> (s: GameState)
    ensures
        s == GameState::Playing,
{
    GameState::Playing
}

/// Runs while playing: a fresh press of the pause key requests the paused state.
pub fn pause(pause_key_just_pressed: bool) -> (next: Option<GameState>)
    ensures
        next == (if pause_key_just_pressed { Some(GameState::Paused) } else { None::<GameState> }),
{
    if pause_key_just_pressed {
        Some(GameState::Paused)
    } else {
        None
    }
}

/// Runs while paused: a fresh press of the pause key requests the playing state.
pub fn unpause(pause_key_just_pressed: bool) -> (next: Option<GameState>)
    ensures
        next == (if pause_key_just_pressed { Some(GameState::Playing) } else { None::<GameState> }),
{
    if pause_key_just_pressed {
        Some(GameState::Playing)
    } else {
        None
    }
}

/// The state after one tick of the pause wiring.
pub open spec fn spec_next_game_state(current: GameState, pause_key_just_pressed: bool) -> GameState {
    if !pause_key_just_pressed {
        current
    } else {
        match current {
            GameState::Playing => GameState::Paused,
            GameState::Paused => GameState::Playing,
        }
    }
}

/// One tick of the pause wiring: `pause` runs while playing, `unpause` while paused,
/// and the requested state (if any) replaces the current one.
pub fn next_game_state(current: GameState, pause_key_just_pressed: bool) -> (next: GameState)
    ensures
        next == spec_next_game_state(current, pause_key_just_pressed),
{
    let requested = match current {
        GameState::Playing => pause(pause_key_just_pressed),
        GameState::Paused => unpause(pause_key_just_pressed),
    };
    match requested {
        Some(s) => s,
        None => current,
    }
}

/// Pressing the pause key on two ticks returns the game to the state it was in,
/// and every press changes the state.
pub proof fn lemma_pause_key_twice_restores(s: GameState)
    ensures
        spec_next_game_state(s, true) != s,
        spec_next_game_state(spec_next_game_state(s, true), true) == s,
{
}

} // verus!
