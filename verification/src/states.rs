//! The screens the game moves through: a splash, the main menu, the game
//! (which Esc pauses and resumes) and its end.
use vstd::prelude::*;

verus! {

/// The screen the game is on.
#[derive(Clone, Copy, PartialEq, Eq, Debug)]
pub enum AppState {
    Splash,
    MainMenu,
    InGame,
    Paused,
    GameOver,
}

/// Something that may move the game to another screen.
#[derive(Clone, Copy, PartialEq, Eq, Debug)]
pub enum GameEvent {
    /// The splash screen has been shown for its full time.
    SplashFinished,
    /// The start button of the main menu was pressed.
    StartPressed,
    /// A bug took the player's last health point.
    PlayerDefeated,
    /// Esc was pressed: it pauses the game, and a second press resumes it.
    PausePressed,
}

/// The screen the game starts on.
pub open spec fn initial_state() -> AppState {
    AppState::Splash
}

/// The screen after `event` on screen `state`: each event counts only on the
/// screen whose systems raise it, and moves to the next screen.
pub open spec fn spec_next_state(state: AppState, event: GameEvent) -> AppState {
    match (state, event) {
        (AppState::Splash, GameEvent::SplashFinished) => AppState::MainMenu,
        (AppState::MainMenu, GameEvent::StartPressed) => AppState::InGame,
        (AppState::InGame, GameEvent::PlayerDefeated) => AppState::GameOver,
        (AppState::InGame, GameEvent::PausePressed) => AppState::Paused,
        (AppState::Paused, GameEvent::PausePressed) => AppState::InGame,
        _ => state,
    }
}

/// Whether the game runs (bugs move and attack, items can be picked up) on
/// this screen.
pub open spec fn is_playing(state: AppState) -> bool {
    state == AppState::InGame
}

/// The position of a screen in the order the game goes through them; a
/// paused game stands where the running game does.
pub open spec fn stage(state: AppState) -> int {
    match state {
        AppState::Splash => 0,
        AppState::MainMenu => 1,
        AppState::InGame => 2,
        AppState::Paused => 2,
        AppState::GameOver => 3,
    }
}

/// The screens after a run of events, from `state`.
pub open spec fn run_events(state: AppState, events: Seq<GameEvent>) -> AppState
    decreases events.len(),
{
    if events.len() == 0 {
        state
    } else {
        spec_next_state(run_events(state, events.drop_last()), events.last())
    }
}

impl AppState {
    /// The screen the game starts on.
    pub fn initial() -> (s: AppState)
        ensures
            s == initial_state(),
    {
        AppState::Splash
    }

    /// The screen after `event`.
    pub fn next(self, event: GameEvent) -> (s: AppState)
        ensures
            s == spec_next_state(self, event),
    {
        match (self, event) {
            (AppState::Splash, GameEvent::SplashFinished) => AppState::MainMenu,
            (AppState::MainMenu, GameEvent::StartPressed) => AppState::InGame,
            (AppState::InGame, GameEvent::PlayerDefeated) => AppState::GameOver,
            (AppState::InGame, GameEvent::PausePressed) => AppState::Paused,
            (AppState::Paused, GameEvent::PausePressed) => AppState::InGame,
            _ => self,
        }
    }
}

/// The game never goes back to an earlier screen and never skips one: each
/// event leaves the screen as it is or moves to the very next one.
pub proof fn lemma_screens_advance_one_at_a_time(state: AppState, event: GameEvent)
    ensures
        stage(spec_next_state(state, event)) == stage(state) || stage(spec_next_state(
            state,
            event,
        )) == stage(state) + 1,
{
}

/// Once the game is over it stays over, whatever happens.
pub proof fn lemma_game_over_is_final(events: Seq<GameEvent>)
    ensures
        run_events(AppState::GameOver, events) == AppState::GameOver,
    decreases events.len(),
{
    if events.len() > 0 {
        lemma_game_over_is_final(events.drop_last());
    }
}

/// The game can only be lost while it is being played: no event leads to
/// the end from the splash, the menu or the pause screen.
pub proof fn lemma_defeat_only_in_game(state: AppState, event: GameEvent)
    ensures
        spec_next_state(state, event) == AppState::GameOver ==> state == AppState::InGame
            || state == AppState::GameOver,
{
}

/// Esc pauses a running game, and a second Esc resumes it: the game is back
/// where it was. On the other screens Esc does nothing.
pub proof fn lemma_pause_toggles(state: AppState)
    ensures
        state == AppState::InGame ==> spec_next_state(state, GameEvent::PausePressed)
            == AppState::Paused,
        state == AppState::Paused ==> spec_next_state(state, GameEvent::PausePressed)
            == AppState::InGame,
        (state == AppState::InGame || state == AppState::Paused) ==> spec_next_state(
            spec_next_state(state, GameEvent::PausePressed),
            GameEvent::PausePressed,
        ) == state,
        !(state == AppState::InGame || state == AppState::Paused) ==> spec_next_state(
            state,
            GameEvent::PausePressed,
        ) == state,
{
}

/// While paused nothing but Esc changes the screen: a bug cannot end the
/// game, and the splash and menu events are ignored.
pub proof fn lemma_pause_freezes_play(event: GameEvent)
    ensures
        !is_playing(AppState::Paused),
        event != GameEvent::PausePressed ==> spec_next_state(AppState::Paused, event)
            == AppState::Paused,
{
}

/// Over any run of events the screen moves forward by at most one step per
/// event, so the game reaches play only after the splash and the menu.
pub proof fn lemma_run_advances_at_most_one_per_event(state: AppState, events: Seq<GameEvent>)
    ensures
        stage(state) <= stage(run_events(state, events)) <= stage(state) + events.len(),
    decreases events.len(),
{
    if events.len() > 0 {
        lemma_run_advances_at_most_one_per_event(state, events.drop_last());
        lemma_screens_advance_one_at_a_time(
            run_events(state, events.drop_last()),
            events.last(),
        );
    }
}

} // verus!
