//! The phases of a session and what lets one follow another.

use vstd::prelude::*;
use crate::manifest::AnimationList;

verus! {

/// The phase a session is in.
#[derive(Clone, Copy, Debug, PartialEq, Eq, Hash, Structural)]
pub enum GameState {
    Loading,
    Waiting,
    MainMenu,
    TransitionToGamePlay,
    GamePlay,
    Pause,
    GameOver,
    Cleanup,
}

impl GameState {
    /// The phase that follows this one: loading, waiting, menu, transition
    /// and play in a row; play and pause lead to each other; a lost game is
    /// cleaned up and returns to the menu.
    pub open spec fn next(self) -> GameState {
        match self {
            GameState::Loading => GameState::Waiting,
            GameState::Waiting => GameState::MainMenu,
            GameState::MainMenu => GameState::TransitionToGamePlay,
            GameState::TransitionToGamePlay => GameState::GamePlay,
            GameState::GamePlay => GameState::Pause,
            GameState::Pause => GameState::GamePlay,
            GameState::GameOver => GameState::Cleanup,
            GameState::Cleanup => GameState::MainMenu,
        }
    }

    pub fn transition(&self) -> (s: GameState)
        ensures
            s == self.next(),
            s != GameState::Loading,
    {
        match self {
            GameState::Loading => GameState::Waiting,
            GameState::Waiting => GameState::MainMenu,
            GameState::MainMenu => GameState::TransitionToGamePlay,
            GameState::TransitionToGamePlay => GameState::GamePlay,
            GameState::GamePlay => GameState::Pause,
            GameState::Pause => GameState::GamePlay,
            GameState::GameOver => GameState::Cleanup,
            GameState::Cleanup => GameState::MainMenu,
        }
    }
}

impl Default for GameState {
    fn default() -> (s: GameState)
        ensures
            s == GameState::Loading,
    {
        GameState::Loading
    }
}

/// Where the camera and the player have to be before play begins, and
/// whether each has arrived.
#[derive(Clone, Copy, Debug, PartialEq, Eq, Structural)]
pub struct GameplayStart {
    /// Horizontal position at which the camera is in place, in pixels.
    pub camera_endpos: i32,
    /// Horizontal position at which the player is in place, in pixels.
    pub player_endpos: i32,
    pub camera_inplace: bool,
    pub play_inplace: bool,
}

impl GameplayStart {
    /// Whether camera and player are both in place.
    pub open spec fn ready(self) -> bool {
        self.camera_inplace && self.play_inplace
    }

    pub fn can_start(&self) -> (b: bool)
        ensures
            b == self.ready(),
    {
        self.camera_inplace && self.play_inplace
    }

    /// Records whether the camera has reached its place. A flag that is set
    /// stays set.
    pub fn camera_moved(&mut self, arrived: bool)
        ensures
            *final(self) == (GameplayStart {
                camera_inplace: old(self).camera_inplace || arrived,
                ..*old(self)
            }),
    {
        if arrived {
            self.camera_inplace = true;
        }
    }

    /// Records whether the player has reached its place. A flag that is set
    /// stays set.
    pub fn player_moved(&mut self, arrived: bool)
        ensures
            *final(self) == (GameplayStart {
                play_inplace: old(self).play_inplace || arrived,
                ..*old(self)
            }),
    {
        if arrived {
            self.play_inplace = true;
        }
    }
}

impl Default for GameplayStart {
    fn default() -> (s: GameplayStart)
        ensures
            s == (GameplayStart {
                camera_endpos: 500,
                player_endpos: 150,
                camera_inplace: false,
                play_inplace: false,
            }),
    {
        GameplayStart {
            camera_endpos: 500,
            player_endpos: 150,
            camera_inplace: false,
            play_inplace: false,
        }
    }
}

/// Leaves the menu when the player confirms.
pub fn main_menu_input(pressed: bool, state: GameState) -> (next: Option<GameState>)
    ensures
        next == if state == GameState::MainMenu && pressed {
            Some(GameState::TransitionToGamePlay)
        } else {
            None
        },
{
    if matches!(state, GameState::MainMenu) && pressed {
        Some(state.transition())
    } else {
        None
    }
}

/// One step of the way into play: notes whether the camera has arrived,
/// and begins play once camera and player are in place and the requests of
/// the manifest are issued. In any other phase nothing happens.
pub fn transition_to_gameplay(
    state: GameState,
    list: &AnimationList,
    gameplay_start: &mut GameplayStart,
    camera_arrived: bool,
) -> (next: Option<GameState>)
    ensures
        *final(gameplay_start) == (GameplayStart {
            camera_inplace: old(gameplay_start).camera_inplace || (state
                == GameState::TransitionToGamePlay && camera_arrived),
            ..*old(gameplay_start)
        }),
        next == if state == GameState::TransitionToGamePlay && final(gameplay_start).ready()
            && list.loaded() {
            Some(GameState::GamePlay)
        } else {
            None
        },
        next is Some ==> final(gameplay_start).camera_inplace && final(gameplay_start).play_inplace,
{
    if !matches!(state, GameState::TransitionToGamePlay) {
        return None;
    }
    gameplay_start.camera_moved(camera_arrived);
    if gameplay_start.can_start() && list.is_loaded() {
        Some(state.transition())
    } else {
        None
    }
}

} // verus!
