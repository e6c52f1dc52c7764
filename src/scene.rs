use vstd::prelude::*;

verus! {

/// What the game shows: play, the pause screen, or play with the debug overlay.
#[derive(Clone, Copy, Debug, PartialEq, Eq, Hash, Structural)]
pub enum GameScene {
    Game,
    Pause,
    DebugView,
}

impl Default for GameScene {
    fn default() -> (r: GameScene)
        ensures
            r == GameScene::Game,
    {
        GameScene::Game
    }
}

/// The scene after the debug overlay is toggled; the pause screen is left as it is.
pub fn toggle_debug_view(scene: GameScene) -> (r: GameScene)
    ensures
        r == match scene {
            GameScene::Game => GameScene::DebugView,
            GameScene::DebugView => GameScene::Game,
            GameScene::Pause => GameScene::Pause,
        },
{
    match scene {
        GameScene::Game => GameScene::DebugView,
        GameScene::DebugView => GameScene::Game,
        GameScene::Pause => GameScene::Pause,
    }
}

/// The scene after pause is toggled: play and the debug overlay pause, the pause screen
/// goes back to play.
pub fn pause(scene: GameScene) -> (r: GameScene)
    ensures
        r == match scene {
            GameScene::Game => GameScene::Pause,
            GameScene::Pause => GameScene::Game,
            GameScene::DebugView => GameScene::Pause,
        },
{
    match scene {
        GameScene::Game => GameScene::Pause,
        GameScene::Pause => GameScene::Game,
        GameScene::DebugView => GameScene::Pause,
    }
}

/// True iff gravity ticks and movement are processed in `scene`.
pub fn is_running(scene: GameScene) -> (r: bool)
    ensures
        r == (scene != GameScene::Pause),
{
    match scene {
        GameScene::Pause => false,
        _ => true,
    }
}

} // verus!
