//! Keys, the events they raise, and the screens that interpret them.

use vstd::prelude::*;

verus! {

/// A key the game listens for. Every other key is `Other`.
#[derive(Clone, Copy, Debug, PartialEq, Eq, Structural)]
pub enum Key {
    Space,
    W,
    Q,
    P,
    H,
    Other,
}

/// What a key press means on the screen that receives it.
#[derive(Clone, Copy, Debug, PartialEq, Eq, Structural)]
pub enum Event {
    Thrust,
    NudgeForward,
    NudgeBackward,
    SelectPlay,
    SelectHighScore,
    SelectQuit,
}

/// The screen that is active. Exactly one is, at any time.
#[derive(Clone, Copy, Debug, PartialEq, Eq, Structural)]
pub enum GameMode {
    Menu,
    HighScore,
    Playing,
    End,
}

impl GameMode {
    /// The key bindings of each screen. `Q` steers while playing and quits
    /// everywhere else; the high-score screen has no way to itself.
    pub open spec fn binding(self, key: Option<Key>) -> Option<Event> {
        match (self, key) {
            (GameMode::Playing, Some(Key::Space)) => Some(Event::Thrust),
            (GameMode::Playing, Some(Key::W)) => Some(Event::NudgeForward),
            (GameMode::Playing, Some(Key::Q)) => Some(Event::NudgeBackward),
            (GameMode::Playing, _) => None,
            (_, Some(Key::P)) => Some(Event::SelectPlay),
            (GameMode::Menu, Some(Key::H)) => Some(Event::SelectHighScore),
            (GameMode::End, Some(Key::H)) => Some(Event::SelectHighScore),
            (_, Some(Key::Q)) => Some(Event::SelectQuit),
            _ => None,
        }
    }

    /// The event that `key` raises on this screen, if any.
    pub fn event(self, key: Option<Key>) -> (event: Option<Event>)
        ensures
            event == self.binding(key),
    {
        match key {
            None => None,
            Some(key) => match self {
                GameMode::Playing => match key {
                    Key::Space => Some(Event::Thrust),
                    Key::W => Some(Event::NudgeForward),
                    Key::Q => Some(Event::NudgeBackward),
                    _ => None,
                },
                GameMode::HighScore => match key {
                    Key::P => Some(Event::SelectPlay),
                    Key::Q => Some(Event::SelectQuit),
                    _ => None,
                },
                _ => match key {
                    Key::P => Some(Event::SelectPlay),
                    Key::H => Some(Event::SelectHighScore),
                    Key::Q => Some(Event::SelectQuit),
                    _ => None,
                },
            },
        }
    }
}

} // verus!
