//! One frame of the host loop: what came in, and what is to be drawn.

use crate::input::Key;
use vstd::prelude::*;
use vstd::string::*;

verus! {

/// The colours the game paints with.
#[derive(Clone, Copy, Debug, PartialEq, Eq, Structural)]
pub enum Color {
    Black,
    Red,
    Navy,
    /// The colour of the dragon.
    Dragon,
}

impl Color {
    /// The red, green and blue parts of each colour.
    pub open spec fn parts(self) -> (u8, u8, u8) {
        match self {
            Color::Black => (0u8, 0u8, 0u8),
            Color::Red => (255u8, 0u8, 0u8),
            Color::Navy => (0u8, 0u8, 128u8),
            Color::Dragon => (255u8, 101u8, 80u8),
        }
    }

    /// The red, green and blue parts of this colour.
    pub fn rgb(self) -> (parts: (u8, u8, u8))
        ensures
            parts == self.parts(),
    {
        match self {
            Color::Black => (0, 0, 0),
            Color::Red => (255, 0, 0),
            Color::Navy => (0, 0, 128),
            Color::Dragon => (255, 101, 80),
        }
    }
}

/// One instruction to the terminal.
#[derive(Debug, PartialEq, Eq)]
pub enum Command {
    /// Clear the screen.
    Cls,
    /// Clear the screen to a background colour.
    ClsBg { background: Color },
    /// Write `text` from column `x` of row `y`.
    Print { x: i32, y: i32, text: String },
    /// Write `text` in the middle of row `y`.
    PrintCentered { y: i32, text: String },
    /// Put one glyph at column `x` of row `y`.
    Put { x: i32, y: i32, fg: Color, bg: Color, glyph: u16 },
}

/// What a [`Command`] says, with its text as a sequence of characters.
pub enum CommandView {
    Cls,
    ClsBg { background: Color },
    Print { x: int, y: int, text: Seq<char> },
    PrintCentered { y: int, text: Seq<char> },
    Put { x: int, y: int, fg: Color, bg: Color, glyph: u16 },
}

impl View for Command {
    type V = CommandView;

    open spec fn view(&self) -> CommandView {
        match *self {
            Command::Cls => CommandView::Cls,
            Command::ClsBg { background } => CommandView::ClsBg { background },
            Command::Print { x, y, text } => CommandView::Print { x: x as int, y: y as int, text: text@ },
            Command::PrintCentered { y, text } => CommandView::PrintCentered { y: y as int, text: text@ },
            Command::Put { x, y, fg, bg, glyph } => CommandView::Put {
                x: x as int,
                y: y as int,
                fg,
                bg,
                glyph,
            },
        }
    }
}

/// One frame: the key that is down and the time since the last frame, as the
/// host loop read them, and the commands and the request to quit that the
/// game answers with.
#[derive(Debug, PartialEq, Eq)]
pub struct Frame {
    /// The key pressed during this frame, if any.
    pub key: Option<Key>,
    /// Microseconds since the previous frame.
    pub elapsed: u64,
    /// Set once the player has asked to leave.
    pub quitting: bool,
    /// What to draw, in order.
    pub commands: Vec<Command>,
}

impl Frame {
    /// The commands issued so far.
    pub open spec fn drawn(&self) -> Seq<CommandView> {
        self.commands@.map_values(|c: Command| c@)
    }

    /// `post` is `pre` with `added` drawn after what was there and, if `quit`
    /// holds, with the request to leave raised. A request once raised stays.
    pub open spec fn answers(pre: Frame, post: Frame, added: Seq<CommandView>, quit: bool) -> bool {
        &&& post.key == pre.key
        &&& post.elapsed == pre.elapsed
        &&& post.quitting == (pre.quitting || quit)
        &&& post.drawn() == pre.drawn() + added
    }

    /// `post` is `pre` with `added` drawn after what was there, and nothing
    /// else changed.
    pub open spec fn draws(pre: Frame, post: Frame, added: Seq<CommandView>) -> bool {
        Frame::answers(pre, post, added, false)
    }

    /// A frame with nothing drawn yet.
    pub fn new(key: Option<Key>, elapsed: u64) -> (frame: Frame)
        ensures
            frame.key == key,
            frame.elapsed == elapsed,
            !frame.quitting,
            frame.drawn() == Seq::<CommandView>::empty(),
    {
        let frame = Frame { key, elapsed, quitting: false, commands: Vec::new() };
        assert(frame.drawn() =~= Seq::<CommandView>::empty());
        frame
    }

    fn issue(&mut self, command: Command)
        ensures
            Frame::draws(*old(self), *final(self), seq![command@]),
    {
        self.commands.push(command);
        assert(self.drawn() =~= old(self).drawn() + seq![command@]);
    }

    /// Clears the screen.
    pub fn cls(&mut self)
        ensures
            Frame::draws(*old(self), *final(self), seq![CommandView::Cls]),
    {
        self.issue(Command::Cls);
    }

    /// Clears the screen to `background`.
    pub fn cls_bg(&mut self, background: Color)
        ensures
            Frame::draws(*old(self), *final(self), seq![CommandView::ClsBg { background }]),
    {
        self.issue(Command::ClsBg { background });
    }

    /// Writes `text` from column `x` of row `y`.
    pub fn print(&mut self, x: i32, y: i32, text: &str)
        ensures
            Frame::draws(
                *old(self),
                *final(self),
                seq![CommandView::Print { x: x as int, y: y as int, text: text@ }],
            ),
    {
        self.issue(Command::Print { x, y, text: String::from_str(text) });
    }

    /// Writes `text` in the middle of row `y`.
    pub fn print_centered(&mut self, y: i32, text: &str)
        ensures
            Frame::draws(
                *old(self),
                *final(self),
                seq![CommandView::PrintCentered { y: y as int, text: text@ }],
            ),
    {
        self.issue(Command::PrintCentered { y, text: String::from_str(text) });
    }

    /// Raises the request to leave.
    pub fn quit(&mut self)
        ensures
            Frame::answers(*old(self), *final(self), Seq::<CommandView>::empty(), true),
    {
        self.quitting = true;
        assert(self.drawn() =~= old(self).drawn() + Seq::<CommandView>::empty());
    }

    /// Puts `glyph` at column `x` of row `y`.
    pub fn set(&mut self, x: i32, y: i32, fg: Color, bg: Color, glyph: u16)
        ensures
            Frame::draws(
                *old(self),
                *final(self),
                seq![CommandView::Put { x: x as int, y: y as int, fg, bg, glyph }],
            ),
    {
        self.issue(Command::Put { x, y, fg, bg, glyph });
    }
}

} // verus!
