//! The adversaries that roam ahead of the dragon.

use crate::dice::{new_generator, roll};
use crate::frame::{Color, CommandView, Frame};
use crate::glyph::{cp437, to_cp437};
use bracket_lib::prelude::RandomNumberGenerator;
use vstd::prelude::*;

verus! {

/// The highest row on which an adversary may appear.
pub const ROAM_TOP: i32 = 10;

/// The first row below those on which an adversary may appear.
pub const ROAM_BOTTOM: i32 = 45;

/// The least number a horde is sized by.
pub const HORDE_MIN: i32 = 1;

/// The first number above those a horde is sized by.
pub const HORDE_MAX: i32 = 5;

/// An adversary, at column `x` of the scrolling field and row `y`.
#[derive(Clone, Copy, Debug, PartialEq, Eq, Structural)]
pub struct Baddie {
    pub x: i32,
    pub y: i32,
}

impl Baddie {
    /// The adversary as drawn when the dragon is in column `player_x`.
    pub open spec fn mark(&self, player_x: int) -> Seq<CommandView> {
        seq![
            CommandView::Put {
                x: self.x - player_x,
                y: self.y as int,
                fg: Color::Red,
                bg: Color::Black,
                glyph: cp437('#'),
            },
        ]
    }

    /// An adversary at the given place.
    pub fn new(x: i32, y: i32) -> (baddie: Baddie)
        ensures
            baddie.x == x,
            baddie.y == y,
    {
        Baddie { x, y }
    }

    /// A horde that appears in column `x`: one adversary fewer than `size`,
    /// each on a row drawn at random from the band they roam.
    pub fn horde(random: &mut RandomNumberGenerator, size: i32, x: i32) -> (horde: Vec<Baddie>)
        ensures
            horde.len() == if size > 1 {
                size - 1
            } else {
                0
            },
            forall|i: int|
                0 <= i < horde.len() ==> (#[trigger] horde[i]).x == x && ROAM_TOP <= horde[i].y
                    < ROAM_BOTTOM,
    {
        let mut horde: Vec<Baddie> = Vec::new();
        let mut n: i32 = 1;
        while n < size
            invariant
                1 <= n,
                n <= size || n == 1,
                horde.len() == n - 1,
                forall|i: int|
                    0 <= i < horde.len() ==> (#[trigger] horde[i]).x == x && ROAM_TOP <= horde[i].y
                        < ROAM_BOTTOM,
            decreases size - n,
        {
            let y: i32 = roll(random, ROAM_TOP, ROAM_BOTTOM);
            horde.push(Baddie::new(x, y));
            n += 1;
        }
        horde
    }

    /// A horde of random size that appears in column `x`. It may be empty.
    pub fn spawn(x: i32) -> (horde: Vec<Baddie>)
        ensures
            horde.len() <= HORDE_MAX - 2,
            forall|i: int|
                0 <= i < horde.len() ==> (#[trigger] horde[i]).x == x && ROAM_TOP <= horde[i].y
                    < ROAM_BOTTOM,
    {
        let mut random = new_generator();
        let size: i32 = roll(&mut random, HORDE_MIN, HORDE_MAX);
        Baddie::horde(&mut random, size, x)
    }

    /// Draws the adversary where it stands relative to the dragon.
    pub fn render(&self, ctx: &mut Frame, player_x: i32)
        requires
            i32::MIN <= self.x - player_x <= i32::MAX,
        ensures
            Frame::draws(*old(ctx), *final(ctx), self.mark(player_x as int)),
    {
        let screen_x: i32 = self.x - player_x;
        let screen_y: i32 = self.y;
        ctx.set(screen_x, screen_y, Color::Red, Color::Black, to_cp437('#'));
    }

    /// The adversary's part in the collisions of a frame: none. It stays
    /// where it is, and neither ends the run nor changes the score.
    pub fn hit_baddie(&mut self)
        ensures
            *final(self) == *old(self),
    {
    }
}

} // verus!
