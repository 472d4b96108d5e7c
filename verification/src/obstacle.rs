//! The barrier with a gap that the dragon has to fly through.

use crate::dice::{new_generator, roll};
use crate::field::SCREEN_HEIGHT;
use crate::frame::{Color, CommandView, Frame};
use crate::glyph::{cp437, to_cp437};
use crate::player::{Player, PlayerView};
use vstd::prelude::*;

verus! {

/// The highest row on which a gap may be centred.
pub const GAP_TOP: i32 = 10;

/// The first row below those on which a gap may be centred.
pub const GAP_BOTTOM: i32 = 40;

/// The gap's size before any point is scored.
pub const BASE_SIZE: i32 = 20;

/// The gap never gets narrower than this.
pub const MIN_SIZE: i32 = 2;

/// The size of the gap at a score: one row less for every point, down to the
/// minimum.
pub open spec fn gap_size(score: int) -> int {
    if BASE_SIZE - score > MIN_SIZE {
        BASE_SIZE - score
    } else {
        MIN_SIZE as int
    }
}

/// A stretch of wall in column `x`, from row `from` up to but not including
/// row `to`, drawn from the top down.
pub open spec fn wall(x: int, from: int, to: int) -> Seq<CommandView> {
    Seq::new(
        (if to > from {
            to - from
        } else {
            0
        }) as nat,
        |i: int|
            CommandView::Put {
                x,
                y: from + i,
                fg: Color::Red,
                bg: Color::Black,
                glyph: cp437('|'),
            },
    )
}

/// A barrier in column `x` of the scrolling field, open around row `gap_y`
/// for `size` rows.
#[derive(Clone, Copy, Debug, PartialEq, Eq, Structural)]
pub struct Obstacle {
    pub x: i32,
    pub gap_y: i32,
    pub size: i32,
}

impl Obstacle {
    /// The gap is centred inside its band and at least of the minimum size.
    pub open spec fn wf(&self) -> bool {
        &&& GAP_TOP <= self.gap_y < GAP_BOTTOM
        &&& self.size >= MIN_SIZE
    }

    /// Half the size of the gap, rounded toward zero.
    pub open spec fn half_size(&self) -> int {
        if self.size >= 0 {
            self.size / 2
        } else {
            -((-self.size) / 2)
        }
    }

    /// The dragon is in the barrier's column and outside the gap. The rows
    /// from `gap_y - half_size` to `gap_y + half_size`, both included, are
    /// open.
    pub open spec fn hits(&self, player: PlayerView) -> bool {
        &&& player.x == self.x
        &&& (player.y < self.gap_y - self.half_size() || player.y > self.gap_y + self.half_size())
    }

    /// The barrier can be drawn for a dragon in column `player_x`: the column
    /// it shows in and both edges of the gap are in the range of `i32`.
    pub open spec fn drawable(&self, player_x: int) -> bool {
        &&& i32::MIN <= self.x - player_x <= i32::MAX
        &&& i32::MIN <= self.gap_y - self.half_size() <= i32::MAX
        &&& i32::MIN <= self.gap_y + self.half_size() <= i32::MAX
    }

    /// The barrier as drawn when the dragon is in column `player_x`: the wall
    /// above the gap, then the wall below it down to the bottom of the screen.
    pub open spec fn walls(&self, player_x: int) -> Seq<CommandView> {
        wall(self.x - player_x, 0, self.gap_y - self.half_size()) + wall(
            self.x - player_x,
            self.gap_y + self.half_size(),
            SCREEN_HEIGHT as int,
        )
    }

    /// The barrier in column `x` at a score, with its gap centred on `gap_y`.
    pub fn with_gap(x: i32, gap_y: i32, score: i32) -> (obstacle: Obstacle)
        requires
            BASE_SIZE - score <= i32::MAX,
        ensures
            obstacle.x == x,
            obstacle.gap_y == gap_y,
            obstacle.size == gap_size(score as int),
            GAP_TOP <= gap_y < GAP_BOTTOM ==> obstacle.wf(),
    {
        let size: i32 = BASE_SIZE - score;
        Obstacle { x, gap_y, size: if size > MIN_SIZE { size } else { MIN_SIZE } }
    }

    /// A barrier in column `x` at a score, with its gap centred on a row
    /// drawn at random from the band.
    pub fn new(x: i32, score: i32) -> (obstacle: Obstacle)
        requires
            BASE_SIZE - score <= i32::MAX,
        ensures
            obstacle.x == x,
            GAP_TOP <= obstacle.gap_y < GAP_BOTTOM,
            obstacle.size == gap_size(score as int),
            obstacle.wf(),
    {
        let mut random = new_generator();
        let gap_y: i32 = roll(&mut random, GAP_TOP, GAP_BOTTOM);
        Obstacle::with_gap(x, gap_y, score)
    }

    fn render_wall(ctx: &mut Frame, x: i32, from: i32, to: i32)
        ensures
            Frame::draws(*old(ctx), *final(ctx), wall(x as int, from as int, to as int)),
    {
        let glyph = to_cp437('|');
        let mut y: i32 = from;
        assert(ctx.drawn() =~= old(ctx).drawn() + wall(x as int, from as int, y as int));
        while y < to
            invariant
                from <= y,
                y <= to || y == from,
                glyph == cp437('|'),
                Frame::draws(*old(ctx), *ctx, wall(x as int, from as int, y as int)),
            decreases to - y,
        {
            ctx.set(x, y, Color::Red, Color::Black, glyph);
            y += 1;
            assert(ctx.drawn() =~= old(ctx).drawn() + wall(x as int, from as int, y as int));
        }
        assert(wall(x as int, from as int, y as int) =~= wall(x as int, from as int, to as int));
    }

    /// Draws the barrier where it stands relative to the dragon.
    pub fn render(&self, ctx: &mut Frame, player_x: i32)
        requires
            self.drawable(player_x as int),
        ensures
            Frame::draws(*old(ctx), *final(ctx), self.walls(player_x as int)),
    {
        let screen_x: i32 = self.x - player_x;
        let half_size: i32 = self.size / 2;
        Obstacle::render_wall(ctx, screen_x, 0, self.gap_y - half_size);
        Obstacle::render_wall(ctx, screen_x, self.gap_y + half_size, SCREEN_HEIGHT);
        assert(ctx.drawn() =~= old(ctx).drawn() + self.walls(player_x as int));
    }

    /// Whether the dragon has flown into the barrier. Only the barrier's own
    /// column can be hit.
    pub fn hit_obstacle(&self, player: &Player) -> (hit: bool)
        ensures
            hit == self.hits(player@),
    {
        let half_size: i64 = (self.size / 2) as i64;
        let does_x_match = player.x == self.x;
        let player_above_gap = (player.y as i64) < self.gap_y as i64 - half_size;
        let player_below_gap = player.y as i64 > self.gap_y as i64 + half_size;
        does_x_match && (player_above_gap || player_below_gap)
    }
}

/// A barrier can only be hit in its own column, whatever the dragon's row.
pub proof fn lemma_miss_off_column(obstacle: Obstacle, player: PlayerView)
    requires
        player.x != obstacle.x,
    ensures
        !obstacle.hits(player),
{
}

/// In the barrier's column, the centre of the gap is clear and the first row
/// below the gap's lower half is not.
pub proof fn lemma_gap_edges(obstacle: Obstacle, player: PlayerView)
    requires
        obstacle.wf(),
        player.x == obstacle.x,
    ensures
        player.y == obstacle.gap_y ==> !obstacle.hits(player),
        player.y == obstacle.gap_y + obstacle.half_size() + 1 ==> obstacle.hits(player),
{
}

/// A higher score never makes the gap wider, and no score closes it.
pub proof fn lemma_gap_size_shrinks(low: int, high: int)
    requires
        low <= high,
    ensures
        gap_size(high) <= gap_size(low),
        gap_size(high) >= MIN_SIZE,
{
}

} // verus!
