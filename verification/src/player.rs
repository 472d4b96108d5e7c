//! The dragon: its position, its vertical speed, and how both change.

use crate::field::SCREEN_HEIGHT;
use crate::frame::{Color, CommandView, Frame};
use crate::glyph::{cp437, to_cp437};
use vstd::prelude::*;

verus! {

/// Fifths of a row per physics step that make one whole row.
pub const VELOCITY_SCALE: i32 = 5;

/// What one physics step adds to the speed of the fall: 0.2 rows per step.
pub const GRAVITY: i32 = 1;

/// The speed at which gravity stops pulling: 2.0 rows per step.
pub const TERMINAL_VELOCITY: i32 = 10;

/// The speed right after a flap: 2.0 rows per step, upwards.
pub const FLAP_VELOCITY: i32 = -10;

/// Column of the screen on which the dragon's body is drawn.
pub const DRAGON_COLUMN: i32 = 3;

/// The whole rows in a speed given in fifths, rounded toward zero. A speed
/// of less than one row per step moves nothing, whether it points up or down.
pub open spec fn whole_rows(velocity: int) -> int {
    if velocity >= 0 {
        velocity / 5
    } else {
        -((-velocity) / 5)
    }
}

/// The dragon. `x` counts columns of the scrolling field, `y` counts rows
/// from the top of the screen, and `velocity` is the speed of its fall in
/// fifths of a row per physics step, negative while it rises.
#[derive(Clone, Copy, Debug, PartialEq, Eq, Structural)]
pub struct Player {
    pub x: i32,
    pub y: i32,
    pub velocity: i32,
}

/// The dragon over the integers.
pub struct PlayerView {
    pub x: int,
    pub y: int,
    pub velocity: int,
}

impl View for Player {
    type V = PlayerView;

    open spec fn view(&self) -> PlayerView {
        PlayerView { x: self.x as int, y: self.y as int, velocity: self.velocity as int }
    }
}

impl PlayerView {
    /// The dragon is on or below the top row and no faster than a flap or
    /// gravity can make it.
    pub open spec fn wf(self) -> bool {
        &&& self.y >= 0
        &&& FLAP_VELOCITY <= self.velocity <= TERMINAL_VELOCITY
    }

    /// Every coordinate can be held in an `i32`.
    pub open spec fn fits(self) -> bool {
        &&& i32::MIN <= self.x <= i32::MAX
        &&& i32::MIN <= self.y <= i32::MAX
        &&& i32::MIN <= self.velocity <= i32::MAX
    }

    /// The speed after one pull of gravity, which pulls only below the
    /// terminal velocity.
    pub open spec fn pulled(self) -> int {
        if self.velocity < TERMINAL_VELOCITY {
            self.velocity + GRAVITY
        } else {
            self.velocity
        }
    }

    /// One physics step: gravity pulls, the dragon moves by the whole rows of
    /// its new speed and one column ahead, and the top of the screen stops it.
    pub open spec fn gravity_and_move(self) -> PlayerView {
        let velocity = self.pulled();
        let y = self.y + whole_rows(velocity);
        PlayerView { x: self.x + 1, y: if y < 0 { 0 } else { y }, velocity }
    }

    /// A flap replaces the speed, whatever it was.
    pub open spec fn flap(self) -> PlayerView {
        PlayerView { velocity: FLAP_VELOCITY as int, ..self }
    }

    /// A nudge ahead moves nothing.
    pub open spec fn move_forward(self) -> PlayerView {
        self
    }

    /// A nudge back moves the dragon one column back.
    pub open spec fn move_backwards(self) -> PlayerView {
        PlayerView { x: self.x - 1, ..self }
    }

    /// The dragon after `steps` physics steps with no key pressed.
    pub open spec fn falls(self, steps: nat) -> PlayerView
        decreases steps,
    {
        if steps == 0 {
            self
        } else {
            self.falls((steps - 1) as nat).gravity_and_move()
        }
    }

    /// The four glyphs of the dragon, drawn at its row and the row below.
    pub open spec fn sprite(self) -> Seq<CommandView> {
        seq![
            CommandView::Put {
                x: DRAGON_COLUMN as int,
                y: self.y,
                fg: Color::Dragon,
                bg: Color::Black,
                glyph: cp437('\u{263b}'),
            },
            CommandView::Put {
                x: DRAGON_COLUMN - 1,
                y: self.y,
                fg: Color::Dragon,
                bg: Color::Black,
                glyph: cp437('\u{221f}'),
            },
            CommandView::Put {
                x: DRAGON_COLUMN + 1,
                y: self.y,
                fg: Color::Dragon,
                bg: Color::Black,
                glyph: cp437('\u{2518}'),
            },
            CommandView::Put {
                x: DRAGON_COLUMN as int,
                y: self.y + 1,
                fg: Color::Dragon,
                bg: Color::Black,
                glyph: cp437('\u{2551}'),
            },
        ]
    }
}

impl Player {
    /// A dragon at rest at the given place.
    pub fn new(x: i32, y: i32) -> (player: Player)
        ensures
            player@ == (PlayerView { x: x as int, y: y as int, velocity: 0 }),
    {
        Player { x, y, velocity: 0 }
    }

    /// Draws the dragon. It always shows in the same columns: the field
    /// scrolls, the dragon does not.
    pub fn render(&self, ctx: &mut Frame)
        requires
            self.y < i32::MAX,
        ensures
            Frame::draws(*old(ctx), *final(ctx), self@.sprite()),
    {
        ctx.set(DRAGON_COLUMN, self.y, Color::Dragon, Color::Black, to_cp437('\u{263b}'));
        ctx.set(DRAGON_COLUMN - 1, self.y, Color::Dragon, Color::Black, to_cp437('\u{221f}'));
        ctx.set(DRAGON_COLUMN + 1, self.y, Color::Dragon, Color::Black, to_cp437('\u{2518}'));
        ctx.set(DRAGON_COLUMN, self.y + 1, Color::Dragon, Color::Black, to_cp437('\u{2551}'));
        assert(ctx.drawn() =~= old(ctx).drawn() + self@.sprite());
    }

    /// One physics step. The speed is rounded toward zero before it moves the
    /// dragon, so a slow rise or fall leaves the row unchanged.
    pub fn gravity_and_move(&mut self)
        requires
            old(self)@.gravity_and_move().fits(),
        ensures
            final(self)@ == old(self)@.gravity_and_move(),
    {
        if self.velocity < TERMINAL_VELOCITY {
            self.velocity += GRAVITY;
        }
        let y: i64 = self.y as i64 + (self.velocity / VELOCITY_SCALE) as i64;
        self.x += 1;
        if y < 0 {
            self.y = 0;
        } else {
            self.y = y as i32;
        }
    }

    /// A nudge ahead. The dragon keeps its column: only the physics step
    /// carries it forward.
    pub fn move_forward(&mut self)
        ensures
            final(self)@ == old(self)@.move_forward(),
    {
    }

    /// A nudge back, by one column.
    pub fn move_backwards(&mut self)
        requires
            old(self)@.move_backwards().fits(),
        ensures
            final(self)@ == old(self)@.move_backwards(),
    {
        self.x -= 1;
    }

    /// A flap: the dragon rises at full speed, whatever its speed was.
    pub fn flap(&mut self)
        ensures
            final(self)@ == old(self)@.flap(),
    {
        self.velocity = FLAP_VELOCITY;
    }
}

/// However long the dragon falls, gravity never takes it past the terminal
/// velocity and it never leaves the screen through the top. This holds from
/// rest in particular.
pub proof fn lemma_fall_stays_valid(start: PlayerView, steps: nat)
    requires
        start.wf(),
    ensures
        start.falls(steps).wf(),
        start.falls(steps).velocity <= TERMINAL_VELOCITY,
        start.falls(steps).y >= 0,
    decreases steps,
{
    if steps > 0 {
        lemma_fall_stays_valid(start, (steps - 1) as nat);
    }
}

/// Flapping twice in a row is the same as flapping once: the speed is set,
/// not added to.
pub proof fn lemma_flap_is_idempotent(player: PlayerView)
    ensures
        player.flap().velocity == FLAP_VELOCITY,
        player.flap().flap() == player.flap(),
{
}

/// The number of physics steps after which a dragon left alone is sure to
/// have fallen out of the field, wherever it started.
pub const FALL_STEPS: i32 = 46;

/// While it falls, the dragon gains speed with every step up to the terminal
/// velocity, and from then on loses two rows per step.
proof fn lemma_fall_gains(start: PlayerView, steps: nat)
    requires
        start.wf(),
    ensures
        start.falls(steps).wf(),
        start.falls(steps).velocity >= TERMINAL_VELOCITY || start.falls(steps).velocity
            >= start.velocity + steps,
        steps >= 20 ==> start.falls(steps).y >= 2 * (steps - 20),
    decreases steps,
{
    if steps > 0 {
        lemma_fall_gains(start, (steps - 1) as nat);
    }
}

/// Left alone, the dragon falls out of the field: from wherever it starts,
/// after `FALL_STEPS` physics steps or more it is below the last row.
pub proof fn lemma_fall_leaves_field(start: PlayerView, steps: nat)
    requires
        start.wf(),
        steps >= FALL_STEPS,
    ensures
        start.falls(steps).y > SCREEN_HEIGHT,
{
    lemma_fall_gains(start, steps);
}

/// The rows that a dragon starting at rest has fallen after `steps` physics
/// steps: none for the first four, one a step for the next five, then two.
pub open spec fn rest_fall(steps: nat) -> int {
    if steps <= 4 {
        0
    } else if steps <= 9 {
        steps - 4
    } else {
        2 * steps - 13
    }
}

/// The fall of a dragon that starts at rest, in closed form.
pub proof fn lemma_fall_from_rest(start: PlayerView, steps: nat)
    requires
        start.velocity == 0,
        start.y >= 0,
    ensures
        start.falls(steps).x == start.x + steps,
        start.falls(steps).y == start.y + rest_fall(steps),
        start.falls(steps).velocity == if steps < TERMINAL_VELOCITY {
            steps as int
        } else {
            TERMINAL_VELOCITY as int
        },
    decreases steps,
{
    if steps > 0 {
        lemma_fall_from_rest(start, (steps - 1) as nat);
    }
}

} // verus!
