//! The session and the screens: what one frame does to the game.

use crate::baddie::{Baddie, ROAM_BOTTOM, ROAM_TOP};
use crate::field::{FRAME_DURATION, SCREEN_HEIGHT, SCREEN_WIDTH};
use crate::frame::{Color, CommandView, Frame};
use crate::input::{Event, GameMode, Key};
use crate::obstacle::{gap_size, Obstacle, BASE_SIZE, GAP_BOTTOM, GAP_TOP, MIN_SIZE};
use crate::player::{
    lemma_fall_from_rest, Player, PlayerView, FLAP_VELOCITY, GRAVITY, TERMINAL_VELOCITY,
    VELOCITY_SCALE,
};
use crate::text::{reached_line, reached_text, score_line, score_text};
use vstd::prelude::*;

verus! {

/// The column in which the dragon starts a run.
pub const ORIGIN_X: i32 = 5;

/// The row on which the dragon starts a run.
pub const ORIGIN_Y: i32 = 25;

/// How far beyond the next barrier's column a horde appears.
pub const HORDE_LEAD: i32 = 20;

/// The game: the dragon, the barrier and the adversary ahead of it, the
/// score, the time since the last physics step in microseconds, and the
/// screen that is showing.
#[derive(Clone, Copy, Debug, PartialEq, Eq, Structural)]
pub struct State {
    pub player: Player,
    pub frame_time: u64,
    pub mode: GameMode,
    pub obstacle: Obstacle,
    pub baddie: Baddie,
    pub score: i32,
}

/// The time since the last physics step once `elapsed` more microseconds
/// have passed. It stops counting at the largest number it can hold, which
/// is past the duration of a frame.
pub open spec fn accumulated(frame_time: u64, elapsed: u64) -> u64 {
    if frame_time + elapsed > u64::MAX {
        u64::MAX
    } else {
        (frame_time + elapsed) as u64
    }
}

/// What a key does to the dragon while playing.
pub open spec fn steered(player: PlayerView, event: Option<Event>) -> PlayerView {
    match event {
        Some(Event::Thrust) => player.flap(),
        Some(Event::NudgeForward) => player.move_forward(),
        Some(Event::NudgeBackward) => player.move_backwards(),
        _ => player,
    }
}

/// The main menu.
pub open spec fn menu_screen() -> Seq<CommandView> {
    seq![
        CommandView::Cls,
        CommandView::PrintCentered { y: 5, text: "Welcome to Flappy Dragon"@ },
        CommandView::PrintCentered { y: 10, text: "(P) Play Game"@ },
        CommandView::PrintCentered { y: 15, text: "(H) High Scores"@ },
        CommandView::PrintCentered { y: 20, text: "(Q) Quit Game"@ },
    ]
}

/// The high-score screen after a run that reached `score`.
pub open spec fn high_score_screen(score: int) -> Seq<CommandView> {
    seq![
        CommandView::Cls,
        CommandView::PrintCentered { y: 5, text: "High Scores"@ },
        CommandView::PrintCentered { y: 7, text: "TEST........."@ },
        CommandView::PrintCentered { y: 9, text: reached_line(score) },
        CommandView::PrintCentered { y: 12, text: "(P) Play Again"@ },
        CommandView::PrintCentered { y: 15, text: "(Q) Quit"@ },
    ]
}

/// The screen shown after a run that ended at `score`.
pub open spec fn dead_screen(score: int) -> Seq<CommandView> {
    seq![
        CommandView::Cls,
        CommandView::PrintCentered { y: 5, text: "Yo you're dead!"@ },
        CommandView::PrintCentered { y: 6, text: reached_line(score) },
        CommandView::PrintCentered { y: 10, text: "(P) Play Again"@ },
        CommandView::PrintCentered { y: 15, text: "(H) High Scores"@ },
        CommandView::PrintCentered { y: 20, text: "(Q) Quit"@ },
    ]
}

/// Where the dragon starts a run, at rest.
pub open spec fn origin() -> PlayerView {
    PlayerView { x: ORIGIN_X as int, y: ORIGIN_Y as int, velocity: 0 }
}

/// The number of physics steps that a run lasts if no key is pressed.
pub const IDLE_STEPS: i32 = 20;

impl State {
    /// What holds of the game between any two frames: the dragon is valid,
    /// so is the barrier, and the gap is as wide as the score allows.
    pub open spec fn wf(&self) -> bool {
        &&& self.player@.wf()
        &&& self.obstacle.wf()
        &&& self.score >= 0
        &&& self.obstacle.size == gap_size(self.score as int)
    }

    /// A frame of play that brings `elapsed` more microseconds makes a
    /// physics step: with them, more than the duration of a frame has gone
    /// by since the last step.
    pub open spec fn due(&self, elapsed: u64) -> bool {
        accumulated(self.frame_time, elapsed) > FRAME_DURATION
    }

    /// The dragon after the key of a frame and, if a physics step is due,
    /// after that step. The key comes first.
    pub open spec fn moved(&self, ctx: Frame) -> PlayerView {
        let steered = steered(self.player@, GameMode::Playing.binding(ctx.key));
        if self.due(ctx.elapsed) {
            steered.gravity_and_move()
        } else {
            steered
        }
    }

    /// Every number that a frame of play computes from this game and `ctx`
    /// is in the range of `i32`: where the dragon gets to, where barrier and
    /// adversary show on the screen, and, if the dragon gets past them, the
    /// column of the next horde, the next score and the column and the gap
    /// of the next barrier.
    pub open spec fn has_room(&self, ctx: Frame) -> bool {
        let player = self.moved(ctx);
        &&& steered(self.player@, GameMode::Playing.binding(ctx.key)).fits()
        &&& player.fits()
        &&& player.y < i32::MAX
        &&& self.obstacle.drawable(player.x)
        &&& i32::MIN <= self.baddie.x - player.x <= i32::MAX
        &&& player.x > self.baddie.x ==> player.x + SCREEN_WIDTH + HORDE_LEAD <= i32::MAX
        &&& player.x > self.obstacle.x ==> {
            &&& player.x + SCREEN_WIDTH <= i32::MAX
            &&& self.score < i32::MAX
            &&& BASE_SIZE - (self.score + 1) <= i32::MAX
        }
    }

    /// The game can take the frame `ctx`. Only a frame of play computes
    /// anything that could leave the range of `i32`.
    pub open spec fn ready(&self, ctx: Frame) -> bool {
        self.mode == GameMode::Playing ==> self.has_room(ctx)
    }

    /// The game as a new run starts it: the dragon at rest at its origin, no
    /// points, the widest gap one screen ahead, and the play screen showing.
    pub open spec fn fresh(&self) -> bool {
        &&& self.player@ == origin()
        &&& self.frame_time == 0
        &&& self.mode == GameMode::Playing
        &&& self.obstacle.x == SCREEN_WIDTH
        &&& self.obstacle.wf()
        &&& self.obstacle.size == BASE_SIZE
        &&& self.baddie == (Baddie { x: SCREEN_WIDTH, y: 0 })
        &&& self.score == 0
    }

    /// The play screen: the sky, the dragon, the hint and the score, then the
    /// barrier and the adversary where they stand relative to the dragon.
    pub open spec fn play_screen(&self) -> Seq<CommandView> {
        seq![CommandView::ClsBg { background: Color::Navy }] + self.player@.sprite() + seq![
            CommandView::Print { x: 0, y: 0, text: "Press SPACE to flap"@ },
            CommandView::Print { x: 0, y: 1, text: score_line(self.score as int) },
        ] + self.obstacle.walls(self.player.x as int) + self.baddie.mark(self.player.x as int)
    }

    /// One frame on the main menu. The menu is drawn; "play" starts a run,
    /// "high scores" turns to that screen and draws it over the menu, "quit"
    /// asks to leave.
    pub open spec fn in_main_menu(pre: State, ctx: Frame, post: State, out: Frame) -> bool {
        match GameMode::Menu.binding(ctx.key) {
            Some(Event::SelectPlay) => {
                &&& post.fresh()
                &&& Frame::answers(ctx, out, menu_screen(), false)
            },
            Some(Event::SelectHighScore) => {
                &&& post == (State { mode: GameMode::HighScore, ..pre })
                &&& Frame::answers(
                    ctx,
                    out,
                    menu_screen() + high_score_screen(pre.score as int),
                    false,
                )
            },
            Some(Event::SelectQuit) => {
                &&& post == pre
                &&& Frame::answers(ctx, out, menu_screen(), true)
            },
            _ => {
                &&& post == pre
                &&& Frame::answers(ctx, out, menu_screen(), false)
            },
        }
    }

    /// One frame on the high-score screen. The screen becomes the active one
    /// and is drawn with the score of the last run; "play" starts a run,
    /// "quit" asks to leave.
    pub open spec fn in_high_score(pre: State, ctx: Frame, post: State, out: Frame) -> bool {
        match GameMode::HighScore.binding(ctx.key) {
            Some(Event::SelectPlay) => {
                &&& post.fresh()
                &&& Frame::answers(ctx, out, high_score_screen(pre.score as int), false)
            },
            Some(Event::SelectQuit) => {
                &&& post == (State { mode: GameMode::HighScore, ..pre })
                &&& Frame::answers(ctx, out, high_score_screen(pre.score as int), true)
            },
            _ => {
                &&& post == (State { mode: GameMode::HighScore, ..pre })
                &&& Frame::answers(ctx, out, high_score_screen(pre.score as int), false)
            },
        }
    }

    /// One frame after the run has ended. The screen is drawn with the score
    /// reached; the keys do what they do on the main menu.
    pub open spec fn in_dead(pre: State, ctx: Frame, post: State, out: Frame) -> bool {
        match GameMode::End.binding(ctx.key) {
            Some(Event::SelectPlay) => {
                &&& post.fresh()
                &&& Frame::answers(ctx, out, dead_screen(pre.score as int), false)
            },
            Some(Event::SelectHighScore) => {
                &&& post == (State { mode: GameMode::HighScore, ..pre })
                &&& Frame::answers(
                    ctx,
                    out,
                    dead_screen(pre.score as int) + high_score_screen(pre.score as int),
                    false,
                )
            },
            Some(Event::SelectQuit) => {
                &&& post == pre
                &&& Frame::answers(ctx, out, dead_screen(pre.score as int), true)
            },
            _ => {
                &&& post == pre
                &&& Frame::answers(ctx, out, dead_screen(pre.score as int), false)
            },
        }
    }

    /// One frame of play, in this order. The time of the frame is added to
    /// the time since the last physics step. The key steers the dragon. If
    /// more than the duration of a frame has now gone by since the last
    /// step, one step is made, however late it is, and the time starts again
    /// from zero. The screen is drawn. A dragon that has passed the adversary may meet a new horde, of
    /// which the last one stays. A dragon that has passed the barrier scores
    /// a point and finds the next barrier one screen ahead. The run ends if
    /// the dragon is below the field or in the barrier.
    pub open spec fn in_play(pre: State, ctx: Frame, post: State, out: Frame) -> bool {
        let player = pre.moved(ctx);
        let passed = player.x > pre.obstacle.x;
        &&& post.player@ == player
        &&& post.frame_time == if pre.due(ctx.elapsed) {
            0
        } else {
            accumulated(pre.frame_time, ctx.elapsed)
        }
        &&& Frame::answers(
            ctx,
            out,
            (State { player: post.player, ..pre }).play_screen(),
            false,
        )
        &&& post.baddie == pre.baddie || {
            &&& player.x > pre.baddie.x
            &&& post.baddie.x == player.x + SCREEN_WIDTH + HORDE_LEAD
            &&& ROAM_TOP <= post.baddie.y < ROAM_BOTTOM
        }
        &&& post.score == if passed {
            pre.score + 1
        } else {
            pre.score as int
        }
        &&& if passed {
            &&& post.obstacle.x == player.x + SCREEN_WIDTH
            &&& post.obstacle.wf()
            &&& post.obstacle.size == gap_size(post.score as int)
        } else {
            post.obstacle == pre.obstacle
        }
        &&& post.mode == if player.y > SCREEN_HEIGHT || post.obstacle.hits(player) {
            GameMode::End
        } else {
            pre.mode
        }
    }

    /// One frame, whatever the screen: the active screen takes it. The time
    /// of the frame counts on every screen. A frame of play counts it
    /// itself; for the other screens it is added before they take the frame.
    pub open spec fn ticked(pre: State, ctx: Frame, post: State, out: Frame) -> bool {
        let timed = State { frame_time: accumulated(pre.frame_time, ctx.elapsed), ..pre };
        match pre.mode {
            GameMode::Menu => State::in_main_menu(timed, ctx, post, out),
            GameMode::HighScore => State::in_high_score(timed, ctx, post, out),
            GameMode::Playing => State::in_play(pre, ctx, post, out),
            GameMode::End => State::in_dead(timed, ctx, post, out),
        }
    }

    /// A stretch of the game in which no key is pressed and every frame is
    /// long enough for a physics step: `states[i]` becomes `states[i + 1]`
    /// by frame `frames[i]`, which is answered by `outs[i]`.
    pub open spec fn idle_run(states: Seq<State>, frames: Seq<Frame>, outs: Seq<Frame>) -> bool {
        &&& states.len() == frames.len() + 1
        &&& outs.len() == frames.len()
        &&& forall|i: int|
            0 <= i < frames.len() ==> {
                &&& (#[trigger] frames[i]).key is None
                &&& frames[i].elapsed > FRAME_DURATION
                &&& State::ticked(states[i], frames[i], states[i + 1], outs[i])
            }
    }

    /// The game as it is when the program starts: on the main menu, with a
    /// run laid out behind it.
    pub fn new() -> (state: State)
        ensures
            state.mode == GameMode::Menu,
            state.player@ == origin(),
            state.frame_time == 0,
            state.score == 0,
            state.obstacle.x == SCREEN_WIDTH,
            state.obstacle.size == BASE_SIZE,
            state.baddie == (Baddie { x: 15, y: 25 }),
            state.wf(),
    {
        State {
            mode: GameMode::Menu,
            player: Player::new(ORIGIN_X, ORIGIN_Y),
            frame_time: 0,
            score: 0,
            obstacle: Obstacle::new(SCREEN_WIDTH, 0),
            baddie: Baddie::new(15, 25),
        }
    }

    /// Whether the game is valid.
    pub fn is_wf(&self) -> (valid: bool)
        ensures
            valid == self.wf(),
    {
        let player = &self.player;
        let obstacle = &self.obstacle;
        let player_valid = player.y >= 0 && FLAP_VELOCITY <= player.velocity && player.velocity
            <= TERMINAL_VELOCITY;
        let obstacle_valid = GAP_TOP <= obstacle.gap_y && obstacle.gap_y < GAP_BOTTOM
            && obstacle.size >= MIN_SIZE;
        let size_matches = self.score >= 0 && if BASE_SIZE - self.score > MIN_SIZE {
            obstacle.size == BASE_SIZE - self.score
        } else {
            obstacle.size == MIN_SIZE
        };
        player_valid && obstacle_valid && size_matches
    }

    /// Whether a frame of play that takes `ctx` stays in the range of `i32`.
    pub fn is_roomy(&self, ctx: &Frame) -> (roomy: bool)
        ensures
            roomy == self.has_room(*ctx),
    {
        let least: i64 = i32::MIN as i64;
        let most: i64 = i32::MAX as i64;
        let mut x: i64 = self.player.x as i64;
        let mut y: i64 = self.player.y as i64;
        let mut velocity: i64 = self.player.velocity as i64;
        match GameMode::Playing.event(ctx.key) {
            Some(Event::Thrust) => {
                velocity = FLAP_VELOCITY as i64;
            },
            Some(Event::NudgeBackward) => {
                x = x - 1;
            },
            _ => {},
        }
        let steered_fits = least <= x;
        if self.frame_time.saturating_add(ctx.elapsed) > FRAME_DURATION {
            if velocity < TERMINAL_VELOCITY as i64 {
                velocity = velocity + GRAVITY as i64;
            }
            y = y + velocity / (VELOCITY_SCALE as i64);
            if y < 0 {
                y = 0;
            }
            x = x + 1;
        }
        let player_fits = least <= x && x <= most && y < most;
        let obstacle_x: i64 = self.obstacle.x as i64;
        let gap_y: i64 = self.obstacle.gap_y as i64;
        let half_size: i64 = (self.obstacle.size / 2) as i64;
        let obstacle_fits = least <= obstacle_x - x && obstacle_x - x <= most && least <= gap_y
            - half_size && gap_y - half_size <= most && least <= gap_y + half_size && gap_y
            + half_size <= most;
        let baddie_x: i64 = self.baddie.x as i64;
        let baddie_fits = least <= baddie_x - x && baddie_x - x <= most;
        let horde_fits = x <= baddie_x || x + SCREEN_WIDTH as i64 + HORDE_LEAD as i64 <= most;
        let score_fits = x <= obstacle_x || (x + SCREEN_WIDTH as i64 <= most && self.score
            < i32::MAX && BASE_SIZE as i64 - (self.score as i64 + 1) <= most);
        steered_fits && player_fits && obstacle_fits && baddie_fits && horde_fits && score_fits
    }

    /// Whether the game can take the frame `ctx`.
    pub fn is_ready(&self, ctx: &Frame) -> (ready: bool)
        ensures
            ready == self.ready(*ctx),
    {
        self.mode != GameMode::Playing || self.is_roomy(ctx)
    }

    /// Starts a run, whatever went before.
    pub fn restart(&mut self)
        ensures
            final(self).fresh(),
            final(self).wf(),
    {
        self.player = Player::new(ORIGIN_X, ORIGIN_Y);
        self.frame_time = 0;
        self.obstacle = Obstacle::new(SCREEN_WIDTH, 0);
        self.baddie = Baddie::new(SCREEN_WIDTH, 0);
        self.mode = GameMode::Playing;
        self.score = 0;
    }

    /// Takes one frame on the main menu.
    pub fn main_menu(&mut self, ctx: &mut Frame)
        ensures
            State::in_main_menu(*old(self), *old(ctx), *final(self), *final(ctx)),
            old(self).wf() ==> final(self).wf(),
    {
        ctx.cls();
        ctx.print_centered(5, "Welcome to Flappy Dragon");
        ctx.print_centered(10, "(P) Play Game");
        ctx.print_centered(15, "(H) High Scores");
        ctx.print_centered(20, "(Q) Quit Game");
        assert(ctx.drawn() =~= old(ctx).drawn() + menu_screen());
        match GameMode::Menu.event(ctx.key) {
            Some(Event::SelectPlay) => self.restart(),
            Some(Event::SelectHighScore) => {
                self.high_score(ctx);
                assert(ctx.drawn() =~= old(ctx).drawn() + (menu_screen() + high_score_screen(
                    old(self).score as int,
                )));
            },
            Some(Event::SelectQuit) => {
                ctx.quit();
                assert(ctx.drawn() =~= old(ctx).drawn() + menu_screen());
            },
            _ => {},
        }
    }

    /// Takes one frame on the high-score screen, and makes it the active one.
    pub fn high_score(&mut self, ctx: &mut Frame)
        ensures
            State::in_high_score(*old(self), *old(ctx), *final(self), *final(ctx)),
            old(self).wf() ==> final(self).wf(),
    {
        ctx.cls();
        self.mode = GameMode::HighScore;
        ctx.print_centered(5, "High Scores");
        ctx.print_centered(7, "TEST.........");
        let reached = reached_text(self.score);
        ctx.print_centered(9, reached.as_str());
        ctx.print_centered(12, "(P) Play Again");
        ctx.print_centered(15, "(Q) Quit");
        assert(ctx.drawn() =~= old(ctx).drawn() + high_score_screen(old(self).score as int));
        match GameMode::HighScore.event(ctx.key) {
            Some(Event::SelectPlay) => self.restart(),
            Some(Event::SelectQuit) => {
                ctx.quit();
                assert(ctx.drawn() =~= old(ctx).drawn() + high_score_screen(
                    old(self).score as int,
                ));
            },
            _ => {},
        }
    }

    /// Keeps the last adversary of a horde as the one ahead of the dragon.
    /// An empty horde leaves the one that was there.
    pub fn retain_last(&mut self, horde: Vec<Baddie>)
        ensures
            final(self).baddie == if horde.len() > 0 {
                horde[horde.len() - 1]
            } else {
                old(self).baddie
            },
            *final(self) == (State { baddie: final(self).baddie, ..*old(self) }),
    {
        let mut i: usize = 0;
        while i < horde.len()
            invariant
                i <= horde.len(),
                self.baddie == if i > 0 {
                    horde[i - 1]
                } else {
                    old(self).baddie
                },
                *self == (State { baddie: self.baddie, ..*old(self) }),
            decreases horde.len() - i,
        {
            self.baddie = horde[i];
            i += 1;
        }
    }

    /// Takes one frame of play. It counts the time of the frame itself: a
    /// physics step is due once the time since the last step, with that of
    /// this frame, is more than the duration of a frame.
    pub fn play(&mut self, ctx: &mut Frame)
        requires
            old(self).has_room(*old(ctx)),
        ensures
            State::in_play(*old(self), *old(ctx), *final(self), *final(ctx)),
            old(self).wf() ==> final(self).wf(),
    {
        ctx.cls_bg(Color::Navy);
        self.frame_time = self.frame_time.saturating_add(ctx.elapsed);
        match GameMode::Playing.event(ctx.key) {
            Some(Event::Thrust) => self.player.flap(),
            Some(Event::NudgeForward) => self.player.move_forward(),
            Some(Event::NudgeBackward) => self.player.move_backwards(),
            _ => {},
        }
        if self.frame_time > FRAME_DURATION {
            self.frame_time = 0;
            self.player.gravity_and_move();
        }
        self.player.render(ctx);
        ctx.print(0, 0, "Press SPACE to flap");
        let score = score_text(self.score);
        ctx.print(0, 1, score.as_str());
        self.obstacle.render(ctx, self.player.x);
        self.baddie.render(ctx, self.player.x);
        assert(ctx.drawn() =~= old(ctx).drawn() + (State {
            player: self.player,
            ..*old(self)
        }).play_screen());
        if self.player.x > self.baddie.x {
            let horde = Baddie::spawn(self.player.x + SCREEN_WIDTH + HORDE_LEAD);
            self.retain_last(horde);
        }
        if self.player.x > self.obstacle.x {
            self.score += 1;
            self.obstacle = Obstacle::new(self.player.x + SCREEN_WIDTH, self.score);
        }
        self.baddie.hit_baddie();
        if self.player.y > SCREEN_HEIGHT || self.obstacle.hit_obstacle(&self.player) {
            self.mode = GameMode::End;
        }
    }

    /// Takes one frame after the run has ended.
    pub fn dead(&mut self, ctx: &mut Frame)
        ensures
            State::in_dead(*old(self), *old(ctx), *final(self), *final(ctx)),
            old(self).wf() ==> final(self).wf(),
    {
        ctx.cls();
        ctx.print_centered(5, "Yo you're dead!");
        let reached = reached_text(self.score);
        ctx.print_centered(6, reached.as_str());
        ctx.print_centered(10, "(P) Play Again");
        ctx.print_centered(15, "(H) High Scores");
        ctx.print_centered(20, "(Q) Quit");
        assert(ctx.drawn() =~= old(ctx).drawn() + dead_screen(old(self).score as int));
        match GameMode::End.event(ctx.key) {
            Some(Event::SelectPlay) => self.restart(),
            Some(Event::SelectHighScore) => {
                self.high_score(ctx);
                assert(ctx.drawn() =~= old(ctx).drawn() + (dead_screen(old(self).score as int)
                    + high_score_screen(old(self).score as int)));
            },
            Some(Event::SelectQuit) => {
                ctx.quit();
                assert(ctx.drawn() =~= old(ctx).drawn() + dead_screen(old(self).score as int));
            },
            _ => {},
        }
    }

    /// Takes one frame: hands it to the active screen, and counts its time
    /// for the screens that do not count it themselves. A change of screen
    /// shows from the next frame on.
    pub fn tick(&mut self, ctx: &mut Frame)
        requires
            old(self).ready(*old(ctx)),
        ensures
            State::ticked(*old(self), *old(ctx), *final(self), *final(ctx)),
            old(self).wf() ==> final(self).wf(),
    {
        match self.mode {
            GameMode::Menu => {
                self.frame_time = self.frame_time.saturating_add(ctx.elapsed);
                self.main_menu(ctx)
            },
            GameMode::HighScore => {
                self.frame_time = self.frame_time.saturating_add(ctx.elapsed);
                self.high_score(ctx)
            },
            GameMode::Playing => self.play(ctx),
            GameMode::End => {
                self.frame_time = self.frame_time.saturating_add(ctx.elapsed);
                self.dead(ctx)
            },
        }
    }
}

/// Starting a run from any screen that offers it resets the game: no points,
/// and the dragon at rest at its origin, whatever the game was before.
pub proof fn lemma_play_starts_afresh(pre: State, ctx: Frame, post: State, out: Frame)
    requires
        State::ticked(pre, ctx, post, out),
        pre.mode != GameMode::Playing,
        ctx.key == Some(Key::P),
    ensures
        post.fresh(),
        post.score == 0,
        post.player@ == origin(),
        post.mode == GameMode::Playing,
{
}

/// On every screen but the play screen, the quit key raises the request to
/// leave, whatever the score and wherever the dragon is, and changes nothing
/// of the run.
pub proof fn lemma_quit_asks_to_leave(pre: State, ctx: Frame, post: State, out: Frame)
    requires
        State::ticked(pre, ctx, post, out),
        pre.mode != GameMode::Playing,
        ctx.key == Some(Key::Q),
    ensures
        out.quitting,
        post.player == pre.player,
        post.obstacle == pre.obstacle,
        post.baddie == pre.baddie,
        post.score == pre.score,
{
}

/// Only the quit key on a screen other than the play screen raises the
/// request to leave.
pub proof fn lemma_only_quit_asks_to_leave(pre: State, ctx: Frame, post: State, out: Frame)
    requires
        State::ticked(pre, ctx, post, out),
        !ctx.quitting,
    ensures
        out.quitting <==> pre.mode != GameMode::Playing && ctx.key == Some(Key::Q),
{
}

/// A frame of play in which the dragon gets past the barrier scores exactly
/// one point and puts the next barrier one screen ahead of the dragon, with
/// the gap that the new score allows. Any other frame of play leaves score
/// and barrier as they were.
pub proof fn lemma_passing_scores(pre: State, ctx: Frame, post: State, out: Frame)
    requires
        State::ticked(pre, ctx, post, out),
        pre.mode == GameMode::Playing,
    ensures
        post.player.x > pre.obstacle.x ==> {
            &&& post.score == pre.score + 1
            &&& post.obstacle.x == post.player.x + SCREEN_WIDTH
            &&& post.obstacle.size == gap_size(post.score as int)
        },
        post.player.x <= pre.obstacle.x ==> {
            &&& post.score == pre.score
            &&& post.obstacle == pre.obstacle
        },
{
}

/// A frame of play ends the run exactly if it leaves the dragon below the
/// field or in the barrier. A run that goes on has the dragon inside the
/// field and clear of the barrier.
pub proof fn lemma_run_ends_on_fall_or_hit(pre: State, ctx: Frame, post: State, out: Frame)
    requires
        State::ticked(pre, ctx, post, out),
        pre.mode == GameMode::Playing,
    ensures
        post.mode == GameMode::End <==> post.player.y > SCREEN_HEIGHT || post.obstacle.hits(
            post.player@,
        ),
        post.mode == GameMode::End || post.mode == GameMode::Playing,
{
}

/// A frame changes the screen only along the arrows of the game: from the
/// menu and from the end of a run to play or to the high scores, from the
/// high scores to play, and from play to the end of the run.
pub proof fn lemma_screens_follow_the_arrows(pre: State, ctx: Frame, post: State, out: Frame)
    requires
        State::ticked(pre, ctx, post, out),
    ensures
        post.mode == pre.mode || match pre.mode {
            GameMode::Menu => post.mode == GameMode::Playing || post.mode == GameMode::HighScore,
            GameMode::HighScore => post.mode == GameMode::Playing,
            GameMode::Playing => post.mode == GameMode::End,
            GameMode::End => post.mode == GameMode::Playing || post.mode == GameMode::HighScore,
        },
        ctx.key is None && pre.mode != GameMode::Playing ==> post.mode == pre.mode,
{
}

/// While a fresh run is left alone, the dragon falls as from rest and
/// nothing else changes, until the step that takes it out of the field.
proof fn lemma_idle_run_falls(states: Seq<State>, frames: Seq<Frame>, outs: Seq<Frame>, steps: nat)
    requires
        State::idle_run(states, frames, outs),
        states[0].fresh(),
        steps <= frames.len(),
        steps <= IDLE_STEPS,
    ensures
        states[steps as int].player@ == origin().falls(steps),
        states[steps as int].score == 0,
        states[steps as int].mode == if steps < IDLE_STEPS {
            GameMode::Playing
        } else {
            GameMode::End
        },
        steps < IDLE_STEPS ==> {
            &&& states[steps as int].frame_time == 0
            &&& states[steps as int].obstacle.x == SCREEN_WIDTH
            &&& states[steps as int].baddie.x == SCREEN_WIDTH
        },
    decreases steps,
{
    if steps > 0 {
        let before = (steps - 1) as nat;
        lemma_idle_run_falls(states, frames, outs, before);
        lemma_fall_from_rest(origin(), before);
        lemma_fall_from_rest(origin(), steps);
        assert(frames[before as int].key is None);
        assert(State::ticked(
            states[before as int],
            frames[before as int],
            states[steps as int],
            outs[before as int],
        ));
    }
}

/// A fresh run that is left alone ends by itself: with no key pressed and a
/// physics step in every frame, the dragon falls for `IDLE_STEPS` frames
/// without a point scored, and the frame that takes it below the field turns
/// to the end screen. Wherever the gap is, the barrier is never reached.
pub proof fn lemma_idle_run_ends(states: Seq<State>, frames: Seq<Frame>, outs: Seq<Frame>)
    requires
        State::idle_run(states, frames, outs),
        states[0].fresh(),
        frames.len() >= IDLE_STEPS,
    ensures
        forall|i: int| 0 <= i < IDLE_STEPS ==> (#[trigger] states[i]).mode == GameMode::Playing,
        states[IDLE_STEPS as int].mode == GameMode::End,
        states[IDLE_STEPS as int].player.y > SCREEN_HEIGHT,
        states[IDLE_STEPS as int].score == 0,
{
    assert forall|i: int| 0 <= i < IDLE_STEPS implies (#[trigger] states[i]).mode
        == GameMode::Playing by {
        lemma_idle_run_falls(states, frames, outs, i as nat);
    }
    lemma_idle_run_falls(states, frames, outs, IDLE_STEPS as nat);
    lemma_fall_from_rest(origin(), IDLE_STEPS as nat);
}

} // verus!
