use flappy_dragon::{Baddie, Color, Command, Frame, GameMode, Key, Obstacle, Player, State};

const STEP: u64 = 80_000;

fn run(player: Player, obstacle: Obstacle, baddie: Baddie, score: i32) -> State {
    State { player, frame_time: 0, mode: GameMode::Playing, obstacle, baddie, score }
}

fn far_baddie() -> Baddie {
    Baddie::new(100_000, 12)
}

fn wall(x: i32, y: i32) -> Command {
    Command::Put { x, y, fg: Color::Red, bg: Color::Black, glyph: 124 }
}

#[test]
fn no_step_before_the_frame_is_over() {
    let mut state = run(Player::new(5, 25), Obstacle::with_gap(80, 25, 0), far_baddie(), 0);
    let before = state;
    let mut frame = Frame::new(None, 75_000);
    state.tick(&mut frame);
    assert_eq!(state, State { frame_time: 75_000, ..before });
    let mut frame = Frame::new(None, 1);
    state.tick(&mut frame);
    assert_eq!(state.player, Player { x: 6, y: 25, velocity: 1 });
    assert_eq!(state.frame_time, 0);
}

#[test]
fn time_adds_up_over_frames() {
    let mut state = run(Player::new(5, 25), Obstacle::with_gap(80, 25, 0), far_baddie(), 0);
    for elapsed in [16_000, 16_000, 16_000, 16_000] {
        let mut frame = Frame::new(None, elapsed);
        state.tick(&mut frame);
        assert_eq!(state.player.x, 5);
    }
    assert_eq!(state.frame_time, 64_000);
    let mut frame = Frame::new(None, 16_000);
    state.tick(&mut frame);
    assert_eq!(state.player.x, 6);
    assert_eq!(state.frame_time, 0);
}

#[test]
fn one_step_a_frame_however_late() {
    let mut state = run(Player::new(5, 25), Obstacle::with_gap(80, 25, 0), far_baddie(), 0);
    let mut frame = Frame::new(None, 1_000_000);
    state.tick(&mut frame);
    assert_eq!(state.player, Player { x: 6, y: 25, velocity: 1 });
    assert_eq!(state.frame_time, 0);
}

#[test]
fn thrust_acts_at_once() {
    let mut state = run(Player::new(5, 25), Obstacle::with_gap(80, 25, 0), far_baddie(), 0);
    let mut frame = Frame::new(Some(Key::Space), 1_000);
    state.tick(&mut frame);
    assert_eq!(state.player, Player { x: 5, y: 25, velocity: -10 });
}

#[test]
fn thrust_comes_before_the_step() {
    let mut state = run(Player::new(5, 25), Obstacle::with_gap(80, 25, 0), far_baddie(), 0);
    let mut frame = Frame::new(Some(Key::Space), STEP);
    state.tick(&mut frame);
    assert_eq!(state.player, Player { x: 6, y: 24, velocity: -9 });
}

#[test]
fn nudges_act_without_a_step() {
    let mut state = run(Player::new(5, 25), Obstacle::with_gap(80, 25, 0), far_baddie(), 0);
    let mut frame = Frame::new(Some(Key::W), 0);
    state.tick(&mut frame);
    assert_eq!(state.player, Player { x: 5, y: 25, velocity: 0 });
    let mut frame = Frame::new(Some(Key::Q), 0);
    state.tick(&mut frame);
    assert_eq!(state.player, Player { x: 4, y: 25, velocity: 0 });
    let mut frame = Frame::new(Some(Key::Q), STEP);
    state.tick(&mut frame);
    assert_eq!(state.player, Player { x: 4, y: 25, velocity: 1 });
}

#[test]
fn play_screen_is_drawn_in_order() {
    let mut state =
        run(Player::new(5, 25), Obstacle::with_gap(80, 25, 16), Baddie::new(90, 33), 16);
    let mut frame = Frame::new(None, STEP);
    state.tick(&mut frame);
    let fg = Color::Dragon;
    let bg = Color::Black;
    let mut expected = vec![
        Command::ClsBg { background: Color::Navy },
        Command::Put { x: 3, y: 25, fg, bg, glyph: 2 },
        Command::Put { x: 2, y: 25, fg, bg, glyph: 28 },
        Command::Put { x: 4, y: 25, fg, bg, glyph: 217 },
        Command::Put { x: 3, y: 26, fg, bg, glyph: 186 },
        Command::Print { x: 0, y: 0, text: "Press SPACE to flap".to_string() },
        Command::Print { x: 0, y: 1, text: "Score: 16".to_string() },
    ];
    for y in 0..23 {
        expected.push(wall(74, y));
    }
    for y in 27..50 {
        expected.push(wall(74, y));
    }
    expected.push(Command::Put { x: 84, y: 33, fg: Color::Red, bg, glyph: 35 });
    assert_eq!(frame.commands, expected);
    assert!(!frame.quitting);
}

#[test]
fn reaching_the_barrier_scores_nothing() {
    let mut state =
        run(Player { x: 79, y: 25, velocity: 0 }, Obstacle::with_gap(80, 25, 0), far_baddie(), 0);
    let before = state;
    let mut frame = Frame::new(None, STEP);
    state.tick(&mut frame);
    assert_eq!(state.player.x, 80);
    assert_eq!(state.score, 0);
    assert_eq!(state.obstacle, before.obstacle);
    assert_eq!(state.mode, GameMode::Playing);
}

#[test]
fn passing_the_barrier_scores_a_point() {
    let mut state =
        run(Player { x: 80, y: 25, velocity: 0 }, Obstacle::with_gap(80, 25, 0), far_baddie(), 0);
    let mut frame = Frame::new(None, STEP);
    state.tick(&mut frame);
    assert_eq!(state.player.x, 81);
    assert_eq!(state.score, 1);
    assert_eq!(state.obstacle.x, 161);
    assert_eq!(state.obstacle.size, 19);
    assert!(10 <= state.obstacle.gap_y && state.obstacle.gap_y < 40);
    assert_eq!(state.mode, GameMode::Playing);
    assert_eq!(state.baddie, far_baddie());
    assert!(state.is_wf());
}

#[test]
fn passed_barrier_is_still_on_the_screen_of_that_frame() {
    let mut state =
        run(Player { x: 80, y: 25, velocity: 0 }, Obstacle::with_gap(80, 25, 19), far_baddie(), 19);
    let mut frame = Frame::new(None, STEP);
    state.tick(&mut frame);
    assert_eq!(state.score, 20);
    assert_eq!(frame.commands[6], Command::Print { x: 0, y: 1, text: "Score: 19".to_string() });
    assert_eq!(frame.commands[7], wall(-1, 0));
}

#[test]
fn gap_narrows_with_the_score_down_to_two() {
    let mut state =
        run(Player { x: 80, y: 25, velocity: 0 }, Obstacle::with_gap(80, 25, 16), far_baddie(), 16);
    for (score, size) in [(17, 3), (18, 2), (19, 2), (20, 2)] {
        state.player = Player { x: state.obstacle.x, y: state.obstacle.gap_y, velocity: 0 };
        let mut frame = Frame::new(None, STEP);
        state.tick(&mut frame);
        state.frame_time = 0;
        assert_eq!(state.score, score);
        assert_eq!(state.obstacle.size, size);
        assert_eq!(state.obstacle.x, state.player.x + 80);
        assert_eq!(state.mode, GameMode::Playing);
    }
}

#[test]
fn flying_into_the_wall_ends_the_run() {
    let mut state =
        run(Player { x: 79, y: 40, velocity: 0 }, Obstacle::with_gap(80, 25, 0), far_baddie(), 0);
    let mut frame = Frame::new(None, STEP);
    state.tick(&mut frame);
    assert_eq!(state.player, Player { x: 80, y: 40, velocity: 1 });
    assert_eq!(state.mode, GameMode::End);
    assert_eq!(state.score, 0);
}

#[test]
fn flying_through_the_gap_goes_on() {
    let mut state =
        run(Player { x: 79, y: 35, velocity: 0 }, Obstacle::with_gap(80, 25, 0), far_baddie(), 0);
    let mut frame = Frame::new(None, STEP);
    state.tick(&mut frame);
    assert_eq!(state.player.x, 80);
    assert_eq!(state.mode, GameMode::Playing);
}

#[test]
fn nudging_back_into_the_wall_ends_the_run() {
    let mut state =
        run(Player { x: 81, y: 5, velocity: 0 }, Obstacle::with_gap(80, 25, 0), far_baddie(), 0);
    state.obstacle = Obstacle::with_gap(80, 25, 0);
    let mut frame = Frame::new(Some(Key::Q), 0);
    state.tick(&mut frame);
    assert_eq!(state.player.x, 80);
    assert_eq!(state.mode, GameMode::End);
}

#[test]
fn falling_out_of_the_field_ends_the_run() {
    let mut state =
        run(Player { x: 5, y: 49, velocity: 10 }, Obstacle::with_gap(80, 25, 0), far_baddie(), 0);
    let mut frame = Frame::new(None, STEP);
    state.tick(&mut frame);
    assert_eq!(state.player.y, 51);
    assert_eq!(state.mode, GameMode::End);
}

#[test]
fn last_row_of_the_field_is_still_inside() {
    let mut state =
        run(Player { x: 5, y: 48, velocity: 10 }, Obstacle::with_gap(80, 25, 0), far_baddie(), 0);
    let mut frame = Frame::new(None, STEP);
    state.tick(&mut frame);
    assert_eq!(state.player.y, 50);
    assert_eq!(state.mode, GameMode::Playing);
}

#[test]
fn fresh_run_left_alone_ends_after_twenty_steps() {
    let mut state = State::new();
    let mut frame = Frame::new(Some(Key::P), 16_000);
    state.tick(&mut frame);
    assert_eq!(state.mode, GameMode::Playing);
    assert_eq!(state.score, 0);
    assert_eq!(state.player, Player { x: 5, y: 25, velocity: 0 });
    for _ in 0..19 {
        let mut frame = Frame::new(None, STEP);
        assert!(state.is_ready(&frame));
        state.tick(&mut frame);
        assert_eq!(state.mode, GameMode::Playing);
    }
    let mut frame = Frame::new(None, STEP);
    state.tick(&mut frame);
    assert_eq!(state.player, Player { x: 25, y: 52, velocity: 10 });
    assert_eq!(state.mode, GameMode::End);
    assert_eq!(state.score, 0);
    let mut frame = Frame::new(None, STEP);
    state.tick(&mut frame);
    assert_eq!(state.mode, GameMode::End);
    assert_eq!(state.player, Player { x: 25, y: 52, velocity: 10 });
    assert_eq!(frame.commands[1], Command::PrintCentered { y: 5, text: "Yo you're dead!".to_string() });
    assert_eq!(
        frame.commands[2],
        Command::PrintCentered { y: 6, text: "You reached 0 points!".to_string() }
    );
}

#[test]
fn flapping_keeps_the_dragon_up() {
    let mut state = run(Player::new(5, 25), Obstacle::with_gap(80, 25, 0), far_baddie(), 0);
    for frame_no in 0..70 {
        let key = if state.player.y > 25 { Some(Key::Space) } else { None };
        let mut frame = Frame::new(key, STEP);
        state.tick(&mut frame);
        assert_eq!(state.mode, GameMode::Playing);
        assert_eq!(state.player.x, 6 + frame_no);
        assert!(state.player.y >= 0 && state.player.y <= 50);
        assert!(state.player.velocity >= -10 && state.player.velocity <= 10);
    }
    assert_eq!(state.score, 0);
    let mut scored = false;
    for _ in 0..10 {
        let key = if state.player.y > 25 { Some(Key::Space) } else { None };
        let mut frame = Frame::new(key, STEP);
        state.tick(&mut frame);
        scored = scored || state.score == 1;
    }
    assert!(scored);
    assert_eq!(state.score, 1);
    assert_eq!(state.obstacle.x, 81 + 80);
}

#[test]
fn passing_the_baddie_may_bring_a_horde() {
    let mut moved = 0;
    let mut stayed = 0;
    for _ in 0..400 {
        let mut state = run(
            Player { x: 15, y: 25, velocity: 0 },
            Obstacle::with_gap(80, 25, 0),
            Baddie::new(15, 25),
            0,
        );
        let mut frame = Frame::new(None, STEP);
        state.tick(&mut frame);
        assert_eq!(state.player.x, 16);
        if state.baddie == Baddie::new(15, 25) {
            stayed += 1;
        } else {
            moved += 1;
            assert_eq!(state.baddie.x, 16 + 80 + 20);
            assert!(10 <= state.baddie.y && state.baddie.y < 45);
        }
        assert_eq!(state.mode, GameMode::Playing);
        assert_eq!(state.score, 0);
    }
    assert!(moved > 0);
    assert!(stayed > 0);
}

#[test]
fn baddie_ahead_stays_where_it_is() {
    let mut state = run(
        Player { x: 14, y: 25, velocity: 0 },
        Obstacle::with_gap(80, 25, 0),
        Baddie::new(15, 25),
        0,
    );
    let mut frame = Frame::new(None, STEP);
    state.tick(&mut frame);
    assert_eq!(state.player.x, 15);
    assert_eq!(state.baddie, Baddie::new(15, 25));
    assert_eq!(state.mode, GameMode::Playing);
}

#[test]
fn last_of_the_horde_stays() {
    let mut state = run(Player::new(5, 25), Obstacle::with_gap(80, 25, 0), far_baddie(), 0);
    let before = state;
    state.retain_last(vec![Baddie::new(1, 11), Baddie::new(2, 12), Baddie::new(3, 13)]);
    assert_eq!(state, State { baddie: Baddie::new(3, 13), ..before });
    state.retain_last(Vec::new());
    assert_eq!(state, State { baddie: Baddie::new(3, 13), ..before });
}

#[test]
fn play_handler_leaves_other_screens_showing() {
    let mut state = run(Player::new(5, 25), Obstacle::with_gap(80, 25, 0), far_baddie(), 0);
    state.mode = GameMode::Menu;
    state.frame_time = 75_001;
    let mut frame = Frame::new(None, 0);
    state.play(&mut frame);
    assert_eq!(state.mode, GameMode::Menu);
    assert_eq!(state.player, Player { x: 6, y: 25, velocity: 1 });
    assert_eq!(state.frame_time, 0);
}

#[test]
fn play_counts_the_time_of_the_frame() {
    let mut state = run(Player::new(5, 25), Obstacle::with_gap(80, 25, 0), far_baddie(), 0);
    let mut frame = Frame::new(None, 80_000);
    state.play(&mut frame);
    assert_eq!(state.player, Player { x: 6, y: 25, velocity: 1 });
    assert_eq!(state.frame_time, 0);
}

#[test]
fn play_keeps_the_time_of_a_short_frame() {
    let mut state = State::new();
    state.restart();
    let mut frame = Frame::new(None, 75_000);
    state.play(&mut frame);
    assert_eq!(state.player, Player { x: 5, y: 25, velocity: 0 });
    assert_eq!(state.frame_time, 75_000);
    assert_eq!(state.mode, GameMode::Playing);
    let mut frame = Frame::new(None, 1);
    state.play(&mut frame);
    assert_eq!(state.player, Player { x: 6, y: 25, velocity: 1 });
    assert_eq!(state.frame_time, 0);
}

#[test]
fn play_makes_one_step_in_a_long_frame() {
    let mut state = State::new();
    state.restart();
    let mut frame = Frame::new(None, 200_000);
    state.play(&mut frame);
    assert_eq!(state.player, Player { x: 6, y: 25, velocity: 1 });
    assert_eq!(state.frame_time, 0);
    assert_eq!(state.score, 0);
    assert_eq!(state.mode, GameMode::Playing);
}

#[test]
fn play_thrusts_before_it_steps() {
    let mut state = State::new();
    state.restart();
    let mut frame = Frame::new(Some(Key::Space), 80_000);
    state.play(&mut frame);
    assert_eq!(state.player, Player { x: 6, y: 24, velocity: -9 });
    assert_eq!(state.frame_time, 0);
    assert_eq!(state.mode, GameMode::Playing);
}

#[test]
fn play_and_tick_agree_while_playing() {
    for (stored, elapsed, key) in [
        (0, 80_000, None),
        (74_999, 1, Some(Key::Space)),
        (74_999, 2, Some(Key::Q)),
        (u64::MAX, 9, Some(Key::W)),
        (10, 20, Some(Key::H)),
    ] {
        let mut played = run(Player::new(5, 25), Obstacle::with_gap(80, 25, 0), far_baddie(), 0);
        played.frame_time = stored;
        let mut ticked = played;
        let mut frame = Frame::new(key, elapsed);
        played.play(&mut frame);
        let mut other = Frame::new(key, elapsed);
        ticked.tick(&mut other);
        assert_eq!(played, ticked);
        assert_eq!(frame, other);
    }
}

#[test]
fn time_counts_once_in_a_frame_of_play() {
    let mut state = run(Player::new(5, 25), Obstacle::with_gap(80, 25, 0), far_baddie(), 0);
    let mut frame = Frame::new(None, 40_000);
    state.tick(&mut frame);
    assert_eq!(state.frame_time, 40_000);
    assert_eq!(state.player.x, 5);
}

#[test]
fn time_of_play_stops_counting_at_the_top() {
    let mut state = run(Player::new(5, 25), Obstacle::with_gap(80, 25, 0), far_baddie(), 0);
    state.frame_time = u64::MAX - 1;
    let mut frame = Frame::new(None, 7);
    state.play(&mut frame);
    assert_eq!(state.player.x, 6);
    assert_eq!(state.frame_time, 0);
}

#[test]
fn passing_scores_whatever_the_old_gap_was() {
    let mut state = run(
        Player { x: 81, y: 25, velocity: 0 },
        Obstacle { x: 80, gap_y: 25, size: 20 },
        Baddie::new(1000, 0),
        3,
    );
    let mut frame = Frame::new(None, 0);
    state.play(&mut frame);
    assert_eq!(state.score, 4);
    assert_eq!(state.obstacle.x, 161);
    assert_eq!(state.obstacle.size, 16);
    assert_eq!(state.player, Player { x: 81, y: 25, velocity: 0 });
    assert_eq!(state.mode, GameMode::Playing);
}

#[test]
fn hit_in_the_column_keeps_score_and_barrier() {
    let mut state = run(
        Player { x: 80, y: 5, velocity: 0 },
        Obstacle { x: 80, gap_y: 25, size: 20 },
        Baddie::new(1000, 0),
        2,
    );
    let mut frame = Frame::new(None, 0);
    state.play(&mut frame);
    assert_eq!(state.mode, GameMode::End);
    assert_eq!(state.score, 2);
    assert_eq!(state.obstacle, Obstacle { x: 80, gap_y: 25, size: 20 });
}

#[test]
fn play_takes_a_game_at_the_edge_of_the_range() {
    let mut state = run(
        Player { x: i32::MIN, y: -7, velocity: 33 },
        Obstacle { x: -5, gap_y: 3, size: -9 },
        Baddie::new(-1000, 0),
        -2,
    );
    state.frame_time = u64::MAX;
    let mut frame = Frame::new(None, 5);
    assert!(state.is_roomy(&frame));
    state.play(&mut frame);
    assert_eq!(state.player, Player { x: i32::MIN + 1, y: 0, velocity: 33 });
    assert_eq!(state.frame_time, 0);
    assert_eq!(state.score, -2);
    assert_eq!(state.mode, GameMode::Playing);
}
