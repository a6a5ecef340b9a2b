use escape_room::tv_game::{
    check_puzzle, Direction, TvEvent, TvGame, TvPhase, FULL_SCALE_MILLI, PUZZLE_SOLVED,
};

#[test]
fn the_edge_sequence_must_be_exact() {
    // North keeps the counter at its reset; East, South, West then advance it.
    let mut pos = 0;
    pos = check_puzzle(pos, Direction::North);
    assert_eq!(pos, 0);
    pos = check_puzzle(pos, Direction::East);
    assert_eq!(pos, 1);
    pos = check_puzzle(pos, Direction::South);
    assert_eq!(pos, 2);
    pos = check_puzzle(pos, Direction::West);
    assert_eq!(pos, PUZZLE_SOLVED);
    // A solved counter stays solved.
    assert_eq!(check_puzzle(pos, Direction::North), PUZZLE_SOLVED);
}

#[test]
fn a_wrong_crossing_resets_the_counter() {
    let mut pos = 0;
    pos = check_puzzle(pos, Direction::East);
    pos = check_puzzle(pos, Direction::South);
    assert_eq!(pos, 2);
    assert_eq!(check_puzzle(pos, Direction::East), 0);
    assert_eq!(check_puzzle(pos, Direction::South), 0);
    assert_eq!(check_puzzle(pos, Direction::North), 0);
}

#[test]
fn a_new_game_is_chasing_at_full_scale() {
    let g = TvGame::new();
    assert_eq!(g.phase, TvPhase::Chasing);
    assert_eq!(g.puzzle_pos, 0);
    assert_eq!((g.player_x, g.player_y), (-160, 0));
    assert_eq!(g.scale_milli, FULL_SCALE_MILLI);
}

#[test]
fn held_keys_move_the_avatar_one_unit() {
    let mut g = TvGame::new();
    let ev = g.player_tick(false, true, false, true);
    assert_eq!(ev, TvEvent::Idle);
    assert_eq!((g.player_x, g.player_y), (-159, 1));
    let ev = g.player_tick(true, false, true, false);
    assert_eq!(ev, TvEvent::Idle);
    assert_eq!((g.player_x, g.player_y), (-160, 0));
}

#[test]
fn crossing_an_edge_wraps_to_the_opposite_side() {
    let mut g = TvGame::new();
    g.player_x = 190;
    g.player_y = 7;
    g.player_tick(false, true, false, false);
    assert_eq!((g.player_x, g.player_y), (-180, 7));
    g.player_x = 3;
    g.player_y = -140;
    g.player_tick(false, false, true, false);
    assert_eq!((g.player_x, g.player_y), (3, 130));
}

#[test]
fn crossing_the_edges_in_order_solves_the_puzzle() {
    let mut g = TvGame::new();
    g.player_x = 190;
    g.player_y = 0;
    assert_eq!(g.player_tick(false, true, false, false), TvEvent::Idle);
    assert_eq!(g.puzzle_pos, 1);
    g.player_y = -140;
    assert_eq!(g.player_tick(false, false, true, false), TvEvent::Idle);
    assert_eq!(g.puzzle_pos, 2);
    g.player_x = -190;
    let ev = g.player_tick(true, false, false, false);
    assert_eq!(ev, TvEvent::PuzzleSolved);
    assert_eq!(g.puzzle_pos, PUZZLE_SOLVED);
    assert_eq!(g.phase, TvPhase::Solved);
}

#[test]
fn a_wrong_crossing_in_play_resets_the_counter() {
    let mut g = TvGame::new();
    g.player_x = 190;
    g.player_y = 0;
    g.player_tick(false, true, false, false);
    assert_eq!(g.puzzle_pos, 1);
    g.player_x = 190;
    g.player_tick(false, true, false, false);
    assert_eq!(g.puzzle_pos, 0);
    assert_eq!(g.phase, TvPhase::Chasing);
}

#[test]
fn a_solved_avatar_falls_into_the_whirlpool_at_the_center() {
    let mut g = TvGame::new();
    g.phase = TvPhase::Solved;
    g.puzzle_pos = PUZZLE_SOLVED;
    g.player_x = 25;
    g.player_y = 10;
    let ev = g.player_tick(false, false, false, false);
    assert_eq!(ev, TvEvent::BeganFalling);
    assert_eq!(g.phase, TvPhase::Falling);
    assert_eq!((g.player_x, g.player_y), (0, 0));
}

#[test]
fn an_unsolved_avatar_passes_the_center_untouched() {
    let mut g = TvGame::new();
    g.player_x = 10;
    g.player_y = 0;
    let ev = g.player_tick(false, true, false, false);
    assert_eq!(ev, TvEvent::Idle);
    assert_eq!(g.phase, TvPhase::Chasing);
    assert_eq!((g.player_x, g.player_y), (11, 0));
}

#[test]
fn the_fall_shrinks_the_sprites_to_a_win() {
    let mut g = TvGame::new();
    g.phase = TvPhase::Falling;
    g.player_x = 0;
    g.player_y = 0;
    assert!(!g.falling_tick());
    assert_eq!(g.scale_milli, 990);
    let mut ticks = 1;
    while g.phase == TvPhase::Falling {
        g.falling_tick();
        ticks += 1;
        assert!(ticks < 1000, "the fall never ended");
    }
    assert_eq!(g.phase, TvPhase::Ended { won: true });
    assert!(g.scale_milli < 100);
}

#[test]
fn the_pursuer_closes_in_and_catches_the_avatar() {
    let mut g = TvGame::new();
    g.monster_x_milli = -150_000;
    g.monster_y_milli = 0;
    // The avatar sits at -160 units: only 10 units away, inside the kill
    // distance once the pursuer has stepped.
    let caught = g.monster_tick();
    assert!(caught);
    assert_eq!(g.phase, TvPhase::Ended { won: false });
}

#[test]
fn the_pursuer_moves_toward_the_avatar() {
    let mut g = TvGame::new();
    g.monster_x_milli = 100_000;
    g.monster_y_milli = 50_000;
    let caught = g.monster_tick();
    assert!(!caught);
    assert!(g.monster_x_milli < 100_000);
    assert!(g.monster_x_milli >= 100_000 - 10);
    assert!(g.monster_y_milli < 50_000);
    assert!(g.monster_y_milli >= 50_000 - 10);
    assert_eq!(g.phase, TvPhase::Chasing);
}

#[test]
fn the_pursuer_step_never_exceeds_its_speed() {
    let mut g = TvGame::new();
    g.player_x = 100;
    g.player_y = 100;
    g.monster_x_milli = -100_000;
    g.monster_y_milli = -100_000;
    for _ in 0..50 {
        let (mx, my) = (g.monster_x_milli, g.monster_y_milli);
        let caught = g.monster_tick();
        assert!(!caught);
        assert!((g.monster_x_milli - mx).abs() <= 10);
        assert!((g.monster_y_milli - my).abs() <= 10);
        assert!(g.monster_x_milli >= mx);
        assert!(g.monster_y_milli >= my);
    }
}
