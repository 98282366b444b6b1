use flappy_core::pipe::{
    despawn_pipes_out_of_view, flip_upper_pipes_system, spawn_pipe_system, CPipeSpawner, Pipe,
};
use flappy_core::timer::RepeatingTimer;
use flappy_core::transform::{Transform, Vec2};

fn fresh_spawner() -> CPipeSpawner {
    CPipeSpawner { current_spawn_pos_x: 0, current_pipe_count: 0 }
}

fn pipe_at(x: i64, y: i64, is_upper: bool) -> Pipe {
    Pipe {
        transform: Transform { position: Vec2 { x, y }, scale: 15 },
        is_upper,
        flip_y: false,
    }
}

#[test]
fn can_spawn_boundary() {
    let mut s = fresh_spawner();
    s.current_pipe_count = 8;
    assert!(s.can_spawn());
    s.current_pipe_count = 9;
    assert!(!s.can_spawn());
}

#[test]
fn spawn_sequence_advances_by_fixed_offset() {
    // Three timer completions from a fresh spawner: pairs at x = 0, 200
    // and 400, each upper pipe a sprite height plus the gap above its
    // lower pipe, whose height is drawn from the spawn range.
    let mut s = fresh_spawner();
    let mut timer = RepeatingTimer::new(500);
    let mut pipes: Vec<Pipe> = Vec::new();
    for _ in 0..3 {
        spawn_pipe_system(&mut s, &mut timer, &mut pipes, 500);
    }
    assert_eq!(pipes.len(), 6);
    assert_eq!(s.current_pipe_count, 3);
    assert_eq!(s.current_spawn_pos_x, 600);
    for (pair, expected_x) in [(0usize, 0i64), (1, 200), (2, 400)] {
        let lower = &pipes[2 * pair];
        let upper = &pipes[2 * pair + 1];
        assert_eq!(lower.transform.position.x, expected_x);
        assert_eq!(upper.transform.position.x, expected_x);
        assert!(!lower.is_upper);
        assert!(upper.is_upper);
        assert!((-400..=-100).contains(&lower.transform.position.y));
        assert_eq!(
            upper.transform.position.y,
            lower.transform.position.y + 400 + 200
        );
        assert_eq!(lower.transform.scale, 15);
        assert_eq!(upper.transform.scale, 15);
    }
}

#[test]
fn spawner_stops_at_ceiling() {
    // Repeated completions produce pairs until the count passes the
    // ceiling (a spawn at the ceiling itself is still admitted, so the
    // count settles one past it); later completions produce nothing.
    let mut s = fresh_spawner();
    let mut timer = RepeatingTimer::new(500);
    let mut pipes: Vec<Pipe> = Vec::new();
    for k in 1..=12u32 {
        spawn_pipe_system(&mut s, &mut timer, &mut pipes, 500);
        assert_eq!(s.current_pipe_count, k.min(9));
    }
    assert_eq!(s.current_pipe_count, 9);
    assert_eq!(pipes.len(), 18);
    let len_before = pipes.len();
    spawn_pipe_system(&mut s, &mut timer, &mut pipes, 500);
    assert_eq!(pipes.len(), len_before);
    assert_eq!(s.current_pipe_count, 9);
}

#[test]
fn blocked_completion_still_restarts_timer() {
    let mut s = fresh_spawner();
    s.current_pipe_count = 9;
    let mut timer = RepeatingTimer::new(500);
    let mut pipes: Vec<Pipe> = Vec::new();
    spawn_pipe_system(&mut s, &mut timer, &mut pipes, 700);
    assert!(pipes.is_empty());
    assert_eq!(timer.elapsed_ms, 0);
}

#[test]
fn culler_threshold_is_exact() {
    // An obstacle at x = 0 is destroyed exactly when the player's x
    // exceeds the viewport half-width plus the despawn margin.
    let half_width = 400i64;

    let mut s = fresh_spawner();
    s.current_pipe_count = 1;
    let mut pipes = vec![pipe_at(0, -200, false)];
    despawn_pipes_out_of_view(&mut pipes, &mut s, half_width + 25, half_width);
    assert_eq!(pipes.len(), 1);
    assert_eq!(s.current_pipe_count, 1);

    let mut pipes = vec![pipe_at(0, -200, false)];
    despawn_pipes_out_of_view(&mut pipes, &mut s, half_width + 26, half_width);
    assert!(pipes.is_empty());
    assert_eq!(s.current_pipe_count, 0);
}

#[test]
fn culler_keeps_survivors_in_order() {
    let mut s = fresh_spawner();
    s.current_pipe_count = 3;
    // Player at 0 with half-width 400: the cutoff sits at -425.
    let mut pipes = vec![
        pipe_at(-426, -200, false),
        pipe_at(100, -150, false),
        pipe_at(-425, -150, true),
        pipe_at(300, -150, true),
    ];
    despawn_pipes_out_of_view(&mut pipes, &mut s, 0, 400);
    assert_eq!(
        pipes.iter().map(|p| p.transform.position.x).collect::<Vec<_>>(),
        vec![100, -425, 300]
    );
    assert_eq!(s.current_pipe_count, 2);
}

#[test]
fn culling_a_pair_decrements_once_per_entity() {
    // A pair is counted once at spawn but holds two entities, so culling
    // both members lowers the count by two.
    let mut s = fresh_spawner();
    s.current_pipe_count = 5;
    let mut pipes = vec![pipe_at(-1000, -200, false), pipe_at(-1000, 400, true)];
    despawn_pipes_out_of_view(&mut pipes, &mut s, 0, 400);
    assert!(pipes.is_empty());
    assert_eq!(s.current_pipe_count, 3);
}

#[test]
fn cull_count_stops_at_zero() {
    let mut s = fresh_spawner();
    s.current_pipe_count = 1;
    let mut pipes = vec![pipe_at(-1000, -200, false), pipe_at(-1000, 400, true)];
    despawn_pipes_out_of_view(&mut pipes, &mut s, 0, 400);
    assert!(pipes.is_empty());
    assert_eq!(s.current_pipe_count, 0);
}

#[test]
fn flip_marks_only_upper_pipes() {
    let mut pipes = vec![pipe_at(0, -200, false), pipe_at(0, 400, true), pipe_at(200, -120, true)];
    flip_upper_pipes_system(&mut pipes);
    assert!(!pipes[0].flip_y);
    assert!(pipes[1].flip_y);
    assert!(pipes[2].flip_y);
    // Transforms and orientation are untouched.
    assert_eq!(pipes[1].transform.position, Vec2 { x: 0, y: 400 });
    assert!(pipes[0].transform.position.y == -200 && !pipes[0].is_upper);
}
