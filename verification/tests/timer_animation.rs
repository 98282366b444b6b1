use flappy_core::animation::{animation_system, CFrameAnimation};
use flappy_core::timer::RepeatingTimer;
use flappy_core::SimError;

#[test]
fn timer_accumulates_and_fires() {
    let mut t = RepeatingTimer::new(250);
    assert!(!t.tick(100));
    assert_eq!(t.elapsed_ms, 100);
    assert!(!t.tick(100));
    assert_eq!(t.elapsed_ms, 200);
    assert!(t.tick(50));
    assert_eq!(t.elapsed_ms, 0);
}

#[test]
fn timer_fires_at_most_once_per_tick() {
    let mut t = RepeatingTimer::new(250);
    // A delta spanning four intervals still yields a single completion.
    assert!(t.tick(1000));
    assert_eq!(t.elapsed_ms, 0);
    assert!(!t.tick(249));
    assert!(t.tick(1));
}

#[test]
fn empty_animation_rejected_at_construction() {
    let r = CFrameAnimation::new(Vec::new());
    assert_eq!(r, Err(SimError::EmptyAnimationSequence));
}

#[test]
fn animation_cycles_back_after_len_completions() {
    let anim = CFrameAnimation::new(vec![7, 8, 9]).unwrap();
    assert_eq!(anim.current_frame, 0);
    let mut a = anim;
    a.go_next_frame();
    assert_eq!(a.current_frame, 1);
    a.go_next_frame();
    assert_eq!(a.current_frame, 2);
    a.go_next_frame();
    assert_eq!(a.current_frame, 0);
}

#[test]
fn single_frame_animation_stays_on_it() {
    let mut a = CFrameAnimation::new(vec![42]).unwrap();
    a.go_next_frame();
    assert_eq!(a.current_frame, 0);
    let mut handle = 0u64;
    a.set_texture_handle_to_current_frame(&mut handle);
    assert_eq!(handle, 42);
}

#[test]
fn animation_system_swaps_texture_on_completion() {
    let mut timer = RepeatingTimer::new(250);
    let mut anim = CFrameAnimation::new(vec![10, 20, 30]).unwrap();
    let mut handle = 99u64;

    // No completion: nothing visible changes.
    animation_system(&mut timer, &mut anim, &mut handle, 100);
    assert_eq!(anim.current_frame, 0);
    assert_eq!(handle, 99);

    // Completion: the next frame is shown.
    animation_system(&mut timer, &mut anim, &mut handle, 150);
    assert_eq!(anim.current_frame, 1);
    assert_eq!(handle, 20);

    animation_system(&mut timer, &mut anim, &mut handle, 250);
    assert_eq!(anim.current_frame, 2);
    assert_eq!(handle, 30);

    animation_system(&mut timer, &mut anim, &mut handle, 250);
    assert_eq!(anim.current_frame, 0);
    assert_eq!(handle, 10);
}
