use weathr::{
    Animation, AnimationController, Color, DrawOp, LoadingState, ScreenBuffer, SunnyAnimation,
};

#[test]
fn test_controller_cycles_through_frames() {
    let sun = SunnyAnimation::new();
    let mut ctl = AnimationController::new();
    assert_eq!(ctl.next_frame(&sun), 1);
    assert_eq!(ctl.next_frame(&sun), 2);
    assert_eq!(ctl.next_frame(&sun), 3);
    assert_eq!(ctl.next_frame(&sun), 0);
    assert_eq!(ctl.next_frame(&sun), 1);
}

#[test]
fn test_controller_reset() {
    let sun = SunnyAnimation::new();
    let mut ctl = AnimationController::new();
    ctl.next_frame(&sun);
    ctl.next_frame(&sun);
    ctl.reset();
    assert_eq!(ctl.next_frame(&sun), 1);
}

#[test]
fn test_sunny_animation_frames() {
    let sun = SunnyAnimation::new();
    assert_eq!(sun.frame_count(), 4);
    let f0 = sun.get_frame(0);
    assert_eq!(f0.len(), 5);
    assert_eq!(f0[2], "--- (  O  ) ---");
    assert_eq!(f0[0], "    \\  |  /");
    let f1 = sun.get_frame(1);
    assert_eq!(f1[2], "-- (   O   ) --");
    let f5 = sun.get_frame(5);
    assert_eq!(f5, f1);
}

#[test]
fn test_render_frame_draws_centered_sun() {
    let sun = SunnyAnimation::new();
    let ctl = AnimationController::new();
    let mut buf = ScreenBuffer::new(17, 6);
    ctl.render_frame(&mut buf, &sun, 0);
    let ops = buf.flush();
    assert!(ops.contains(&DrawOp::Print { ch: 'O' }));
    assert!(ops.contains(&DrawOp::MoveTo { x: 1, y: 2 }));
}

#[test]
fn test_loading_state_cycle() {
    let mut l = LoadingState::new();
    assert_eq!(l.current_char(), '|');
    l.next_frame();
    assert_eq!(l.current_char(), '/');
    l.next_frame();
    assert_eq!(l.current_char(), '-');
    l.next_frame();
    assert_eq!(l.current_char(), '\\');
    l.next_frame();
    assert_eq!(l.current_char(), '|');
}

#[test]
fn test_loading_state_update_threshold() {
    let l = LoadingState::new();
    assert!(!l.should_update(99));
    assert!(l.should_update(100));
    assert!(l.should_update(5000));
}

#[test]
fn test_flash_color_is_white() {
    let mut buf = ScreenBuffer::new(1, 1);
    buf.set(0, 0, '*', Color::Yellow);
    buf.flash();
    let ops = buf.flush();
    assert_eq!(ops[1], DrawOp::SetColors { fg: Color::White, bg: Color::Reset });
}
