use qtpstream::viewer::{
    display_size, ForwardAction, FrameStats, InputForwarder, MouseButton, ViewerEvent,
};

#[test]
fn window_keeps_stream_size_without_downscale() {
    assert_eq!(display_size(1536, 864, 0), (1536, 864));
}

#[test]
fn window_scales_back_up_after_downscale() {
    assert_eq!(display_size(1228, 691, 20), (1535, 863));
    assert_eq!(display_size(960, 540, 50), (1920, 1080));
    assert_eq!(display_size(10, 10, 99), (1000, 1000));
}

#[test]
fn cursor_move_is_forwarded() {
    let mut f = InputForwarder::new();
    assert_eq!(
        f.step(ViewerEvent::CursorMoved { x: 100, y: 50 }),
        ForwardAction::Mouse { state: 0x0001, x: 100, y: 50, data: 0 }
    );
}

#[test]
fn clicks_use_last_forwarded_position() {
    let mut f = InputForwarder::new();
    f.step(ViewerEvent::CursorMoved { x: 7, y: 9 });
    assert_eq!(
        f.step(ViewerEvent::Button { pressed: true, button: MouseButton::Left }),
        ForwardAction::Mouse { state: 0x0002, x: 7, y: 9, data: 0 }
    );
    assert_eq!(
        f.step(ViewerEvent::Button { pressed: false, button: MouseButton::Left }),
        ForwardAction::Mouse { state: 0x0004, x: 7, y: 9, data: 0 }
    );
    assert_eq!(
        f.step(ViewerEvent::Button { pressed: true, button: MouseButton::Right }),
        ForwardAction::Mouse { state: 0x0008, x: 7, y: 9, data: 0 }
    );
    assert_eq!(
        f.step(ViewerEvent::Button { pressed: false, button: MouseButton::Right }),
        ForwardAction::Mouse { state: 0x0010, x: 7, y: 9, data: 0 }
    );
    assert_eq!(
        f.step(ViewerEvent::Button { pressed: true, button: MouseButton::Middle }),
        ForwardAction::Mouse { state: 0x0020, x: 7, y: 9, data: 0 }
    );
    assert_eq!(
        f.step(ViewerEvent::Button { pressed: false, button: MouseButton::Middle }),
        ForwardAction::Mouse { state: 0x0040, x: 7, y: 9, data: 0 }
    );
}

#[test]
fn clicks_before_any_move_are_at_origin() {
    let mut f = InputForwarder::new();
    assert_eq!(
        f.step(ViewerEvent::Button { pressed: true, button: MouseButton::Left }),
        ForwardAction::Mouse { state: 0x0002, x: 0, y: 0, data: 0 }
    );
}

#[test]
fn toggle_button_stops_and_resumes_moves() {
    let mut f = InputForwarder::new();
    f.step(ViewerEvent::CursorMoved { x: 1, y: 2 });
    let toggle = ViewerEvent::Button { pressed: true, button: MouseButton::Other(2) };
    assert_eq!(f.step(toggle), ForwardAction::Nothing);
    assert!(!f.forwards_moves());
    assert_eq!(f.step(ViewerEvent::CursorMoved { x: 300, y: 400 }), ForwardAction::Nothing);
    // The click still goes out, at the last forwarded position.
    assert_eq!(
        f.step(ViewerEvent::Button { pressed: true, button: MouseButton::Left }),
        ForwardAction::Mouse { state: 0x0002, x: 1, y: 2, data: 0 }
    );
    assert_eq!(f.step(toggle), ForwardAction::Nothing);
    assert!(f.forwards_moves());
}

#[test]
fn other_buttons_do_nothing() {
    let mut f = InputForwarder::new();
    assert_eq!(
        f.step(ViewerEvent::Button { pressed: true, button: MouseButton::Other(3) }),
        ForwardAction::Nothing
    );
    assert_eq!(
        f.step(ViewerEvent::Button { pressed: false, button: MouseButton::Other(2) }),
        ForwardAction::Nothing
    );
    assert!(f.forwards_moves());
}

#[test]
fn keys_are_forwarded_as_scan_codes() {
    let mut f = InputForwarder::new();
    assert_eq!(
        f.step(ViewerEvent::Key { pressed: true, scancode: 0x1E }),
        ForwardAction::Keyboard { keyboard_state: 0x0008, keyscan: 0x1E }
    );
    assert_eq!(
        f.step(ViewerEvent::Key { pressed: false, scancode: 0x1_001E }),
        ForwardAction::Keyboard { keyboard_state: 0x000A, keyscan: 0x1E }
    );
}

#[test]
fn wheel_is_forwarded_at_cursor() {
    let mut f = InputForwarder::new();
    f.step(ViewerEvent::CursorMoved { x: 5, y: 6 });
    assert_eq!(
        f.step(ViewerEvent::WheelLines { lines: -1 }),
        ForwardAction::Mouse { state: 0x0800, x: 5, y: 6, data: 0xFFFF_FFFF }
    );
    assert_eq!(
        f.step(ViewerEvent::WheelLines { lines: 3 }),
        ForwardAction::Mouse { state: 0x0800, x: 5, y: 6, data: 3 }
    );
}

#[test]
fn other_events_do_nothing() {
    let mut f = InputForwarder::new();
    assert_eq!(f.step(ViewerEvent::Other), ForwardAction::Nothing);
}

#[test]
fn frame_rate_shows_after_a_second_of_frames() {
    let mut stats = FrameStats::new();
    assert_eq!(stats.rate_text(), None);
    for _ in 0..4 {
        stats.begin_event();
        stats.frame_presented(300_000);
    }
    assert_eq!(stats.rate_text(), None);
    stats.begin_event();
    assert_eq!(stats.rate_text(), Some(String::from("4")));
    stats.frame_presented(10);
    stats.begin_event();
    assert_eq!(stats.rate_text(), Some(String::from("4")));
}

#[test]
fn frame_counter_overflow_is_detected() {
    let stats = FrameStats::new();
    assert!(stats.can_count(5));
    assert!(stats.can_count(u128::MAX));
}

#[test]
fn toggle_parity_over_a_sequence() {
    let mut f = InputForwarder::new();
    let toggle = ViewerEvent::Button { pressed: true, button: MouseButton::Other(2) };
    let events = [
        toggle,
        ViewerEvent::CursorMoved { x: 3, y: 4 },
        ViewerEvent::Key { pressed: true, scancode: 5 },
        toggle,
        ViewerEvent::Button { pressed: false, button: MouseButton::Other(2) },
        toggle,
        ViewerEvent::WheelLines { lines: 1 },
    ];
    for e in events {
        f.step(e);
    }
    // Three presses: an odd number, so moves are off.
    assert!(!f.forwards_moves());
    f.step(toggle);
    assert!(f.forwards_moves());
}
