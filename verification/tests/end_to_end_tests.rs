use qtpstream::capture::encoded_size;
use qtpstream::host::{handle_input_message, plan_mouse_injection, InputCommand, LoginDesk, MouseInjection};
use qtpstream::protocol::{
    decode_auth_reply, encode_auth_request, encode_keyboard_input, encode_mouse_input, AuthReply,
    StreamInfo,
};
use qtpstream::viewer::{display_size, ForwardAction, InputForwarder, MouseButton, ViewerEvent};

fn host_injection(action: ForwardAction) -> Option<MouseInjection> {
    let bytes = match action {
        ForwardAction::Mouse { state, x, y, data } => encode_mouse_input(state, x, y, data),
        ForwardAction::Keyboard { keyboard_state, keyscan } => encode_keyboard_input(keyboard_state, keyscan),
        ForwardAction::Nothing => return None,
    };
    match handle_input_message(&bytes).unwrap() {
        InputCommand::Mouse { flags, x, y, data } => Some(plan_mouse_injection(flags, x, y, data)),
        _ => None,
    }
}

#[test]
fn forwarded_move_places_the_host_cursor() {
    let mut viewer = InputForwarder::new();
    let action = viewer.step(ViewerEvent::CursorMoved { x: 640, y: 480 });
    assert_eq!(host_injection(action), Some(MouseInjection::MoveCursor { x: 640, y: 480 }));
}

#[test]
fn forwarded_click_is_sent_at_the_cursor() {
    let mut viewer = InputForwarder::new();
    viewer.step(ViewerEvent::CursorMoved { x: 20, y: 30 });
    let action = viewer.step(ViewerEvent::Button { pressed: true, button: MouseButton::Left });
    assert_eq!(
        host_injection(action),
        Some(MouseInjection::Send { flags: 0x0002, dx: 20, dy: 30, mouse_data: 0 })
    );
}

#[test]
fn forwarded_wheel_carries_the_low_byte() {
    let mut viewer = InputForwarder::new();
    viewer.step(ViewerEvent::CursorMoved { x: 20, y: 30 });
    let action = viewer.step(ViewerEvent::WheelLines { lines: -2 });
    assert_eq!(
        host_injection(action),
        Some(MouseInjection::Send { flags: 0x0800, dx: 20, dy: 30, mouse_data: 0xFE })
    );
}

#[test]
fn forwarded_key_is_injected() {
    let mut viewer = InputForwarder::new();
    let action = viewer.step(ViewerEvent::Key { pressed: false, scancode: 0x39 });
    let ForwardAction::Keyboard { keyboard_state, keyscan } = action else { panic!("not a key") };
    let bytes = encode_keyboard_input(keyboard_state, keyscan);
    assert_eq!(
        handle_input_message(&bytes),
        Some(InputCommand::Keyboard { keyscan: 0x39, flags: 0x000A })
    );
}

#[test]
fn click_at_the_window_corner_is_lost() {
    let mut viewer = InputForwarder::new();
    let action = viewer.step(ViewerEvent::Button { pressed: true, button: MouseButton::Left });
    let ForwardAction::Mouse { state, x, y, data } = action else { panic!("not a mouse action") };
    assert_eq!(handle_input_message(&encode_mouse_input(state, x, y, data)), Some(InputCommand::Ignore));
}

#[test]
fn login_round_trip_between_viewer_and_host() {
    let mut desk = LoginDesk::new("hello", "123");
    let (width, height) = encoded_size(1536, 864, 20);
    let info = StreamInfo {
        height,
        width,
        framerate: 60,
        downscale: 20,
        port_video: 1,
        port_audio: 2,
        port_input: 3,
    };
    let answer = desk.answer(&encode_auth_request("hello", "123"), &info).unwrap();
    let Some(AuthReply::Accepted(setup)) = decode_auth_reply(&answer.reply) else { panic!("refused") };
    assert_eq!((setup.framerate, setup.downscale), (60, 20));
    assert_eq!(display_size(setup.width, setup.height, setup.downscale), (1535, 863));
}

#[test]
fn window_for_a_downscaled_stream_fits_the_monitor() {
    for downscale in 1..100 {
        let (w, h) = encoded_size(1920, 1080, downscale);
        let (dw, dh) = display_size(w, h, downscale as u32);
        assert!(dw <= 1920 && dh <= 1080, "downscale {}", downscale);
        if downscale <= 40 {
            assert!(dw >= 1918 && dh >= 1078, "downscale {}", downscale);
        }
    }
}

#[test]
fn upscale_loses_at_most_two_pixels() {
    // 1003 at 37 percent: 631 encoded, shown as 1001.
    let (w, _) = encoded_size(1003, 10, 37);
    assert_eq!(w, 631);
    assert_eq!(display_size(w, 10, 37).0, 1001);
    for side in 1000..1200u32 {
        for downscale in 1..=40 {
            let (w, _) = encoded_size(side, side, downscale);
            let shown = display_size(w, w, downscale as u32).0;
            assert!(shown <= side && shown + 2 >= side, "{} at {}", side, downscale);
        }
    }
}
