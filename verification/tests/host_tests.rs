use qtpstream::host::{
    decide_input, handle_input_message, plan_mouse_injection, LoginDesk, InputCommand,
    MouseInjection,
};
use qtpstream::protocol::{
    decode_auth_reply, encode_auth_request, encode_keyboard_input, encode_mouse_input, AuthReply,
    InputFields, StreamInfo,
};

fn info() -> StreamInfo {
    StreamInfo {
        height: 1080,
        width: 1920,
        framerate: 144,
        downscale: 0,
        port_video: 5000,
        port_audio: 5001,
        port_input: 5002,
    }
}

#[test]
fn mouse_message_is_injected() {
    let bytes = encode_mouse_input(0x0002, 12, 34, 0);
    assert_eq!(
        handle_input_message(&bytes),
        Some(InputCommand::Mouse { flags: 2, x: 12, y: 34, data: 0 })
    );
}

#[test]
fn mouse_message_on_an_axis_is_ignored() {
    let bytes = encode_mouse_input(0x0002, 0, 34, 0);
    assert_eq!(handle_input_message(&bytes), Some(InputCommand::Ignore));
    let bytes = encode_mouse_input(0x0002, 12, 0, 0);
    assert_eq!(handle_input_message(&bytes), Some(InputCommand::Ignore));
}

#[test]
fn keyboard_message_is_injected() {
    let bytes = encode_keyboard_input(0x0008, 0x2C);
    assert_eq!(
        handle_input_message(&bytes),
        Some(InputCommand::Keyboard { keyscan: 0x2C, flags: 8 })
    );
}

#[test]
fn keyboard_message_without_scan_code_is_ignored() {
    let bytes = encode_keyboard_input(0x0008, 0);
    assert_eq!(handle_input_message(&bytes), Some(InputCommand::Ignore));
}

#[test]
fn garbage_input_is_refused() {
    assert_eq!(handle_input_message(&[9]), None);
}

#[test]
fn mouse_wins_over_keyboard_fields() {
    let fields = InputFields {
        mouse_state: 4,
        mouse_data: 0,
        position_x: 1,
        position_y: 1,
        keyscan: 5,
        keyboard_state: 8,
    };
    assert_eq!(decide_input(&fields), InputCommand::Mouse { flags: 4, x: 1, y: 1, data: 0 });
}

#[test]
fn move_places_the_cursor_other_events_are_sent() {
    assert_eq!(plan_mouse_injection(0x0001, 10, 20, 0), MouseInjection::MoveCursor { x: 10, y: 20 });
    assert_eq!(
        plan_mouse_injection(0x0800, 10, 20, 255),
        MouseInjection::Send { flags: 0x0800, dx: 10, dy: 20, mouse_data: 255 }
    );
    assert_eq!(
        plan_mouse_injection(0x0002, -3, 7, 0),
        MouseInjection::Send { flags: 2, dx: -3, dy: 7, mouse_data: 0 }
    );
}

#[test]
fn right_credentials_are_let_in() {
    let mut desk = LoginDesk::new("hello", "123");
    let answer = desk.answer(&encode_auth_request("hello", "123"), &info()).unwrap();
    assert!(answer.accepted);
    assert!(answer.start_streaming);
    assert!(desk.is_streaming());
    match decode_auth_reply(&answer.reply).unwrap() {
        AuthReply::Accepted(setup) => {
            assert_eq!((setup.width, setup.height), (1920, 1080));
            assert_eq!((setup.port_video, setup.port_audio, setup.port_input), (5000, 5001, 5002));
            assert_eq!((setup.framerate, setup.downscale), (144, 0));
        }
        other => panic!("unexpected {:?}", other),
    }
}

#[test]
fn wrong_password_is_refused() {
    let mut desk = LoginDesk::new("hello", "123");
    let answer = desk.answer(&encode_auth_request("hello", "124"), &info()).unwrap();
    assert!(!answer.accepted);
    assert!(!answer.start_streaming);
    assert!(!desk.is_streaming());
    assert_eq!(decode_auth_reply(&answer.reply), Some(AuthReply::Rejected));
}

#[test]
fn wrong_key_is_refused() {
    let mut desk = LoginDesk::new("hello", "123");
    let answer = desk.answer(&encode_auth_request("Hello", "123"), &info()).unwrap();
    assert!(!answer.accepted);
}

#[test]
fn streaming_starts_on_first_login_only() {
    let mut desk = LoginDesk::new("k", "p");
    let first = desk.answer(&encode_auth_request("k", "p"), &info()).unwrap();
    let refused = desk.answer(&encode_auth_request("k", "x"), &info()).unwrap();
    let second = desk.answer(&encode_auth_request("k", "p"), &info()).unwrap();
    assert!(first.start_streaming);
    assert!(!refused.start_streaming);
    assert!(second.accepted);
    assert!(!second.start_streaming);
}

#[test]
fn unparsable_login_is_not_answered() {
    let mut desk = LoginDesk::new("k", "p");
    assert!(desk.answer(&[1, 2], &info()).is_none());
    assert!(!desk.is_streaming());
}

#[test]
fn input_message_as_login_is_refused() {
    // A mouse message carries no key and no password: both read as empty.
    let mut desk = LoginDesk::new("k", "p");
    let answer = desk.answer(&encode_mouse_input(1, 2, 3, 0), &info()).unwrap();
    assert!(!answer.accepted);
    let mut open_desk = LoginDesk::new("", "");
    let answer = open_desk.answer(&encode_mouse_input(1, 2, 3, 0), &info()).unwrap();
    assert!(answer.accepted);
}

#[test]
fn streaming_starts_once_over_many_logins() {
    let mut desk = LoginDesk::new("k", "p");
    let mut starts = 0;
    for (key, password) in [("a", "p"), ("k", "x"), ("k", "p"), ("k", "p"), ("z", "z"), ("k", "p")] {
        let answer = desk.answer(&encode_auth_request(key, password), &info()).unwrap();
        if answer.start_streaming {
            starts += 1;
        }
    }
    assert_eq!(starts, 1);
}
