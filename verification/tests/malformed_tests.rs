use qtpstream::host::handle_input_message;
use qtpstream::layout::flex_lookup_is_safe;
use qtpstream::protocol::{
    decode_auth_reply, decode_auth_request, decode_input, encode_auth_request, encode_mouse_input,
};

fn decode_all(bytes: &[u8]) {
    let _ = decode_input(bytes);
    let _ = decode_auth_request(bytes);
    let _ = decode_auth_reply(bytes);
    let _ = handle_input_message(bytes);
}

#[test]
fn own_messages_pass_the_header_check() {
    let mouse = encode_mouse_input(1, 2, 3, 4);
    for key in ["mouse_state", "position_x", "position_y", "mouse_data", "keyscan", "absent"] {
        assert!(flex_lookup_is_safe(&mouse, key));
    }
    let login = encode_auth_request("hello", "123");
    for key in ["key", "password", "status", ""] {
        assert!(flex_lookup_is_safe(&login, key));
    }
}

#[test]
fn corrupted_messages_never_panic() {
    let messages = vec![encode_mouse_input(0x0800, -300, 4000, 0x1FF), encode_auth_request("key", "password")];
    for message in messages {
        for i in 0..message.len() {
            for value in [0x00u8, 0x01, 0x02, 0x08, 0x10, 0x24, 0x7F, 0x80, 0xFE, 0xFF] {
                let mut bytes = message.clone();
                bytes[i] = value;
                decode_all(&bytes);
                for j in 0..bytes.len() {
                    let mut twice = bytes.clone();
                    twice[j] = twice[j].wrapping_add(0x41);
                    decode_all(&twice);
                }
            }
        }
    }
}

#[test]
fn map_with_a_huge_length_is_refused() {
    // Root: a map (type 9, width 1) whose values start at byte 4; its keys vector is at
    // byte 1 with keys of width 1, and its length slot claims 255 entries in a buffer of
    // seven bytes, so a lookup would read key offsets far past the end.
    let bytes = [0u8, 0, 1, 0xFF, 0, 9 << 2, 1];
    assert!(!flex_lookup_is_safe(&bytes, "status"));
    assert!(!flex_lookup_is_safe(&bytes, "mouse_state"));
    assert_eq!(decode_input(&bytes), None);
}

#[test]
fn random_buffers_never_panic() {
    let mut state: u64 = 0x2545F4914F6CDD1D;
    for _ in 0..20000 {
        state ^= state << 13;
        state ^= state >> 7;
        state ^= state << 17;
        let len = (state % 24) as usize + 3;
        let mut bytes = Vec::with_capacity(len);
        for k in 0..len {
            bytes.push((state.rotate_left((k * 5) as u32) & 0xFF) as u8);
        }
        bytes[len - 2] = (9 << 2) | (bytes[len - 2] & 3);
        bytes[len - 1] = [1u8, 2, 4, 8][(state % 4) as usize];
        decode_all(&bytes);
    }
}

fn login_with_note(note: &str) -> Vec<u8> {
    let mut builder = flexbuffers::Builder::default();
    let mut map = builder.start_map();
    map.push("key", "hello");
    map.push("password", "123");
    map.push("note", note);
    map.end_map();
    builder.view().to_vec()
}

#[test]
fn bad_length_of_an_unread_field_is_ignored() {
    // The length byte of the note's string is raised far past the end of the buffer:
    // a lookup of the key or the password never reads the note, so the login still
    // reads as it was sent.
    let mut bytes = login_with_note("abc");
    let at = bytes.windows(4).position(|w| w == [3, b'a', b'b', b'c']).unwrap();
    bytes[at] = 0xFF;
    assert!(flex_lookup_is_safe(&bytes, "key"));
    assert!(flex_lookup_is_safe(&bytes, "password"));
    assert_eq!(decode_auth_request(&bytes), Some((String::from("hello"), String::from("123"))));
}

#[test]
fn root_offset_past_the_start_is_harmless() {
    // A root of width 8 that points 2^32 + 20 bytes back, in a buffer of 40 bytes.
    let mut bytes = vec![0u8; 40];
    bytes[38] = 9 << 2;
    bytes[39] = 8;
    bytes[30..38].copy_from_slice(&(0x1_0000_0014u64).to_le_bytes());
    decode_all(&bytes);
    assert_eq!(decode_input(&bytes), None);
}
