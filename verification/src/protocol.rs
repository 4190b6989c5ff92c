//! The messages that the viewer and the host exchange, as flexbuffer maps.
//!
//! The viewer logs in with a key and a password on the host's authentication port
//! and gets back either the stream's size and ports or a refusal; it then forwards
//! mouse and keyboard input as small maps on the input port.

use vstd::prelude::*;
use crate::flex::{
    entries_view, flex_encode_map, flex_field_str, flex_field_u16, flex_field_u32, flex_field_i32,
    flex_has_root, flex_map_bytes, flex_read_i32, flex_read_str, flex_read_u16, flex_read_u32,
    flex_root_parses, reads_absent, reads_back, FlexEntry, FlexValue, FlexValueView,
};
use crate::layout::{flex_lookup_is_safe, flex_lookup_safe};

verus! {

/// The input fields that the host reads from every message on its input port.
#[derive(Debug, Clone, Copy, PartialEq, Eq)]
pub struct InputFields {
    pub mouse_state: u32,
    pub mouse_data: u32,
    pub position_x: i32,
    pub position_y: i32,
    pub keyscan: u16,
    pub keyboard_state: u32,
}

/// What the host tells the viewer about the stream once it has let it in.
#[derive(Debug, Clone, Copy, PartialEq, Eq)]
pub struct StreamSetup {
    pub height: u32,
    pub width: u32,
    pub framerate: u32,
    pub downscale: u32,
    pub port_video: u32,
    pub port_audio: u32,
    pub port_input: u32,
}

/// The host's answer to a login, as the viewer reads it.
#[derive(Debug, Clone, Copy, PartialEq, Eq)]
pub enum AuthReply {
    /// Status 0: the stream's setup follows.
    Accepted(StreamSetup),
    /// Status 1: the key or the password was wrong.
    Rejected,
    /// Any other status, which the viewer ignores.
    Unrecognized(u32),
}

/// The host's side of a session that it offers on a login: the size it streams, its
/// frame rate, the percentage by which it downscaled the monitor, and the ports of its
/// video, audio and input endpoints.
#[derive(Debug, Clone, Copy, PartialEq, Eq)]
pub struct StreamInfo {
    pub height: u32,
    pub width: u32,
    pub framerate: u32,
    pub downscale: u32,
    pub port_video: u16,
    pub port_audio: u16,
    pub port_input: u16,
}

/// The key of the mouse event flags.
pub open spec fn key_mouse_state() -> Seq<char> {
    "mouse_state"@
}

/// The key of the cursor's column.
pub open spec fn key_position_x() -> Seq<char> {
    "position_x"@
}

/// The key of the cursor's row.
pub open spec fn key_position_y() -> Seq<char> {
    "position_y"@
}

/// The key of the mouse event data.
pub open spec fn key_mouse_data() -> Seq<char> {
    "mouse_data"@
}

/// The key of the key's scan code.
pub open spec fn key_keyscan() -> Seq<char> {
    "keyscan"@
}

/// The key of the key event flags.
pub open spec fn key_keyboard_state() -> Seq<char> {
    "keyboard_state"@
}

/// The key of the login key.
pub open spec fn key_key() -> Seq<char> {
    "key"@
}

/// The key of the login password.
pub open spec fn key_password() -> Seq<char> {
    "password"@
}

/// The key of the login status.
pub open spec fn key_status() -> Seq<char> {
    "status"@
}

/// The key of the stream height.
pub open spec fn key_height() -> Seq<char> {
    "height"@
}

/// The key of the stream width.
pub open spec fn key_width() -> Seq<char> {
    "width"@
}

/// The key of the stream frame rate.
pub open spec fn key_framerate() -> Seq<char> {
    "framerate"@
}

/// The key of the stream downscale.
pub open spec fn key_downscale() -> Seq<char> {
    "downscale"@
}

/// The key of the video port.
pub open spec fn key_port_video() -> Seq<char> {
    "portvideo"@
}

/// The key of the audio port.
pub open spec fn key_port_audio() -> Seq<char> {
    "portaudio"@
}

/// The key of the input port.
pub open spec fn key_port_input() -> Seq<char> {
    "portinput"@
}

/// The map of a mouse message: its state flags, position and wheel data.
pub open spec fn mouse_entries(mouse_state: u32, position_x: i16, position_y: i16, mouse_data: u32) -> Seq<(Seq<char>, FlexValueView)> {
    seq![
        (key_mouse_state(), FlexValueView::U32(mouse_state)),
        (key_position_x(), FlexValueView::I16(position_x)),
        (key_position_y(), FlexValueView::I16(position_y)),
        (key_mouse_data(), FlexValueView::U8(mouse_data as u8)),
    ]
}

/// The map of a keyboard message: the scan code and the key's state flags.
pub open spec fn keyboard_entries(keyboard_state: u16, keyscan: u16) -> Seq<(Seq<char>, FlexValueView)> {
    seq![
        (key_keyscan(), FlexValueView::U16(keyscan)),
        (key_keyboard_state(), FlexValueView::U16(keyboard_state)),
    ]
}

/// The map of a login.
pub open spec fn auth_request_entries(key: Seq<char>, password: Seq<char>) -> Seq<(Seq<char>, FlexValueView)> {
    seq![(key_key(), FlexValueView::Str(key)), (key_password(), FlexValueView::Str(password))]
}

/// The map of an accepted login.
pub open spec fn auth_accepted_entries(info: StreamInfo) -> Seq<(Seq<char>, FlexValueView)> {
    seq![
        (key_status(), FlexValueView::U32(0)),
        (key_height(), FlexValueView::U32(info.height)),
        (key_width(), FlexValueView::U32(info.width)),
        (key_port_video(), FlexValueView::U32(info.port_video as u32)),
        (key_port_audio(), FlexValueView::U32(info.port_audio as u32)),
        (key_port_input(), FlexValueView::U32(info.port_input as u32)),
        (key_framerate(), FlexValueView::U32(info.framerate)),
        (key_downscale(), FlexValueView::U32(info.downscale)),
    ]
}

/// The map of a refused login.
pub open spec fn auth_rejected_entries() -> Seq<(Seq<char>, FlexValueView)> {
    seq![(key_status(), FlexValueView::U16(1))]
}

/// The fields that the host reads from an input message.
pub open spec fn input_fields_of(bytes: Seq<u8>) -> InputFields {
    InputFields {
        mouse_state: flex_read_u32(bytes, key_mouse_state()),
        mouse_data: flex_read_u32(bytes, key_mouse_data()),
        position_x: flex_read_i32(bytes, key_position_x()),
        position_y: flex_read_i32(bytes, key_position_y()),
        keyscan: flex_read_u16(bytes, key_keyscan()),
        keyboard_state: flex_read_u32(bytes, key_keyboard_state()),
    }
}

/// The key and the password that the host reads from a login.
pub open spec fn auth_request_of(bytes: Seq<u8>) -> (Seq<char>, Seq<char>) {
    (flex_read_str(bytes, key_key()), flex_read_str(bytes, key_password()))
}

/// The answer that the viewer reads from the host's reply.
pub open spec fn auth_reply_of(bytes: Seq<u8>) -> AuthReply {
    let status = flex_read_u32(bytes, key_status());
    if status == 0 {
        AuthReply::Accepted(
            StreamSetup {
                height: flex_read_u32(bytes, key_height()),
                width: flex_read_u32(bytes, key_width()),
                framerate: flex_read_u32(bytes, key_framerate()),
                downscale: flex_read_u32(bytes, key_downscale()),
                port_video: flex_read_u32(bytes, key_port_video()),
                port_audio: flex_read_u32(bytes, key_port_audio()),
                port_input: flex_read_u32(bytes, key_port_input()),
            },
        )
    } else if status == 1 {
        AuthReply::Rejected
    } else {
        AuthReply::Unrecognized(status)
    }
}

/// The setup that the viewer reads from the acceptance of a login: the host's size,
/// frame rate, downscale and ports.
pub open spec fn setup_of(info: StreamInfo) -> StreamSetup {
    StreamSetup {
        height: info.height,
        width: info.width,
        framerate: info.framerate,
        downscale: info.downscale,
        port_video: info.port_video as u32,
        port_audio: info.port_audio as u32,
        port_input: info.port_input as u32,
    }
}

/// The input fields of a mouse message.
pub open spec fn mouse_fields(mouse_state: u32, position_x: i16, position_y: i16, mouse_data: u32) -> InputFields {
    InputFields {
        mouse_state,
        mouse_data: (mouse_data as u8) as u32,
        position_x: position_x as i32,
        position_y: position_y as i32,
        keyscan: 0,
        keyboard_state: 0,
    }
}

/// The input fields of a keyboard message.
pub open spec fn keyboard_fields(keyboard_state: u16, keyscan: u16) -> InputFields {
    InputFields {
        mouse_state: 0,
        mouse_data: 0,
        position_x: 0,
        position_y: 0,
        keyscan,
        keyboard_state: keyboard_state as u32,
    }
}

/// A lookup of each of the input fields in these bytes returns.
pub open spec fn input_lookup_safe(bytes: Seq<u8>) -> bool {
    &&& flex_lookup_safe(bytes, key_mouse_state())
    &&& flex_lookup_safe(bytes, key_mouse_data())
    &&& flex_lookup_safe(bytes, key_position_x())
    &&& flex_lookup_safe(bytes, key_position_y())
    &&& flex_lookup_safe(bytes, key_keyscan())
    &&& flex_lookup_safe(bytes, key_keyboard_state())
}

/// A lookup of the key and of the password of a login in these bytes returns.
pub open spec fn auth_request_lookup_safe(bytes: Seq<u8>) -> bool {
    &&& flex_lookup_safe(bytes, key_key())
    &&& flex_lookup_safe(bytes, key_password())
}

/// A lookup of each field of a stream's setup in these bytes returns.
pub open spec fn setup_lookup_safe(bytes: Seq<u8>) -> bool {
    &&& flex_lookup_safe(bytes, key_height())
    &&& flex_lookup_safe(bytes, key_width())
    &&& flex_lookup_safe(bytes, key_framerate())
    &&& flex_lookup_safe(bytes, key_downscale())
    &&& flex_lookup_safe(bytes, key_port_video())
    &&& flex_lookup_safe(bytes, key_port_audio())
    &&& flex_lookup_safe(bytes, key_port_input())
}

/// The lookups that the viewer makes in the host's answer return: that of the status,
/// and on status 0 those of the setup.
pub open spec fn auth_reply_lookup_safe(bytes: Seq<u8>) -> bool {
    &&& flex_lookup_safe(bytes, key_status())
    &&& (flex_read_u32(bytes, key_status()) == 0 ==> setup_lookup_safe(bytes))
}

proof fn lemma_reveal_keys()
    ensures
        key_mouse_state() == seq!['m', 'o', 'u', 's', 'e', '_', 's', 't', 'a', 't', 'e'],
        key_position_x() == seq!['p', 'o', 's', 'i', 't', 'i', 'o', 'n', '_', 'x'],
        key_position_y() == seq!['p', 'o', 's', 'i', 't', 'i', 'o', 'n', '_', 'y'],
        key_mouse_data() == seq!['m', 'o', 'u', 's', 'e', '_', 'd', 'a', 't', 'a'],
        key_keyscan() == seq!['k', 'e', 'y', 's', 'c', 'a', 'n'],
        key_keyboard_state() == seq!['k', 'e', 'y', 'b', 'o', 'a', 'r', 'd', '_', 's', 't', 'a', 't', 'e'],
        key_key() == seq!['k', 'e', 'y'],
        key_password() == seq!['p', 'a', 's', 's', 'w', 'o', 'r', 'd'],
        key_status() == seq!['s', 't', 'a', 't', 'u', 's'],
        key_height() == seq!['h', 'e', 'i', 'g', 'h', 't'],
        key_width() == seq!['w', 'i', 'd', 't', 'h'],
        key_framerate() == seq!['f', 'r', 'a', 'm', 'e', 'r', 'a', 't', 'e'],
        key_downscale() == seq!['d', 'o', 'w', 'n', 's', 'c', 'a', 'l', 'e'],
        key_port_video() == seq!['p', 'o', 'r', 't', 'v', 'i', 'd', 'e', 'o'],
        key_port_audio() == seq!['p', 'o', 'r', 't', 'a', 'u', 'd', 'i', 'o'],
        key_port_input() == seq!['p', 'o', 'r', 't', 'i', 'n', 'p', 'u', 't'],
{
    reveal_strlit("mouse_state");
    reveal_strlit("position_x");
    reveal_strlit("position_y");
    reveal_strlit("mouse_data");
    reveal_strlit("keyscan");
    reveal_strlit("keyboard_state");
    reveal_strlit("key");
    reveal_strlit("password");
    reveal_strlit("status");
    reveal_strlit("height");
    reveal_strlit("width");
    reveal_strlit("framerate");
    reveal_strlit("downscale");
    reveal_strlit("portvideo");
    reveal_strlit("portaudio");
    reveal_strlit("portinput");
}

/// Encodes a mouse message: the state flags, the cursor position and the wheel data
/// (of which the low byte is sent).
pub fn encode_mouse_input(mouse_state: u32, position_x: i16, position_y: i16, mouse_data: u32) -> (bytes: Vec<u8>)
    ensures
        bytes@ == flex_map_bytes(mouse_entries(mouse_state, position_x, position_y, mouse_data)),
        flex_root_parses(bytes@),
        forall|key: Seq<char>| #[trigger] flex_lookup_safe(bytes@, key),
        input_fields_of(bytes@) == mouse_fields(mouse_state, position_x, position_y, mouse_data),
{
    let entries = vec![
        FlexEntry { key: "mouse_state", value: FlexValue::U32(mouse_state) },
        FlexEntry { key: "position_x", value: FlexValue::I16(position_x) },
        FlexEntry { key: "position_y", value: FlexValue::I16(position_y) },
        FlexEntry { key: "mouse_data", value: FlexValue::U8(mouse_data as u8) },
    ];
    proof {
        lemma_reveal_keys();
        assert(entries_view(entries@) =~= mouse_entries(mouse_state, position_x, position_y, mouse_data));
    }
    let bytes = flex_encode_map(&entries);
    proof {
        let m = entries_view(entries@);
        assert(reads_back(bytes@, m[0].0, m[0].1));
        assert(reads_back(bytes@, m[1].0, m[1].1));
        assert(reads_back(bytes@, m[2].0, m[2].1));
        assert(reads_back(bytes@, m[3].0, m[3].1));
        assert(reads_absent(bytes@, key_keyscan()));
        assert(reads_absent(bytes@, key_keyboard_state()));
    }
    bytes
}

/// Encodes a keyboard message: the key's state flags and its scan code.
pub fn encode_keyboard_input(keyboard_state: u16, keyscan: u16) -> (bytes: Vec<u8>)
    ensures
        bytes@ == flex_map_bytes(keyboard_entries(keyboard_state, keyscan)),
        flex_root_parses(bytes@),
        forall|key: Seq<char>| #[trigger] flex_lookup_safe(bytes@, key),
        input_fields_of(bytes@) == keyboard_fields(keyboard_state, keyscan),
{
    let entries = vec![
        FlexEntry { key: "keyscan", value: FlexValue::U16(keyscan) },
        FlexEntry { key: "keyboard_state", value: FlexValue::U16(keyboard_state) },
    ];
    proof {
        lemma_reveal_keys();
        assert(entries_view(entries@) =~= keyboard_entries(keyboard_state, keyscan));
    }
    let bytes = flex_encode_map(&entries);
    proof {
        let m = entries_view(entries@);
        assert(reads_back(bytes@, m[0].0, m[0].1));
        assert(reads_back(bytes@, m[1].0, m[1].1));
        assert(reads_absent(bytes@, key_mouse_state()));
        assert(reads_absent(bytes@, key_mouse_data()));
        assert(reads_absent(bytes@, key_position_x()));
        assert(reads_absent(bytes@, key_position_y()));
    }
    bytes
}

/// Encodes a login with a key and a password.
pub fn encode_auth_request(key: &str, password: &str) -> (bytes: Vec<u8>)
    ensures
        bytes@ == flex_map_bytes(auth_request_entries(key@, password@)),
        flex_root_parses(bytes@),
        forall|key: Seq<char>| #[trigger] flex_lookup_safe(bytes@, key),
        auth_request_of(bytes@) == (key@, password@),
{
    let entries = vec![
        FlexEntry { key: "key", value: FlexValue::Str(key) },
        FlexEntry { key: "password", value: FlexValue::Str(password) },
    ];
    proof {
        lemma_reveal_keys();
        assert(entries_view(entries@) =~= auth_request_entries(key@, password@));
    }
    let bytes = flex_encode_map(&entries);
    proof {
        let m = entries_view(entries@);
        assert(reads_back(bytes@, m[0].0, m[0].1));
        assert(reads_back(bytes@, m[1].0, m[1].1));
    }
    bytes
}

/// Encodes the host's acceptance of a login: status 0, the streamed size, the ports of
/// the video, audio and input endpoints, the frame rate and the downscale.
pub fn encode_auth_accepted(info: &StreamInfo) -> (bytes: Vec<u8>)
    ensures
        bytes@ == flex_map_bytes(auth_accepted_entries(*info)),
        flex_root_parses(bytes@),
        forall|key: Seq<char>| #[trigger] flex_lookup_safe(bytes@, key),
        auth_reply_of(bytes@) == AuthReply::Accepted(setup_of(*info)),
{
    let entries = vec![
        FlexEntry { key: "status", value: FlexValue::U32(0) },
        FlexEntry { key: "height", value: FlexValue::U32(info.height) },
        FlexEntry { key: "width", value: FlexValue::U32(info.width) },
        FlexEntry { key: "portvideo", value: FlexValue::U32(info.port_video as u32) },
        FlexEntry { key: "portaudio", value: FlexValue::U32(info.port_audio as u32) },
        FlexEntry { key: "portinput", value: FlexValue::U32(info.port_input as u32) },
        FlexEntry { key: "framerate", value: FlexValue::U32(info.framerate) },
        FlexEntry { key: "downscale", value: FlexValue::U32(info.downscale) },
    ];
    proof {
        lemma_reveal_keys();
        assert(entries_view(entries@) =~= auth_accepted_entries(*info));
    }
    let bytes = flex_encode_map(&entries);
    proof {
        let m = entries_view(entries@);
        assert(reads_back(bytes@, m[0].0, m[0].1));
        assert(reads_back(bytes@, m[1].0, m[1].1));
        assert(reads_back(bytes@, m[2].0, m[2].1));
        assert(reads_back(bytes@, m[3].0, m[3].1));
        assert(reads_back(bytes@, m[4].0, m[4].1));
        assert(reads_back(bytes@, m[5].0, m[5].1));
        assert(reads_back(bytes@, m[6].0, m[6].1));
        assert(reads_back(bytes@, m[7].0, m[7].1));
    }
    bytes
}

/// Encodes the host's refusal of a login: status 1.
pub fn encode_auth_rejected() -> (bytes: Vec<u8>)
    ensures
        bytes@ == flex_map_bytes(auth_rejected_entries()),
        flex_root_parses(bytes@),
        forall|key: Seq<char>| #[trigger] flex_lookup_safe(bytes@, key),
        auth_reply_of(bytes@) == AuthReply::Rejected,
{
    let entries = vec![FlexEntry { key: "status", value: FlexValue::U16(1) }];
    proof {
        lemma_reveal_keys();
        assert(entries_view(entries@) =~= auth_rejected_entries());
    }
    let bytes = flex_encode_map(&entries);
    proof {
        let m = entries_view(entries@);
        assert(reads_back(bytes@, m[0].0, m[0].1));
    }
    bytes
}

fn input_lookup_is_safe(bytes: &[u8]) -> (ok: bool)
    ensures
        ok == input_lookup_safe(bytes@),
{
    flex_lookup_is_safe(bytes, "mouse_state") && flex_lookup_is_safe(bytes, "mouse_data")
        && flex_lookup_is_safe(bytes, "position_x") && flex_lookup_is_safe(bytes, "position_y")
        && flex_lookup_is_safe(bytes, "keyscan") && flex_lookup_is_safe(bytes, "keyboard_state")
}

fn setup_lookup_is_safe(bytes: &[u8]) -> (ok: bool)
    ensures
        ok == setup_lookup_safe(bytes@),
{
    flex_lookup_is_safe(bytes, "height") && flex_lookup_is_safe(bytes, "width")
        && flex_lookup_is_safe(bytes, "framerate") && flex_lookup_is_safe(bytes, "downscale")
        && flex_lookup_is_safe(bytes, "portvideo") && flex_lookup_is_safe(bytes, "portaudio")
        && flex_lookup_is_safe(bytes, "portinput")
}

/// Reads the input fields of a message whose root parses.
pub fn read_input_fields(bytes: &[u8]) -> (fields: InputFields)
    requires
        flex_root_parses(bytes@),
        input_lookup_safe(bytes@),
    ensures
        fields == input_fields_of(bytes@),
{
    InputFields {
        mouse_state: flex_field_u32(bytes, "mouse_state"),
        mouse_data: flex_field_u32(bytes, "mouse_data"),
        position_x: flex_field_i32(bytes, "position_x"),
        position_y: flex_field_i32(bytes, "position_y"),
        keyscan: flex_field_u16(bytes, "keyscan"),
        keyboard_state: flex_field_u32(bytes, "keyboard_state"),
    }
}

/// Reads the input fields of a message, or `None` where the bytes hold no flexbuffer
/// root or the lookup of a field would not return.
pub fn decode_input(bytes: &[u8]) -> (fields: Option<InputFields>)
    ensures
        fields is Some <==> flex_root_parses(bytes@) && input_lookup_safe(bytes@),
        fields matches Some(f) ==> f == input_fields_of(bytes@),
{
    if flex_has_root(bytes) && input_lookup_is_safe(bytes) {
        Some(read_input_fields(bytes))
    } else {
        None
    }
}

/// Reads the key and the password of a login whose root parses.
pub fn read_auth_request(bytes: &[u8]) -> (credentials: (String, String))
    requires
        flex_root_parses(bytes@),
        auth_request_lookup_safe(bytes@),
    ensures
        (credentials.0@, credentials.1@) == auth_request_of(bytes@),
{
    (flex_field_str(bytes, "key"), flex_field_str(bytes, "password"))
}

/// Reads the key and the password of a login, or `None` where the bytes hold no
/// flexbuffer root or the lookup of either would not return.
pub fn decode_auth_request(bytes: &[u8]) -> (credentials: Option<(String, String)>)
    ensures
        credentials is Some <==> flex_root_parses(bytes@) && auth_request_lookup_safe(bytes@),
        credentials matches Some(c) ==> (c.0@, c.1@) == auth_request_of(bytes@),
{
    if flex_has_root(bytes) && flex_lookup_is_safe(bytes, "key") && flex_lookup_is_safe(
        bytes,
        "password",
    ) {
        Some(read_auth_request(bytes))
    } else {
        None
    }
}

/// Reads the host's answer to a login whose root parses: on status 0 the stream's
/// height, width, frame rate, downscale and ports, on status 1 a refusal.
pub fn read_auth_reply(bytes: &[u8]) -> (reply: AuthReply)
    requires
        flex_root_parses(bytes@),
        auth_reply_lookup_safe(bytes@),
    ensures
        reply == auth_reply_of(bytes@),
{
    let status = flex_field_u32(bytes, "status");
    if status == 0 {
        AuthReply::Accepted(
            StreamSetup {
                height: flex_field_u32(bytes, "height"),
                width: flex_field_u32(bytes, "width"),
                framerate: flex_field_u32(bytes, "framerate"),
                downscale: flex_field_u32(bytes, "downscale"),
                port_video: flex_field_u32(bytes, "portvideo"),
                port_audio: flex_field_u32(bytes, "portaudio"),
                port_input: flex_field_u32(bytes, "portinput"),
            },
        )
    } else if status == 1 {
        AuthReply::Rejected
    } else {
        AuthReply::Unrecognized(status)
    }
}

/// Reads the host's answer to a login, or `None` where the bytes hold no flexbuffer
/// root or a lookup that the answer needs would not return.
pub fn decode_auth_reply(bytes: &[u8]) -> (reply: Option<AuthReply>)
    ensures
        reply is Some <==> flex_root_parses(bytes@) && auth_reply_lookup_safe(bytes@),
        reply matches Some(r) ==> r == auth_reply_of(bytes@),
{
    if !(flex_has_root(bytes) && flex_lookup_is_safe(bytes, "status")) {
        return None;
    }
    if flex_field_u32(bytes, "status") == 0 && !setup_lookup_is_safe(bytes) {
        return None;
    }
    Some(read_auth_reply(bytes))
}

} // verus!
