//! The host's decisions: whom it lets in, and what input it injects for each message
//! that arrives on its input port.

use vstd::prelude::*;
use crate::flags::MOUSEEVENTF_MOVE;
use crate::flex::{flex_map_bytes, flex_root_parses};
use crate::layout::flex_lookup_safe;
use crate::protocol::{
    auth_accepted_entries, auth_rejected_entries, auth_reply_of, auth_request_lookup_safe,
    auth_request_of, decode_auth_request, input_lookup_safe, decode_input, encode_auth_accepted, encode_auth_rejected,
    input_fields_of, setup_of, AuthReply, InputFields, StreamInfo,
};

verus! {

/// What the host does with one input message.
#[derive(Debug, Clone, Copy, PartialEq, Eq)]
pub enum InputCommand {
    /// Inject a mouse event with these flags, position and data.
    Mouse { flags: u32, x: i32, y: i32, data: u32 },
    /// Inject a key with this scan code and these flags.
    Keyboard { keyscan: u16, flags: u32 },
    /// Do nothing.
    Ignore,
}

/// A message with a position off both axes is a mouse event; otherwise one with a
/// scan code and key flags is a key; anything else is ignored.
pub open spec fn input_command_of(f: InputFields) -> InputCommand {
    if f.position_x != 0 && f.position_y != 0 {
        InputCommand::Mouse { flags: f.mouse_state, x: f.position_x, y: f.position_y, data: f.mouse_data }
    } else if f.keyscan != 0 && f.keyboard_state != 0 {
        InputCommand::Keyboard { keyscan: f.keyscan, flags: f.keyboard_state }
    } else {
        InputCommand::Ignore
    }
}

/// Decides what to inject for the fields of one input message.
pub fn decide_input(fields: &InputFields) -> (command: InputCommand)
    ensures
        command == input_command_of(*fields),
{
    if fields.position_x != 0 && fields.position_y != 0 {
        InputCommand::Mouse {
            flags: fields.mouse_state,
            x: fields.position_x,
            y: fields.position_y,
            data: fields.mouse_data,
        }
    } else if fields.keyscan != 0 && fields.keyboard_state != 0 {
        InputCommand::Keyboard { keyscan: fields.keyscan, flags: fields.keyboard_state }
    } else {
        InputCommand::Ignore
    }
}

/// Decodes one message of the input port and decides what to inject; `None` where the
/// bytes hold no flexbuffer root or the lookup of a field would not return.
pub fn handle_input_message(bytes: &[u8]) -> (command: Option<InputCommand>)
    ensures
        command is Some <==> flex_root_parses(bytes@) && input_lookup_safe(bytes@),
        command matches Some(c) ==> c == input_command_of(input_fields_of(bytes@)),
{
    match decode_input(bytes) {
        Some(fields) => Some(decide_input(&fields)),
        None => None,
    }
}

/// How the host carries out a mouse event.
#[derive(Debug, Clone, Copy, PartialEq, Eq)]
pub enum MouseInjection {
    /// Move the cursor to the position (`SetCursorPos`).
    MoveCursor { x: i32, y: i32 },
    /// Send one mouse input (`SendInput` with a `MOUSEINPUT`).
    Send { flags: u32, dx: i32, dy: i32, mouse_data: u32 },
}

/// A move places the cursor; every other mouse event is sent as input.
pub open spec fn mouse_injection_of(flags: u32, x: i32, y: i32, mouse_data: u32) -> MouseInjection {
    if flags == MOUSEEVENTF_MOVE {
        MouseInjection::MoveCursor { x, y }
    } else {
        MouseInjection::Send { flags, dx: x, dy: y, mouse_data }
    }
}

/// Chooses how to inject a mouse event.
pub fn plan_mouse_injection(flags: u32, x: i32, y: i32, mouse_data: u32) -> (plan: MouseInjection)
    ensures
        plan == mouse_injection_of(flags, x, y, mouse_data),
{
    if flags == MOUSEEVENTF_MOVE {
        MouseInjection::MoveCursor { x, y }
    } else {
        MouseInjection::Send { flags, dx: x, dy: y, mouse_data }
    }
}

/// The state of the host's login desk: the credentials it expects, and whether it has
/// started streaming.
pub struct LoginDesk {
    key: String,
    password: String,
    streaming: bool,
}

/// The abstract state of an [`LoginDesk`].
pub struct LoginDeskView {
    pub key: Seq<char>,
    pub password: Seq<char>,
    pub streaming: bool,
}

impl View for LoginDesk {
    type V = LoginDeskView;

    closed spec fn view(&self) -> LoginDeskView {
        LoginDeskView { key: self.key@, password: self.password@, streaming: self.streaming }
    }
}

/// The host's answer to one login.
pub struct AuthAnswer {
    /// The bytes to send back on the login connection.
    pub reply: Vec<u8>,
    /// Whether the viewer is let in: the host then takes its video, audio and input
    /// connections.
    pub accepted: bool,
    /// Whether the capture pipelines are to be started now (on the first login let in).
    pub start_streaming: bool,
}

/// A login is let in when both its key and its password are the expected ones.
pub open spec fn login_accepted(desk: LoginDeskView, request: Seq<u8>) -> bool {
    auth_request_of(request) == (desk.key, desk.password)
}

/// The desk after one login that parses.
pub open spec fn desk_after(desk: LoginDeskView, request: Seq<u8>) -> LoginDeskView {
    LoginDeskView {
        key: desk.key,
        password: desk.password,
        streaming: desk.streaming || login_accepted(desk, request),
    }
}

impl LoginDesk {
    /// A desk that expects this key and password and has not started streaming.
    pub fn new(key: &str, password: &str) -> (desk: LoginDesk)
        ensures
            desk@ == (LoginDeskView { key: key@, password: password@, streaming: false }),
    {
        LoginDesk { key: String::from_str(key), password: String::from_str(password), streaming: false }
    }

    /// Whether the desk has started streaming.
    pub fn is_streaming(&self) -> (streaming: bool)
        ensures
            streaming == self@.streaming,
    {
        self.streaming
    }

    /// Answers one login. `None` (and no change) where the bytes hold no flexbuffer
    /// root or the lookup of the key or the password would not return; otherwise the acceptance with the
    /// stream's size and ports, or the refusal.
    pub fn answer(&mut self, request: &[u8], info: &StreamInfo) -> (answer: Option<AuthAnswer>)
        ensures
            answer is Some <==> flex_root_parses(request@) && auth_request_lookup_safe(request@),
            answer is None ==> final(self)@ == old(self)@,
            answer matches Some(a) ==> {
                &&& a.accepted == login_accepted(old(self)@, request@)
                &&& a.reply@ == (if a.accepted {
                    flex_map_bytes(auth_accepted_entries(*info))
                } else {
                    flex_map_bytes(auth_rejected_entries())
                })
                &&& flex_root_parses(a.reply@)
                &&& forall|key: Seq<char>| #[trigger] flex_lookup_safe(a.reply@, key)
                &&& auth_reply_of(a.reply@) == (if a.accepted {
                    AuthReply::Accepted(setup_of(*info))
                } else {
                    AuthReply::Rejected
                })
                &&& a.start_streaming == (a.accepted && !old(self)@.streaming)
                &&& final(self)@ == desk_after(old(self)@, request@)
            },
    {
        match decode_auth_request(request) {
            None => None,
            Some((key, password)) => {
                let accepted = key == self.key && password == self.password;
                if accepted {
                    let start_streaming = !self.streaming;
                    self.streaming = true;
                    Some(AuthAnswer { reply: encode_auth_accepted(info), accepted, start_streaming })
                } else {
                    Some(AuthAnswer { reply: encode_auth_rejected(), accepted, start_streaming: false })
                }
            },
        }
    }
}

} // verus!
