//! Properties that span the viewer, the wire and the host.

use vstd::prelude::*;
use crate::controls::{controls_after, ControlsView, Message};
use crate::decimal::{decimal, digits_value, lemma_nat_digits_value, nat_digits};
use crate::capture::{downscaled_side, is_default_wasapi2, selected_device_id, AudioDeviceView};
use crate::flags::{MOUSEEVENTF_LEFTDOWN, MOUSEEVENTF_LEFTUP, MOUSEEVENTF_MOVE, MOUSEEVENTF_WHEEL};
use crate::host::{
    desk_after, input_command_of, login_accepted, mouse_injection_of, InputCommand, LoginDeskView,
    MouseInjection,
};
use crate::protocol::{auth_request_of, keyboard_fields, mouse_fields};
use crate::viewer::{
    display_size_defined, display_size_of, stats_after_frame, frame_countable, forward_step, is_toggle_button, stats_at_event, FrameStatsView, ForwardAction, ForwarderView,
    MouseButton, ViewerEvent, MEASURE_WINDOW_MICROS,
};

verus! {

/// A mouse message makes the host inject that mouse event, with the low byte of its
/// data, when the position is off both axes.
pub proof fn law_mouse_message_injected(mouse_state: u32, x: i16, y: i16, mouse_data: u32)
    requires
        x != 0,
        y != 0,
    ensures
        input_command_of(mouse_fields(mouse_state, x, y, mouse_data)) == (InputCommand::Mouse {
            flags: mouse_state,
            x: x as i32,
            y: y as i32,
            data: (mouse_data as u8) as u32,
        }),
{
}

/// A mouse message whose position lies on an axis is ignored by the host.
pub proof fn law_mouse_message_on_axis_ignored(mouse_state: u32, x: i16, y: i16, mouse_data: u32)
    requires
        x == 0 || y == 0,
    ensures
        input_command_of(mouse_fields(mouse_state, x, y, mouse_data)) == InputCommand::Ignore,
{
}

/// A keyboard message makes the host inject that key, when both its scan code and its
/// flags are set.
pub proof fn law_keyboard_message_injected(keyboard_state: u16, keyscan: u16)
    requires
        keyscan != 0,
        keyboard_state != 0,
    ensures
        input_command_of(keyboard_fields(keyboard_state, keyscan)) == (InputCommand::Keyboard {
            keyscan,
            flags: keyboard_state as u32,
        }),
{
}

/// Every keyboard message that the viewer forwards is one that the host injects.
pub proof fn law_forwarded_keys_injected(s: ForwarderView, pressed: bool, scancode: u32)
    requires
        scancode as u16 != 0,
    ensures
        forward_step(s, ViewerEvent::Key { pressed, scancode }).1 matches ForwardAction::Keyboard {
            keyboard_state,
            keyscan,
        } && input_command_of(keyboard_fields(keyboard_state, keyscan)) == (InputCommand::Keyboard {
            keyscan,
            flags: keyboard_state as u32,
        }),
{
    assert((8u32 | 2u32) == 10u32) by (bit_vector);
}

/// The host injects what the viewer forwards for one event: the forwarded mouse
/// message, once on the wire, becomes the host's mouse command with the same flags and
/// position, and the low byte of its data.
pub open spec fn host_command_for(action: ForwardAction) -> InputCommand {
    match action {
        ForwardAction::Mouse { state, x, y, data } => input_command_of(mouse_fields(state, x, y, data)),
        ForwardAction::Keyboard { keyboard_state, keyscan } => input_command_of(
            keyboard_fields(keyboard_state, keyscan),
        ),
        ForwardAction::Nothing => InputCommand::Ignore,
    }
}

/// A forwarded cursor move off both axes makes the host place its cursor there.
pub proof fn law_forwarded_move_places_cursor(s: ForwarderView, x: i16, y: i16)
    requires
        s.forward_moves,
        x != 0,
        y != 0,
    ensures
        host_command_for(forward_step(s, ViewerEvent::CursorMoved { x, y }).1) matches InputCommand::Mouse {
            flags,
            x: hx,
            y: hy,
            data,
        } && mouse_injection_of(flags, hx, hy, data) == (MouseInjection::MoveCursor {
            x: x as i32,
            y: y as i32,
        }),
{
}

/// A left button press or release, forwarded while the cursor is off both axes, makes
/// the host send that button event at the cursor.
pub proof fn law_forwarded_left_click_sent(s: ForwarderView, pressed: bool)
    requires
        s.cursor_x != 0,
        s.cursor_y != 0,
    ensures
        host_command_for(
            forward_step(s, ViewerEvent::Button { pressed, button: MouseButton::Left }).1,
        ) matches InputCommand::Mouse { flags, x, y, data } && mouse_injection_of(flags, x, y, data)
            == (MouseInjection::Send {
            flags: if pressed { MOUSEEVENTF_LEFTDOWN } else { MOUSEEVENTF_LEFTUP },
            dx: s.cursor_x as i32,
            dy: s.cursor_y as i32,
            mouse_data: 0,
        }),
{
}

/// A wheel turn forwarded while the cursor is off both axes makes the host send a wheel
/// event whose data is the low byte of the line count.
pub proof fn law_forwarded_wheel_sent(s: ForwarderView, lines: i8)
    requires
        s.cursor_x != 0,
        s.cursor_y != 0,
    ensures
        host_command_for(forward_step(s, ViewerEvent::WheelLines { lines }).1) == (InputCommand::Mouse {
            flags: MOUSEEVENTF_WHEEL,
            x: s.cursor_x as i32,
            y: s.cursor_y as i32,
            data: ((lines as u32) as u8) as u32,
        }),
{
}

/// The window the viewer opens for a stream the host downscaled is never wider (or
/// taller) than the host's monitor side it came from, and for a downscale of at most 40
/// percent (the range the command line documents) it is at most 2 pixels narrower: the
/// viewer's upscale undoes the host's downscale up to rounding.
pub proof fn law_display_within_monitor(side: u32, downscale: i32)
    requires
        0 < downscale < 100,
        side <= i32::MAX,
        side * (100 - downscale) <= i32::MAX,
    ensures
        display_size_of(downscaled_side(side, downscale), downscaled_side(side, downscale), downscale as u32).0
            <= side,
        downscale <= 40 ==> side - 2 <= display_size_of(
            downscaled_side(side, downscale),
            downscaled_side(side, downscale),
            downscale as u32,
        ).0,
{
    let factor: int = 100 - downscale;
    assert((side as i32) as int == side as int);
    let product: int = side * factor;
    assert(product >= 0) by (nonlinear_arith)
        requires
            side >= 0,
            factor > 0,
            product == side * factor,
    ;
    let scaled: int = product / 100;
    assert(0 <= scaled <= u32::MAX) by (nonlinear_arith)
        requires
            0 <= product <= i32::MAX,
            scaled == product / 100,
    ;
    assert(downscaled_side(side, downscale) as int == scaled);
    assert(scaled * 100 <= product < scaled * 100 + 100) by (nonlinear_arith)
        requires
            product >= 0,
            scaled == product / 100,
    ;
    assert(scaled * 100 <= u32::MAX);
    let shown: int = (scaled * 100) / factor;
    assert(shown <= side) by (nonlinear_arith)
        requires
            scaled * 100 <= product,
            product == side * factor,
            factor > 0,
            scaled >= 0,
            shown == (scaled * 100) / factor,
    ;
    assert(shown * factor <= scaled * 100 < (shown + 1) * factor) by (nonlinear_arith)
        requires
            scaled >= 0,
            factor > 0,
            shown == (scaled * 100) / factor,
    ;
    if downscale <= 40 {
        assert(side - 2 <= shown) by (nonlinear_arith)
            requires
                (shown + 1) * factor > scaled * 100,
                scaled * 100 + 100 > side * factor,
                factor >= 60,
        ;
    }
    assert(display_size_of(scaled as u32, scaled as u32, downscale as u32).0 == shown);
}

/// The forwarder after a sequence of window events.
pub open spec fn forward_run(s: ForwarderView, events: Seq<ViewerEvent>) -> ForwarderView
    decreases events.len(),
{
    if events.len() == 0 {
        s
    } else {
        forward_step(forward_run(s, events.drop_last()), events.last()).0
    }
}

/// A press of the button that toggles the forwarding of cursor moves.
pub open spec fn is_toggle_press(e: ViewerEvent) -> bool {
    e matches ViewerEvent::Button { pressed, button } && pressed && is_toggle_button(button)
}

/// How many presses of the toggle button a sequence of events holds.
pub open spec fn toggle_presses(events: Seq<ViewerEvent>) -> nat
    decreases events.len(),
{
    if events.len() == 0 {
        0
    } else {
        toggle_presses(events.drop_last()) + if is_toggle_press(events.last()) {
            1nat
        } else {
            0nat
        }
    }
}

/// Over any sequence of window events, cursor moves are forwarded exactly when they were
/// at the start and the toggle button was pressed an even number of times, or they were
/// not and it was pressed an odd number of times.
pub proof fn law_toggle_parity(s: ForwarderView, events: Seq<ViewerEvent>)
    ensures
        forward_run(s, events).forward_moves == (s.forward_moves == (toggle_presses(events) % 2 == 0)),
    decreases events.len(),
{
    if events.len() > 0 {
        law_toggle_parity(s, events.drop_last());
        let before = forward_run(s, events.drop_last());
        if !is_toggle_press(events.last()) {
            law_only_toggle_changes_forwarding(before, events.last());
        }
    }
}

/// The login desk after a sequence of logins that parse.
pub open spec fn desk_run(desk: LoginDeskView, requests: Seq<Seq<u8>>) -> LoginDeskView
    decreases requests.len(),
{
    if requests.len() == 0 {
        desk
    } else {
        desk_after(desk_run(desk, requests.drop_last()), requests.last())
    }
}

/// Whether some login of the sequence carries the desk's credentials.
pub open spec fn any_login_accepted(desk: LoginDeskView, requests: Seq<Seq<u8>>) -> bool
    decreases requests.len(),
{
    requests.len() > 0 && (any_login_accepted(desk, requests.drop_last()) || login_accepted(
        desk,
        requests.last(),
    ))
}

/// How many answers of the sequence start streaming.
pub open spec fn streaming_starts(desk: LoginDeskView, requests: Seq<Seq<u8>>) -> nat
    decreases requests.len(),
{
    if requests.len() == 0 {
        0
    } else {
        let before = desk_run(desk, requests.drop_last());
        streaming_starts(desk, requests.drop_last()) + if login_accepted(before, requests.last())
            && !before.streaming {
            1nat
        } else {
            0nat
        }
    }
}

/// Over any sequence of logins, a desk that has not started streaming starts it exactly
/// once if one of them carries its credentials and never otherwise; it is streaming at
/// the end exactly then; its credentials never change.
pub proof fn law_streaming_starts_exactly_once(desk: LoginDeskView, requests: Seq<Seq<u8>>)
    ensures
        desk_run(desk, requests).key == desk.key,
        desk_run(desk, requests).password == desk.password,
        desk_run(desk, requests).streaming == (desk.streaming || any_login_accepted(desk, requests)),
        !desk.streaming ==> streaming_starts(desk, requests) == (if any_login_accepted(desk, requests) {
            1nat
        } else {
            0nat
        }),
    decreases requests.len(),
{
    if requests.len() > 0 {
        law_streaming_starts_exactly_once(desk, requests.drop_last());
    }
}

/// A device that is not a default WASAPI2 device, added anywhere to the list, leaves the
/// chosen device unchanged.
pub proof fn law_irrelevant_device_ignored(devices: Seq<AudioDeviceView>, i: int, d: AudioDeviceView)
    requires
        0 <= i <= devices.len(),
        !is_default_wasapi2(d),
    ensures
        selected_device_id(devices.insert(i, d)) == selected_device_id(devices),
    decreases devices.len(),
{
    let grown = devices.insert(i, d);
    if i == devices.len() {
        assert(grown.drop_last() =~= devices);
    } else {
        law_irrelevant_device_ignored(devices.drop_last(), i, d);
        assert(grown.drop_last() =~= devices.drop_last().insert(i, d));
        assert(grown.last() == devices.last());
    }
}

/// Among the default WASAPI2 devices only the last one listed decides: devices listed
/// before a list that holds one do not change the choice.
pub proof fn law_last_default_device_decides(earlier: Seq<AudioDeviceView>, later: Seq<AudioDeviceView>)
    requires
        exists|j: int| 0 <= j < later.len() && is_default_wasapi2(#[trigger] later[j]),
    ensures
        selected_device_id(earlier + later) == selected_device_id(later),
    decreases later.len(),
{
    let all = earlier + later;
    assert(all.last() == later.last());
    if !is_default_wasapi2(later.last()) {
        let j = choose|j: int| 0 <= j < later.len() && is_default_wasapi2(#[trigger] later[j]);
        assert(j < later.len() - 1);
        assert(later.drop_last()[j] == later[j]);
        law_last_default_device_decides(earlier, later.drop_last());
        assert(all.drop_last() =~= earlier + later.drop_last());
    }
}

/// A login is let in exactly when its key and its password are the expected ones.
pub proof fn law_login_accepted_iff_credentials_match(
    desk: LoginDeskView,
    request: Seq<u8>,
    key: Seq<char>,
    password: Seq<char>,
)
    requires
        auth_request_of(request) == (key, password),
    ensures
        login_accepted(desk, request) <==> (key == desk.key && password == desk.password),
{
}

/// The host starts streaming on the first login it lets in, and never again.
pub proof fn law_streaming_starts_once(desk: LoginDeskView, first: Seq<u8>, later: Seq<u8>)
    requires
        login_accepted(desk, first),
    ensures
        desk_after(desk, first).streaming,
        desk_after(desk_after(desk, first), later).streaming,
        desk_after(desk, first).key == desk.key,
        desk_after(desk, first).password == desk.password,
{
}

/// Pressing the toggle button twice restores the forwarding of cursor moves.
pub proof fn law_toggle_twice_restores(s: ForwarderView)
    ensures
        ({
            let toggle = ViewerEvent::Button { pressed: true, button: MouseButton::Other(2) };
            forward_step(forward_step(s, toggle).0, toggle).0 == s
        }),
{
}

/// Only a press of the toggle button changes whether cursor moves are forwarded.
pub proof fn law_only_toggle_changes_forwarding(s: ForwarderView, e: ViewerEvent)
    requires
        !(e matches ViewerEvent::Button { pressed, button } && pressed && is_toggle_button(button)),
    ensures
        forward_step(s, e).0.forward_moves == s.forward_moves,
{
}

/// While cursor moves are not forwarded, a move sends nothing and leaves the cursor.
pub proof fn law_moves_held_while_off(s: ForwarderView, x: i16, y: i16)
    requires
        !s.forward_moves,
    ensures
        forward_step(s, ViewerEvent::CursorMoved { x, y }) == (s, ForwardAction::Nothing),
{
}

/// A button press is sent at the position of the last forwarded move.
pub proof fn law_click_at_last_forwarded_move(s: ForwarderView, x: i16, y: i16)
    requires
        s.forward_moves,
    ensures
        forward_step(
            forward_step(s, ViewerEvent::CursorMoved { x, y }).0,
            ViewerEvent::Button { pressed: true, button: MouseButton::Left },
        ).1 matches ForwardAction::Mouse { x: cx, y: cy, .. } && cx == x && cy == y,
{
}

/// At the start of every event the frame counter holds less than one window of time.
pub proof fn law_window_closed_at_event(s: FrameStatsView)
    ensures
        stats_at_event(s).total_micros < MEASURE_WINDOW_MICROS,
{
}

/// The decimal text of a number denotes it: digits without a leading zero, after a
/// minus sign for a negative number.
pub proof fn law_decimal_denotes(n: int)
    ensures
        n >= 0 ==> digits_value(decimal(n)) == n,
        n < 0 ==> decimal(n)[0] == '-' && digits_value(decimal(n).drop_first()) == -n,
        n != 0 ==> decimal(n)[if n < 0 { 1int } else { 0int }] != '0',
{
    if n >= 0 {
        lemma_nat_digits_value(n as nat);
    } else {
        lemma_nat_digits_value((-n) as nat);
        assert(decimal(n).drop_first() =~= nat_digits((-n) as nat));
    }
}

/// The overlay after a run of messages, taken in order.
pub open spec fn controls_run(c: ControlsView, messages: Seq<Message>) -> ControlsView
    decreases messages.len(),
{
    if messages.len() == 0 {
        c
    } else {
        controls_after(controls_run(c, messages.drop_last()), messages.last())
    }
}

/// After any run of messages the overlay's colour is the one of the last colour message,
/// or the colour it had if there is none; likewise its text is the one of the last text
/// message, or the text it had.
pub proof fn law_last_message_decides(c: ControlsView, messages: Seq<Message>)
    ensures
        (forall|i: int| 0 <= i < messages.len() ==> !(#[trigger] messages[i] is BackgroundColorChanged))
            ==> controls_run(c, messages).background_color == c.background_color,
        forall|k: int|
            0 <= k < messages.len() && (#[trigger] messages[k] is BackgroundColorChanged) && (forall|j: int|
                k < j < messages.len() ==> !(#[trigger] messages[j] is BackgroundColorChanged))
                ==> controls_run(c, messages).background_color == messages[k]->BackgroundColorChanged_0,
        (forall|i: int| 0 <= i < messages.len() ==> !(#[trigger] messages[i] is TextChanged))
            ==> controls_run(c, messages).text == c.text,
        forall|k: int|
            0 <= k < messages.len() && (#[trigger] messages[k] is TextChanged) && (forall|j: int|
                k < j < messages.len() ==> !(#[trigger] messages[j] is TextChanged))
                ==> controls_run(c, messages).text == messages[k]->TextChanged_0@,
    decreases messages.len(),
{
    if messages.len() > 0 {
        let p = messages.drop_last();
        let n = messages.len() - 1;
        law_last_message_decides(c, p);
        assert forall|i: int| 0 <= i < p.len() implies p[i] == messages[i] by {}
        assert forall|k: int|
            0 <= k < messages.len() && (#[trigger] messages[k] is BackgroundColorChanged) && (forall|j: int|
                k < j < messages.len() ==> !(#[trigger] messages[j] is BackgroundColorChanged))
            implies controls_run(c, messages).background_color == messages[k]->BackgroundColorChanged_0 by {
            if k < n {
                assert(!(messages[n] is BackgroundColorChanged));
                assert(p[k] == messages[k]);
                assert forall|j: int| k < j < p.len() implies !(#[trigger] p[j] is BackgroundColorChanged) by {
                    assert(p[j] == messages[j]);
                    assert(!(messages[j] is BackgroundColorChanged));
                }
            }
        }
        assert forall|k: int|
            0 <= k < messages.len() && (#[trigger] messages[k] is TextChanged) && (forall|j: int|
                k < j < messages.len() ==> !(#[trigger] messages[j] is TextChanged))
            implies controls_run(c, messages).text == messages[k]->TextChanged_0@ by {
            if k < n {
                assert(!(messages[n] is TextChanged));
                assert(p[k] == messages[k]);
                assert forall|j: int| k < j < p.len() implies !(#[trigger] p[j] is TextChanged) by {
                    assert(p[j] == messages[j]);
                    assert(!(messages[j] is TextChanged));
                }
            }
        }
        if forall|i: int| 0 <= i < messages.len() ==> !(#[trigger] messages[i] is BackgroundColorChanged) {
            assert(!(messages[n] is BackgroundColorChanged));
            assert forall|i: int| 0 <= i < p.len() implies !(#[trigger] p[i] is BackgroundColorChanged) by {
                assert(p[i] == messages[i]);
                assert(!(messages[i] is BackgroundColorChanged));
            }
        }
        if forall|i: int| 0 <= i < messages.len() ==> !(#[trigger] messages[i] is TextChanged) {
            assert(!(messages[n] is TextChanged));
            assert forall|i: int| 0 <= i < p.len() implies !(#[trigger] p[i] is TextChanged) by {
                assert(p[i] == messages[i]);
                assert(!(messages[i] is TextChanged));
            }
        }
    }
}

/// Only a forwarded cursor move changes the remembered cursor: every other event (keys,
/// buttons, the wheel, the toggle, redraws and the rest) leaves it where it was.
pub proof fn law_cursor_kept_by_other_events(s: ForwarderView, e: ViewerEvent)
    requires
        !(e is CursorMoved),
    ensures
        forward_step(s, e).0.cursor_x == s.cursor_x,
        forward_step(s, e).0.cursor_y == s.cursor_y,
{
}

/// A left press after a forwarded move and any one other event is still sent at the
/// moved-to position, as a left-button press with no data.
pub proof fn law_click_after_move_and_other_event(s: ForwarderView, x: i16, y: i16, e: ViewerEvent)
    requires
        s.forward_moves,
        !(e is CursorMoved),
    ensures
        ({
            let moved = forward_step(s, ViewerEvent::CursorMoved { x, y }).0;
            let after = forward_step(moved, e).0;
            forward_step(after, ViewerEvent::Button { pressed: true, button: MouseButton::Left }).1
                == ForwardAction::Mouse { state: 0x0002, x, y, data: 0 }
        }),
{
    let moved = forward_step(s, ViewerEvent::CursorMoved { x, y }).0;
    law_cursor_kept_by_other_events(moved, e);
}

/// The host places the cursor only for a move; every other mouse event, whatever its
/// flags (right and middle buttons, the wheel, combinations), is sent as input with its
/// flags, position and data unchanged.
pub proof fn law_only_moves_place_the_cursor(flags: u32, x: i32, y: i32, mouse_data: u32)
    ensures
        MOUSEEVENTF_MOVE == 0x0001,
        flags != 0x0001 ==> mouse_injection_of(flags, x, y, mouse_data) == (MouseInjection::Send {
            flags,
            dx: x,
            dy: y,
            mouse_data,
        }),
        flags == 0x0001 ==> mouse_injection_of(flags, x, y, mouse_data) == (MouseInjection::MoveCursor {
            x,
            y,
        }),
{
}

/// A non-empty choice of audio device is the id of a device listed with the API
/// "wasapi2" and the default flag "true", and no later device is such a one; an empty
/// choice means that no device with an id is such a one.
pub proof fn law_chosen_device_is_default_wasapi2(devices: Seq<AudioDeviceView>)
    requires
        forall|i: int|
            0 <= i < devices.len() && (#[trigger] devices[i]).api == Some("wasapi2"@)
                && devices[i].is_default == Some("true"@) ==> devices[i].id is Some,
    ensures
        selected_device_id(devices) != Seq::<char>::empty() ==> exists|i: int|
            0 <= i < devices.len() && (#[trigger] devices[i]).api == Some("wasapi2"@)
                && devices[i].is_default == Some("true"@) && devices[i].id == Some(
                selected_device_id(devices),
            ) && (forall|j: int|
                i < j < devices.len() ==> !((#[trigger] devices[j]).api == Some("wasapi2"@)
                    && devices[j].is_default == Some("true"@))),
        (forall|i: int|
            0 <= i < devices.len() ==> !((#[trigger] devices[i]).api == Some("wasapi2"@)
                && devices[i].is_default == Some("true"@))) ==> selected_device_id(devices)
            == Seq::<char>::empty(),
    decreases devices.len(),
{
    if devices.len() > 0 {
        let p = devices.drop_last();
        let n = devices.len() - 1;
        assert forall|i: int| 0 <= i < p.len() implies p[i] == devices[i] by {}
        law_chosen_device_is_default_wasapi2(p);
        let last = devices[n];
        if last.api == Some("wasapi2"@) && last.is_default == Some("true"@) {
            assert(devices.last() == last);
            assert(selected_device_id(devices) == last.id.unwrap());
        } else {
            assert(devices.last() == last);
            assert(!is_default_wasapi2(last));
            assert(selected_device_id(devices) == selected_device_id(p));
            if selected_device_id(devices) != Seq::<char>::empty() {
                let i = choose|i: int|
                    0 <= i < p.len() && (#[trigger] p[i]).api == Some("wasapi2"@)
                        && p[i].is_default == Some("true"@) && p[i].id == Some(selected_device_id(p))
                        && (forall|j: int|
                        i < j < p.len() ==> !((#[trigger] p[j]).api == Some("wasapi2"@)
                            && p[j].is_default == Some("true"@)));
                assert(devices[i] == p[i]);
                assert forall|j: int| i < j < devices.len() implies !((#[trigger] devices[j]).api
                    == Some("wasapi2"@) && devices[j].is_default == Some("true"@)) by {
                    if j < n {
                        assert(devices[j] == p[j]);
                    }
                }
            }
            if forall|i: int|
                0 <= i < devices.len() ==> !((#[trigger] devices[i]).api == Some("wasapi2"@)
                    && devices[i].is_default == Some("true"@)) {
                assert forall|i: int| 0 <= i < p.len() implies !((#[trigger] p[i]).api == Some(
                    "wasapi2"@,
                ) && p[i].is_default == Some("true"@)) by {
                    assert(devices[i] == p[i]);
                }
            }
        }
    }
}

/// A device whose API is not "wasapi2" (another provider's copy of the default sink,
/// say), added anywhere to the list, never changes the chosen device.
pub proof fn law_other_api_ignored(devices: Seq<AudioDeviceView>, i: int, d: AudioDeviceView)
    requires
        0 <= i <= devices.len(),
        d.api != Some("wasapi2"@),
    ensures
        selected_device_id(devices.insert(i, d)) == selected_device_id(devices),
{
    law_irrelevant_device_ignored(devices, i, d);
}

/// Each side of the viewer's window comes from the same side of the stream alone: the
/// width does not depend on the height, the height is computed as the width would be,
/// and a downscaled side is scaled back up by `100 / (100 - downscale)`, rounded down.
pub proof fn law_display_sides_independent(width: u32, height: u32, other: u32, downscale: u32)
    requires
        display_size_defined(width, height, downscale),
        display_size_defined(width, other, downscale),
    ensures
        display_size_of(width, height, downscale).0 == display_size_of(width, other, downscale).0,
        display_size_of(width, height, downscale).1 == display_size_of(height, width, downscale).0,
        downscale == 0 ==> display_size_of(width, height, downscale) == (width, height),
        0 < downscale ==> ({
            let r = display_size_of(width, height, downscale).0 as int;
            let q = display_size_of(width, height, downscale).1 as int;
            &&& r * (100 - downscale) <= width * 100 < (r + 1) * (100 - downscale)
            &&& q * (100 - downscale) <= height * 100 < (q + 1) * (100 - downscale)
        }),
{
    if downscale > 0 {
        let k = 100 - downscale as int;
        let a = width * 100;
        let b = height * 100;
        assert(0 <= a / k <= a) by (nonlinear_arith)
            requires
                k >= 1,
                a >= 0,
        ;
        assert(0 <= b / k <= b) by (nonlinear_arith)
            requires
                k >= 1,
                b >= 0,
        ;
        assert((a / k) * k <= a < (a / k + 1) * k) by (nonlinear_arith)
            requires
                k >= 1,
                a >= 0,
        ;
        assert((b / k) * k <= b < (b / k + 1) * k) by (nonlinear_arith)
            requires
                k >= 1,
                b >= 0,
        ;
    }
}

/// When a measuring window closes the frame counter starts again from zero, and the rate
/// kept is the count of that window; each presented frame then adds one.
pub proof fn law_window_close_restarts_count(s: FrameStatsView, elapsed_micros: u128)
    ensures
        s.total_micros >= MEASURE_WINDOW_MICROS ==> {
            &&& stats_at_event(s).frames == 0
            &&& stats_at_event(s).total_micros == 0
            &&& stats_at_event(s).frames_per_second == s.frames
        },
        s.total_micros < MEASURE_WINDOW_MICROS ==> stats_at_event(s) == s,
        frame_countable(s, elapsed_micros) ==> {
            &&& stats_after_frame(s, elapsed_micros).frames == s.frames + 1
            &&& stats_after_frame(s, elapsed_micros).total_micros == s.total_micros + elapsed_micros as i128
            &&& stats_after_frame(s, elapsed_micros).frames_per_second == s.frames_per_second
        },
{
}

} // verus!
