//! The overlay of the viewer's window: a background colour and the text of the
//! measured frame rate.

use vstd::prelude::*;
use iced_native::widget::button;
use iced_native::{Color, Command};
use crate::decimal::{decimal, decimal_string};

verus! {

#[verifier::external_type_specification]
#[verifier::external_body]
pub struct ExColor(iced_native::Color);

#[verifier::external_type_specification]
#[verifier::external_body]
pub struct ExButtonState(iced_native::widget::button::State);

#[verifier::external_type_specification]
#[verifier::external_body]
#[verifier::reject_recursive_types(T)]
pub struct ExCommand<T>(iced_native::Command<T>);

/// `iced_native::Color::BLACK`. Trusted to return; nothing is stated of the colour.
#[verifier::external_body]
fn black() -> Color {
    Color::BLACK
}

/// `Clone::clone` of `iced_native::Color`, which derives `Clone` on a `Copy` type of
/// four floats: the clone is the colour itself.
pub assume_specification[ <iced_native::Color as Clone>::clone ](color: &Color) -> (copy: Color)
    ensures
        copy == *color,
;

/// `iced_native::widget::button::State::new`. Trusted to return; nothing is stated of
/// the state.
#[verifier::external_body]
fn new_button_state() -> button::State {
    button::State::new()
}

/// `iced_native::Command::none`. Trusted to return; nothing is stated of the command.
#[verifier::external_body]
fn no_command<T>() -> Command<T> {
    Command::none()
}

/// The overlay's state.
pub struct Controls {
    background_color: Color,
    text: String,
    buttonstate: button::State,
}

/// The messages of the overlay.
#[derive(Debug, Clone)]
pub enum Message {
    BackgroundColorChanged(Color),
    TextChanged(String),
    ButtonPressed,
}

/// The abstract state of [`Controls`]: its colour and its text.
pub struct ControlsView {
    pub background_color: Color,
    pub text: Seq<char>,
}

impl View for Controls {
    type V = ControlsView;

    closed spec fn view(&self) -> ControlsView {
        ControlsView { background_color: self.background_color, text: self.text@ }
    }
}

/// The overlay after a message.
pub open spec fn controls_after(c: ControlsView, message: Message) -> ControlsView {
    match message {
        Message::BackgroundColorChanged(color) => ControlsView { background_color: color, text: c.text },
        Message::TextChanged(text) => ControlsView { background_color: c.background_color, text: text@ },
        Message::ButtonPressed => c,
    }
}

/// The line that the overlay shows.
pub open spec fn label_of(text: Seq<char>) -> Seq<char> {
    "Render at : "@ + text + " fps"@
}

impl Controls {
    /// A black overlay with no text.
    pub fn new() -> (c: Controls)
        ensures
            c@.text == Seq::<char>::empty(),
    {
        let state = new_button_state();
        Controls { background_color: black(), text: String::new(), buttonstate: state }
    }

    /// The overlay's colour.
    pub fn background_color(&self) -> (color: Color)
        ensures
            color == self@.background_color,
    {
        self.background_color
    }

    /// Shows a number as the overlay's text, in decimal.
    #[allow(non_snake_case)]
    pub fn setText(&mut self, text1: i128)
        ensures
            final(self)@.text == decimal(text1 as int),
            final(self)@.background_color == old(self)@.background_color,
    {
        self.text = decimal_string(text1);
    }

    /// Takes one message: a new colour or a new text replaces the old one; a press of
    /// the button changes nothing.
    pub fn update(&mut self, message: Message) -> (command: Command<Message>)
        ensures
            final(self)@ == controls_after(old(self)@, message),
    {
        match message {
            Message::BackgroundColorChanged(color) => {
                self.background_color = color;
            },
            Message::TextChanged(text) => {
                self.text = text;
            },
            Message::ButtonPressed => {},
        }
        no_command()
    }

    /// The line the overlay shows: "Render at : " and the text, then " fps".
    pub fn label(&self) -> (line: String)
        ensures
            line@ == label_of(self@.text),
    {
        let mut line = String::from_str("Render at : ");
        line.append(self.text.as_str());
        line.append(" fps");
        line
    }
}

} // verus!
