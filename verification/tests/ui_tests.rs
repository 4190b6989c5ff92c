use qtpstream::controls::{Controls, Message as ControlsMessage};
use qtpstream::decimal::decimal_string;
use qtpstream::menu::{Gameview, Message as MenuMessage};

#[test]
fn title_while_loading() {
    assert_eq!(Gameview::new().title(), "Gameview - WGPU");
}

#[test]
fn title_once_loaded() {
    let mut view = Gameview::new();
    view.update(MenuMessage::Loaded);
    assert_eq!(view, Gameview::Loaded);
    assert_eq!(view.title(), "Gameview Loading... - WGPU");
}

#[test]
fn start_host_keeps_the_screen() {
    let mut view = Gameview::Loading;
    view.update(MenuMessage::StartHost);
    assert_eq!(view, Gameview::Loading);
}

#[test]
fn decimal_text_of_integers() {
    assert_eq!(decimal_string(0), "0");
    assert_eq!(decimal_string(42), "42");
    assert_eq!(decimal_string(-7), "-7");
    assert_eq!(decimal_string(1000000), "1000000");
    assert_eq!(decimal_string(i128::MAX), i128::MAX.to_string());
    assert_eq!(decimal_string(i128::MIN), i128::MIN.to_string());
}

#[test]
fn controls_start_black_and_empty() {
    let controls = Controls::new();
    assert_eq!(controls.background_color(), iced_native::Color::BLACK);
    assert_eq!(controls.label(), "Render at :  fps");
}

#[test]
fn set_text_shows_the_number() {
    let mut controls = Controls::new();
    controls.setText(144);
    assert_eq!(controls.label(), "Render at : 144 fps");
    controls.setText(-12);
    assert_eq!(controls.label(), "Render at : -12 fps");
}

#[test]
fn messages_update_the_controls() {
    let mut controls = Controls::new();
    let _ = controls.update(ControlsMessage::TextChanged(String::from("59")));
    assert_eq!(controls.label(), "Render at : 59 fps");
    let red = iced_native::Color::from_rgb(1.0, 0.0, 0.0);
    let _ = controls.update(ControlsMessage::BackgroundColorChanged(red));
    assert_eq!(controls.background_color(), red);
    let _ = controls.update(ControlsMessage::ButtonPressed);
    assert_eq!(controls.background_color(), red);
    assert_eq!(controls.label(), "Render at : 59 fps");
}

#[test]
fn last_message_decides_after_a_run() {
    let red = iced_native::Color::from_rgb(1.0, 0.0, 0.0);
    let blue = iced_native::Color::from_rgb(0.0, 0.0, 1.0);
    let mut controls = Controls::new();
    let run = vec![
        ControlsMessage::BackgroundColorChanged(red),
        ControlsMessage::TextChanged(String::from("30")),
        ControlsMessage::BackgroundColorChanged(blue),
        ControlsMessage::ButtonPressed,
        ControlsMessage::TextChanged(String::from("60")),
        ControlsMessage::ButtonPressed,
    ];
    for message in run {
        let _ = controls.update(message);
    }
    assert_eq!(controls.background_color(), blue);
    assert_eq!(controls.label(), "Render at : 60 fps");

    let mut untouched = Controls::new();
    let _ = untouched.update(ControlsMessage::TextChanged(String::from("1")));
    let _ = untouched.update(ControlsMessage::ButtonPressed);
    assert_eq!(untouched.background_color(), iced_native::Color::BLACK);
}
