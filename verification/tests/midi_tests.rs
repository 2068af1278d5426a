use rnbo_move_control::input::{intercepts, MidiInput, BACK_MIDI, MENU_MIDI, PLAY_MIDI};
use rnbo_move_control::events::{Button, Events, JOG_WHEEL_ENCODER, VOLUME_WHEEL_ENCODER};
use rnbo_move_control::midi::{brightness_sysex, led_color, power_sysex, Midi, MoveColor, PowerCommand};

#[test]
fn midi_new_keeps_bytes() {
    let m = Midi::new(&[0x90, 60, 100]);
    assert_eq!(m.bytes(), &[0x90, 60, 100]);
    assert_eq!(m.len(), 3);
    let one = Midi::new(&[0xF7]);
    assert_eq!(one.bytes(), &[0xF7]);
    assert_eq!(one.len(), 1);
    let none = Midi::new(&[]);
    assert_eq!(none.len(), 0);
}

#[test]
fn midi_constructors() {
    assert_eq!(Midi::reset().bytes(), &[0xFF]);
    assert_eq!(Midi::cc(PLAY_MIDI, 123, 15).bytes(), &[0xBF, 0x55, 123]);
    assert_eq!(Midi::note_on(60, 100, 1).bytes(), &[0x91, 60, 100]);
    assert_eq!(Midi::note_off(60, 0, 2).bytes(), &[0x82, 60, 0]);
}

#[test]
fn colours_have_their_values() {
    assert_eq!(MoveColor::Black.value(), 0);
    assert_eq!(MoveColor::FullWhite.value(), 120);
    assert_eq!(MoveColor::White.value(), 122);
    assert_eq!(MoveColor::LightGray.value(), 123);
    assert_eq!(MoveColor::DarkGray.value(), 124);
    assert_eq!(MoveColor::Blue.value(), 125);
    assert_eq!(MoveColor::Green.value(), 126);
    assert_eq!(MoveColor::Red.value(), 127);
}

#[test]
fn power_sysex_bytes() {
    let ms = power_sysex(PowerCommand::PowerOff);
    let all: Vec<u8> = ms.iter().flat_map(|m| m.bytes().to_vec()).collect();
    assert_eq!(all, vec![0xF0, 0x00, 0x21, 0x1D, 0x01, 0x01, 0x39, 1, 0xF7]);
    let ms = power_sysex(PowerCommand::ClearLongPress);
    assert_eq!(ms[2].bytes(), &[0x39, 5, 0xF7]);
    assert_eq!(PowerCommand::Shutdown.code(), 6);
    assert_eq!(PowerCommand::Reboot.code(), 4);
}

#[test]
fn brightness_never_below_127() {
    let ms = brightness_sysex(10);
    assert_eq!(ms[2].bytes(), &[0x06, 127, 0xF7]);
    let ms = brightness_sysex(200);
    assert_eq!(ms[2].bytes(), &[0x06, 200, 0xF7]);
}

#[test]
fn led_color_splits_channels() {
    let ms = led_color(2, 0, 200, 127);
    assert_eq!(ms[0].bytes(), &[0xF0, 0x00, 0x21]);
    assert_eq!(ms[1].bytes(), &[0x1D, 0x01, 0x01]);
    assert_eq!(ms[2].bytes(), &[0x3b, 0x10, 73]);
    // red is raised to 1, green 200 = 72 + 128, blue 127
    assert_eq!(ms[3].bytes(), &[1, 0, 72]);
    assert_eq!(ms[4].bytes(), &[1, 127, 0]);
    assert_eq!(ms[5].bytes(), &[0xF7]);
}

#[test]
fn intercepted_messages() {
    assert_eq!(intercepts(&[0x9F, 3, 127]), Some(true));
    assert_eq!(intercepts(&[0x9F, 10, 127]), Some(false));
    assert_eq!(intercepts(&[0xBF, 0x0e, 1]), Some(true));
    assert_eq!(intercepts(&[0xBF, 80, 1]), Some(false));
    assert_eq!(intercepts(&[0x90, 60, 100]), Some(false));
    assert_eq!(intercepts(&[0x10, 0x20, 0x30]), Some(true));
    assert_eq!(intercepts(&[0xF7]), Some(true));
    assert_eq!(intercepts(&[0x01, 0xF7]), Some(true));
    assert_eq!(intercepts(&[0xC0]), Some(false));
    assert_eq!(intercepts(&[1, 2, 3, 4]), None);
}

#[test]
fn control_changes_decode() {
    let mut input = MidiInput::new();
    assert_eq!(input.feed(&[0xBF, 0x03, 127]), Some(Events::BtnDown(Button::JogWheel)));
    assert_eq!(input.feed(&[0xBF, 0x03, 0]), Some(Events::BtnUp(Button::JogWheel)));
    assert_eq!(input.feed(&[0xBF, 0x0e, 1]), Some(Events::EncRight(JOG_WHEEL_ENCODER)));
    assert_eq!(input.feed(&[0xBF, 0x0e, 127]), Some(Events::EncLeft(JOG_WHEEL_ENCODER)));
    assert_eq!(input.feed(&[0xBF, 0x4f, 1]), Some(Events::EncRight(VOLUME_WHEEL_ENCODER)));
    assert_eq!(input.feed(&[0xBF, MENU_MIDI, 127]), Some(Events::BtnDown(Button::Menu)));
    assert_eq!(input.feed(&[0xBF, MENU_MIDI, 0]), None);
    assert_eq!(input.feed(&[0xBF, BACK_MIDI, 1]), Some(Events::BtnDown(Button::Back)));
    assert_eq!(input.feed(&[0xBF, PLAY_MIDI, 1]), Some(Events::BtnDown(Button::Play)));
    assert_eq!(input.feed(&[0xBF, 73, 127]), Some(Events::EncLeft(2)));
    assert_eq!(input.feed(&[0xBF, 78, 1]), Some(Events::EncRight(7)));
    assert_eq!(input.feed(&[0xBF, 80, 1]), None);
    assert_eq!(input.feed(&[0x9F, 4, 100]), Some(Events::EncTouch(4)));
    assert_eq!(input.feed(&[0x9F, 4, 0]), None);
    assert_eq!(input.feed(&[0x9F, 10, 100]), None);
}

#[test]
fn power_report_in_three_packets() {
    let mut input = MidiInput::new();
    assert_eq!(input.feed(&[0xF0, 0x00, 0x21]), None);
    assert_eq!(input.feed(&[0x1d, 0x01, 0x01]), None);
    assert_eq!(input.feed(&[0x3a, 0x10, 0xF7]), Some(Events::BtnDown(Button::PowerLong)));
    assert!(input.sysex.is_empty());
    input.feed(&[0xF0, 0x00, 0x21]);
    input.feed(&[0x1d, 0x01, 0x01]);
    assert_eq!(input.feed(&[0x3a, 0x08, 0xF7]), Some(Events::BtnDown(Button::PowerShort)));
    input.feed(&[0xF0, 0x00, 0x21]);
    input.feed(&[0x1d, 0x01, 0x01]);
    assert_eq!(input.feed(&[0x3a, 0x00, 0xF7]), None);
}

#[test]
fn status_byte_drops_sysex() {
    let mut input = MidiInput::new();
    input.feed(&[0xF0, 0x00, 0x21]);
    assert_eq!(input.sysex, vec![0x00, 0x21]);
    input.feed(&[0x90, 60, 100]);
    assert!(input.sysex.is_empty());
    input.feed(&[0xF0, 0x00, 0x21]);
    input.feed(&[0x1d, 0x01]);
    assert_eq!(input.sysex, vec![0x00, 0x21, 0x1d, 0x01]);
    input.feed(&[0x01, 0xF7]);
    assert!(input.sysex.is_empty());
}
