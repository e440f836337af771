//! Event queue ordering and input translation.

use neotron_desktop_bios::event::{Event, EventQueue, HidEvent};
use neotron_desktop_bios::hostapi::hid_get_event;
use neotron_desktop_bios::keymap::{convert_keycode, Key, KeyCode};

#[test]
fn events_come_out_in_arrival_order() {
    let mut queue = EventQueue::new();
    queue.push(Event::Started);
    queue.push(Event::KeyDown(Key::A));
    queue.push(Event::KeyUp(Key::A));
    assert_eq!(queue.try_take(), Some(Event::Started));
    assert_eq!(queue.try_take(), Some(Event::KeyDown(Key::A)));
    assert_eq!(queue.try_take(), Some(Event::KeyUp(Key::A)));
    assert_eq!(queue.try_take(), None);
    assert_eq!(queue.try_take(), None);
}

#[test]
fn interleaved_pushes_and_takes_keep_order() {
    let mut queue = EventQueue::new();
    queue.push(Event::KeyDown(Key::X));
    queue.push(Event::KeyDown(Key::Y));
    assert_eq!(queue.try_take(), Some(Event::KeyDown(Key::X)));
    queue.push(Event::KeyDown(Key::Z));
    assert_eq!(queue.try_take(), Some(Event::KeyDown(Key::Y)));
    assert_eq!(queue.try_take(), Some(Event::KeyDown(Key::Z)));
    assert_eq!(queue.try_take(), None);
}

#[test]
fn polling_translates_key_transitions() {
    let mut queue = EventQueue::new();
    queue.push(Event::KeyDown(Key::Return));
    queue.push(Event::KeyUp(Key::Return));
    assert_eq!(
        hid_get_event(&mut queue),
        Some(HidEvent::KeyPress(KeyCode::Return))
    );
    assert_eq!(
        hid_get_event(&mut queue),
        Some(HidEvent::KeyRelease(KeyCode::Return))
    );
    assert_eq!(hid_get_event(&mut queue), None);
}

#[test]
fn polling_swallows_the_start_signal() {
    let mut queue = EventQueue::new();
    queue.push(Event::Started);
    queue.push(Event::KeyDown(Key::Space));
    // The start signal is consumed but reports no input.
    assert_eq!(hid_get_event(&mut queue), None);
    assert_eq!(
        hid_get_event(&mut queue),
        Some(HidEvent::KeyPress(KeyCode::Spacebar))
    );
}

#[test]
fn key_table_maps_letters_and_digits() {
    assert_eq!(convert_keycode(Key::A), KeyCode::A);
    assert_eq!(convert_keycode(Key::Z), KeyCode::Z);
    assert_eq!(convert_keycode(Key::Num0), KeyCode::Key0);
    assert_eq!(convert_keycode(Key::Num9), KeyCode::Key9);
}

#[test]
fn key_table_maps_punctuation_to_oem_codes() {
    assert_eq!(convert_keycode(Key::Hash), KeyCode::Oem7);
    assert_eq!(convert_keycode(Key::Quote), KeyCode::Oem3);
    assert_eq!(convert_keycode(Key::Semicolon), KeyCode::Oem1);
    assert_eq!(convert_keycode(Key::Equals), KeyCode::OemPlus);
    assert_eq!(convert_keycode(Key::Backquote), KeyCode::Oem8);
    assert_eq!(convert_keycode(Key::Space), KeyCode::Spacebar);
}

#[test]
fn key_table_maps_keypad_and_modifiers() {
    assert_eq!(convert_keycode(Key::Kp0), KeyCode::Numpad0);
    assert_eq!(convert_keycode(Key::KpEnter), KeyCode::NumpadEnter);
    assert_eq!(convert_keycode(Key::NumLock), KeyCode::NumpadLock);
    assert_eq!(convert_keycode(Key::LGui), KeyCode::LWin);
    assert_eq!(convert_keycode(Key::RAlt), KeyCode::RAltGr);
    assert_eq!(convert_keycode(Key::Pause), KeyCode::PauseBreak);
    assert_eq!(convert_keycode(Key::F12), KeyCode::F12);
}

#[test]
fn unmapped_keys_fall_back_to_x() {
    assert_eq!(convert_keycode(Key::Unknown), KeyCode::X);
}
