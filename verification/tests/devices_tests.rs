use tinic::devices::{
    connect_gamepad, get_available_port, get_input_state, pressed_button_targets, remove, Device,
    DeviceType, DevicesRequiredFunctions, InputRead, Keyboard, KeyboardKeymap, NativeKey,
    RetroGamePad, INVALID_CONTROLLER_PORT, RETRO_DEVICE_ID_JOYPAD_A, RETRO_DEVICE_ID_JOYPAD_B,
    RETRO_DEVICE_ID_JOYPAD_DOWN, RETRO_DEVICE_ID_JOYPAD_SELECT, RETRO_DEVICE_ID_JOYPAD_START,
    RETRO_DEVICE_JOYPAD,
};

fn pad(id: u128, inner_id: usize, port: i16) -> RetroGamePad {
    RetroGamePad::new(id, inner_id, format!("pad {}", inner_id), port, RETRO_DEVICE_JOYPAD)
}

#[test]
fn default_keymap_layout() {
    let km = KeyboardKeymap::get_default_key_maps();
    assert_eq!(km.len(), 16);
    assert!(km[0].native == NativeKey::KeyS);
    assert_eq!(km[0].retro, RETRO_DEVICE_ID_JOYPAD_DOWN);
    assert!(km[5].native == NativeKey::KeyI);
    assert_eq!(km[5].retro, RETRO_DEVICE_ID_JOYPAD_A);
    assert!(km[14].native == NativeKey::Enter);
    assert_eq!(km[14].retro, RETRO_DEVICE_ID_JOYPAD_START);
    assert!(km[15].native == NativeKey::Backspace);
    assert_eq!(km[15].retro, RETRO_DEVICE_ID_JOYPAD_SELECT);
    assert!(km.iter().all(|k| !k.pressed));
}

#[test]
fn keyboard_reports_held_keys() {
    let mut kb = Keyboard::new();
    assert_eq!(kb.retro_port(), 0);
    assert_eq!(kb.retro_type(), RETRO_DEVICE_JOYPAD);
    assert_eq!(kb.get_key_pressed(RETRO_DEVICE_ID_JOYPAD_A as i16), 0);
    kb.set_key_pressed(NativeKey::KeyI, true);
    assert_eq!(kb.get_key_pressed(RETRO_DEVICE_ID_JOYPAD_A as i16), 1);
    assert_eq!(kb.get_key_pressed(RETRO_DEVICE_ID_JOYPAD_B as i16), 0);
    assert_eq!(kb.get_key_pressed(99), 0);
    kb.set_key_pressed(NativeKey::KeyI, false);
    assert_eq!(kb.get_key_pressed(RETRO_DEVICE_ID_JOYPAD_A as i16), 0);
}

#[test]
fn keyboard_bitmask_has_one_bit_per_held_button() {
    let mut kb = Keyboard::new();
    assert_eq!(kb.get_key_bitmasks(), 0);
    kb.set_key_pressed(NativeKey::KeyI, true); // A = 8
    kb.set_key_pressed(NativeKey::KeyS, true); // down = 5
    assert_eq!(kb.get_key_bitmasks(), (1 << 8) | (1 << 5));
    kb.set_key_pressed(NativeKey::KeyN, true); // R3 = 15, the sign bit
    assert_eq!(kb.get_key_bitmasks(), ((1u16 << 15) | (1 << 8) | (1 << 5)) as i16);
}

#[test]
fn bitmask_matches_pressed_buttons() {
    let mut kb = Keyboard::new();
    kb.set_key_pressed(NativeKey::KeyQ, true);
    kb.set_key_pressed(NativeKey::Enter, true);
    let mask = kb.get_key_bitmasks() as u16;
    for b in 0..16u32 {
        let bit = (mask >> b) & 1;
        assert_eq!(bit as i16, kb.get_key_pressed(b as i16), "button {}", b);
    }
}

#[test]
fn first_gamepad_gets_port_zero() {
    assert_eq!(get_available_port(4, &vec![]), 0);
}

#[test]
fn next_port_is_one_past_the_highest() {
    let pads = vec![pad(1, 1, 2), pad(2, 2, 0)];
    assert_eq!(get_available_port(4, &pads), 3);
    assert_eq!(get_available_port(3, &pads), 3);
    let pads = vec![pad(1, 1, 1)];
    assert_eq!(get_available_port(3, &pads), 2);
}

#[test]
fn lowest_free_port_when_next_is_unsupported() {
    let pads = vec![pad(1, 1, 2), pad(2, 2, 0)];
    assert_eq!(get_available_port(1, &pads), 1);
    assert_eq!(get_available_port(0, &pads), INVALID_CONTROLLER_PORT);
    let pads = vec![pad(1, 1, 2)];
    assert_eq!(get_available_port(2, &pads), 0);
    let pads = vec![pad(1, 1, 0), pad(2, 2, 1), pad(3, 3, 2)];
    assert_eq!(get_available_port(2, &pads), INVALID_CONTROLLER_PORT);
    let pads = vec![pad(1, 1, -1)];
    assert_eq!(get_available_port(2, &pads), 0);
    let pads = vec![pad(1, 1, -5)];
    assert_eq!(get_available_port(2, &pads), 0);
}

#[test]
fn new_port_is_free() {
    let pads = vec![pad(1, 1, 0), pad(2, 2, 1), pad(3, 3, 5)];
    let p = get_available_port(8, &pads);
    assert_eq!(p, 6);
    assert!(pads.iter().all(|g| g.retro_port != p));
}

#[test]
fn connect_appends_with_next_port() {
    let mut pads = vec![pad(1, 1, 0)];
    let g = connect_gamepad(&mut pads, 4, 77, 9, "Xbox".to_string());
    assert_eq!(g.retro_port, 1);
    assert_eq!(g.id, 77);
    assert_eq!(g.inner_id, 9);
    assert_eq!(g.name, "Xbox");
    assert_eq!(g.retro_type, RETRO_DEVICE_JOYPAD);
    assert_eq!(pads.len(), 2);
    assert_eq!(pads[1].inner_id, 9);
}

#[test]
fn remove_takes_out_every_match_and_returns_first() {
    let mut pads = vec![pad(1, 5, 0), pad(2, 6, 1), pad(3, 5, 2)];
    let r = remove(5, &mut pads).unwrap();
    assert_eq!(r.id, 1);
    assert_eq!(pads.len(), 1);
    assert_eq!(pads[0].inner_id, 6);
    assert!(remove(42, &mut pads).is_none());
    assert_eq!(pads.len(), 1);
}

#[test]
fn pressed_button_goes_to_leading_matches_only() {
    let pads = vec![pad(1, 5, 0), pad(2, 5, 1), pad(3, 6, 2), pad(4, 5, 3)];
    let t = pressed_button_targets(&pads, 5);
    assert_eq!(t.len(), 2);
    assert_eq!(t[1].id, 2);
    assert!(t[0].device_type == DeviceType::Gamepad);
    assert_eq!(pressed_button_targets(&pads, 6).len(), 0);
}

#[test]
fn devices_are_equal_by_id() {
    let a = Device::from_gamepad(&pad(1, 1, 0));
    let mut b = Device::from_gamepad(&pad(1, 2, 3));
    b.name = "other".to_string();
    assert!(a == b);
    assert!(a != Device::from_gamepad(&pad(2, 1, 0)));
    assert_eq!(a.retro_port, 0);
    assert_eq!(a.name, "pad 1");
}

#[test]
fn input_state_reads_first_gamepad_on_port() {
    let pads = vec![pad(1, 1, 0), pad(2, 2, 1), pad(3, 3, 1)];
    assert!(get_input_state(&pads, 1, 8) == InputRead::Button(1, 8));
    assert!(get_input_state(&pads, 1, 256) == InputRead::Bitmask(1));
    assert!(get_input_state(&pads, 0, -1) == InputRead::Button(0, -1));
    assert!(get_input_state(&pads, 3, 8) == InputRead::NoDevice);
    assert!(get_input_state(&vec![], 0, 256) == InputRead::NoDevice);
}
