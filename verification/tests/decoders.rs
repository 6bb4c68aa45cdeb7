use native_input::buttons::{
    mask_to_buttons, BUTTON_DPAD_RIGHT_MASK, BUTTON_DPAD_UP_MASK, BUTTON_EAST_MASK,
    BUTTON_HK_MASK, BUTTON_L1_MASK, BUTTON_L2_MASK, BUTTON_LP_MASK, BUTTON_R2_MASK,
    BUTTON_SELECT_MASK, BUTTON_SOUTH_MASK, BUTTON_START_MASK,
};
use native_input::detect::{
    detect_ps4_hid_controller, detect_xinput_controller, input_detect,
};
use native_input::direction::to_direction;
use native_input::hid::{
    decode_gp2040_ps4_report, direction_from_analog_stick, direction_from_ds4_hat,
    is_ps4_hid_candidate, HidDeviceProfile, HidReadOutcome, Ps4HidDecoderState,
};
use native_input::xinput::{
    classify_slot_reading, has_xinput_button, sample_from_xinput_state, PollFault, SlotReading,
    XInputGamepad, XInputPrimarySource, ERROR_DEVICE_NOT_CONNECTED, XINPUT_GAMEPAD_A,
    XINPUT_GAMEPAD_BACK, XINPUT_GAMEPAD_DPAD_RIGHT, XINPUT_GAMEPAD_DPAD_UP,
    XINPUT_GAMEPAD_LEFT_SHOULDER, XINPUT_GAMEPAD_START,
};

fn idle_gamepad() -> XInputGamepad {
    XInputGamepad {
        buttons: 0,
        left_trigger: 0,
        right_trigger: 0,
        thumb_lx: 0,
        thumb_ly: 0,
    }
}

fn idle_report() -> Vec<u8> {
    // report id 0x01, sticks centered, hat centered (nibble 8), no buttons
    vec![0x01, 127, 127, 127, 127, 0x08, 0x00, 0x00, 0, 0]
}

#[test]
fn direction_table_all_nine() {
    assert_eq!(to_direction(0, 0), 5);
    assert_eq!(to_direction(1, 0), 6);
    assert_eq!(to_direction(-1, 0), 4);
    assert_eq!(to_direction(0, 1), 8);
    assert_eq!(to_direction(0, -1), 2);
    assert_eq!(to_direction(1, 1), 9);
    assert_eq!(to_direction(-1, 1), 7);
    assert_eq!(to_direction(1, -1), 3);
    assert_eq!(to_direction(-1, -1), 1);
}

#[test]
fn xinput_trigger_threshold_boundary() {
    let mut gamepad = idle_gamepad();
    gamepad.left_trigger = 139;
    gamepad.right_trigger = 139;
    let below = sample_from_xinput_state(&gamepad, 0);
    assert_eq!(below.down_mask & BUTTON_L2_MASK, 0);
    assert_eq!(below.down_mask & BUTTON_R2_MASK, 0);

    gamepad.left_trigger = 140;
    gamepad.right_trigger = 140;
    let at = sample_from_xinput_state(&gamepad, 0);
    assert_eq!(at.down_mask & BUTTON_L2_MASK, BUTTON_L2_MASK);
    assert_eq!(at.down_mask & BUTTON_R2_MASK, BUTTON_R2_MASK);
}

#[test]
fn xinput_buttons_map_one_to_one() {
    let mut gamepad = idle_gamepad();
    gamepad.buttons =
        XINPUT_GAMEPAD_A | XINPUT_GAMEPAD_BACK | XINPUT_GAMEPAD_START | XINPUT_GAMEPAD_LEFT_SHOULDER;
    let sample = sample_from_xinput_state(&gamepad, 7);
    assert_eq!(sample.timestamp_ms, 7);
    assert_eq!(
        sample.down_mask,
        BUTTON_SOUTH_MASK | BUTTON_SELECT_MASK | BUTTON_START_MASK | BUTTON_L1_MASK
    );
    assert_eq!(sample.direction, 5);
}

#[test]
fn xinput_stick_deadzone_boundary() {
    let mut gamepad = idle_gamepad();
    gamepad.thumb_ly = 16384;
    assert_eq!(sample_from_xinput_state(&gamepad, 0).direction, 5);
    gamepad.thumb_ly = 16385;
    assert_eq!(sample_from_xinput_state(&gamepad, 0).direction, 8);
    gamepad.thumb_lx = -16385;
    assert_eq!(sample_from_xinput_state(&gamepad, 0).direction, 7);
}

#[test]
fn xinput_dpad_and_stick_fuse() {
    let mut gamepad = idle_gamepad();
    gamepad.buttons = XINPUT_GAMEPAD_DPAD_UP;
    gamepad.thumb_lx = 20000;
    let sample = sample_from_xinput_state(&gamepad, 0);
    assert_eq!(sample.direction, 9);
    assert_eq!(sample.down_mask & BUTTON_DPAD_UP_MASK, BUTTON_DPAD_UP_MASK);
}

#[test]
fn xinput_dpad_sets_quadrant_bits() {
    let mut gamepad = idle_gamepad();
    gamepad.buttons = XINPUT_GAMEPAD_DPAD_RIGHT;
    let sample = sample_from_xinput_state(&gamepad, 0);
    assert_eq!(sample.direction, 6);
    assert_eq!(
        sample.down_mask & BUTTON_DPAD_RIGHT_MASK,
        BUTTON_DPAD_RIGHT_MASK
    );
}

#[test]
fn has_xinput_button_needs_all_bits() {
    assert!(has_xinput_button(0x1010, XINPUT_GAMEPAD_A));
    assert!(!has_xinput_button(0x0010, XINPUT_GAMEPAD_A));
}

#[test]
fn classify_slot_reading_cases() {
    let gamepad = idle_gamepad();
    assert_eq!(
        classify_slot_reading(0, gamepad),
        SlotReading::Connected(gamepad)
    );
    assert_eq!(
        classify_slot_reading(ERROR_DEVICE_NOT_CONNECTED, gamepad),
        SlotReading::NotConnected
    );
    assert_eq!(classify_slot_reading(5, gamepad), SlotReading::Failed(5));
}

#[test]
fn xinput_poll_prefers_remembered_slot() {
    let mut source = XInputPrimarySource { preferred_user_index: 2 };
    let mut connected = idle_gamepad();
    connected.buttons = XINPUT_GAMEPAD_A;
    let slots = vec![
        SlotReading::Connected(idle_gamepad()),
        SlotReading::NotConnected,
        SlotReading::Connected(connected),
        SlotReading::NotConnected,
    ];
    let sample = source.poll(&slots, 3).unwrap();
    assert_eq!(sample.down_mask, BUTTON_SOUTH_MASK);
    assert_eq!(source.preferred_user_index, 2);
}

#[test]
fn xinput_poll_scans_remaining_slots_and_remembers() {
    let mut source = XInputPrimarySource::new();
    let mut connected = idle_gamepad();
    connected.buttons = XINPUT_GAMEPAD_A;
    let slots = vec![
        SlotReading::NotConnected,
        SlotReading::NotConnected,
        SlotReading::NotConnected,
        SlotReading::Connected(connected),
    ];
    let sample = source.poll(&slots, 3).unwrap();
    assert_eq!(sample.down_mask, BUTTON_SOUTH_MASK);
    assert_eq!(source.preferred_user_index, 3);
}

#[test]
fn xinput_poll_surfaces_protocol_fault() {
    let mut source = XInputPrimarySource::new();
    let slots = vec![
        SlotReading::NotConnected,
        SlotReading::Failed(87),
        SlotReading::NotConnected,
        SlotReading::NotConnected,
    ];
    let fault = source.poll(&slots, 3).unwrap_err();
    assert_eq!(fault, PollFault { user_index: 1, code: 87 });
    assert_eq!(source.preferred_user_index, 0);
}

#[test]
fn xinput_poll_empty_slots_neutral() {
    let mut source = XInputPrimarySource::new();
    let slots = vec![
        SlotReading::NotConnected,
        SlotReading::NotConnected,
        SlotReading::NotConnected,
        SlotReading::NotConnected,
    ];
    let sample = source.poll(&slots, 11).unwrap();
    assert_eq!(sample.timestamp_ms, 11);
    assert_eq!(sample.direction, 5);
    assert_eq!(sample.down_mask, 0);
}

#[test]
fn hid_short_report_leaves_state_unchanged() {
    let mut state = Ps4HidDecoderState::new();
    let mut held = idle_report();
    held[5] = 0x28; // hat centered, south button
    state.poll(&HidReadOutcome::Report(held), 0);
    assert_eq!(state.down_mask, BUTTON_SOUTH_MASK);

    let short = vec![0x01, 127, 127, 127, 127, 0x08, 0, 0, 0];
    assert_eq!(decode_gp2040_ps4_report(&short), None);
    let sample = state.poll(&HidReadOutcome::Report(short), 9);
    assert_eq!(state.down_mask, BUTTON_SOUTH_MASK);
    assert_eq!(sample.down_mask, BUTTON_SOUTH_MASK);
}

#[test]
fn hid_wrong_report_id_leaves_state_unchanged() {
    let mut state = Ps4HidDecoderState::new();
    let mut held = idle_report();
    held[5] = 0x28;
    state.poll(&HidReadOutcome::Report(held), 0);

    let mut wrong_id = idle_report();
    wrong_id[0] = 0x02;
    assert_eq!(decode_gp2040_ps4_report(&wrong_id), None);
    let sample = state.poll(&HidReadOutcome::Report(wrong_id), 9);
    assert_eq!(state.down_mask, BUTTON_SOUTH_MASK);
    assert_eq!(sample.direction, 5);
}

#[test]
fn hid_empty_read_retains_state() {
    let mut state = Ps4HidDecoderState::new();
    let mut held = idle_report();
    held[5] = 0x02; // hat points right
    state.poll(&HidReadOutcome::Report(held), 0);
    assert_eq!(state.direction, 6);
    let sample = state.poll(&HidReadOutcome::Empty, 4);
    assert_eq!(sample.direction, 6);
    assert_eq!(sample.timestamp_ms, 4);
    assert_eq!(state.direction, 6);
}

#[test]
fn hid_failed_read_degrades_to_neutral() {
    let mut state = Ps4HidDecoderState::new();
    let mut held = idle_report();
    held[5] = 0x02;
    state.poll(&HidReadOutcome::Report(held), 0);

    let sample = state.poll(&HidReadOutcome::Failed, 8);
    assert_eq!(sample.direction, 5);
    assert_eq!(sample.down_mask, 0);
    assert_eq!(sample.timestamp_ms, 8);
    assert!(mask_to_buttons(sample.down_mask).is_empty());
    // the retained state survives for the next successful read
    assert_eq!(state.direction, 6);
}

#[test]
fn hid_hat_priority_over_stick() {
    let mut report = idle_report();
    report[5] = 0x02; // hat points right
    report[1] = 0; // stick hard left
    report[2] = 0; // stick hard up
    let (direction, _) = decode_gp2040_ps4_report(&report).unwrap();
    assert_eq!(direction, 6);
}

#[test]
fn hid_hat_lookup_table() {
    assert_eq!(direction_from_ds4_hat(0), 8);
    assert_eq!(direction_from_ds4_hat(1), 9);
    assert_eq!(direction_from_ds4_hat(2), 6);
    assert_eq!(direction_from_ds4_hat(3), 3);
    assert_eq!(direction_from_ds4_hat(4), 2);
    assert_eq!(direction_from_ds4_hat(5), 1);
    assert_eq!(direction_from_ds4_hat(6), 4);
    assert_eq!(direction_from_ds4_hat(7), 7);
    assert_eq!(direction_from_ds4_hat(8), 5);
    assert_eq!(direction_from_ds4_hat(15), 5);
}

#[test]
fn hid_centered_hat_falls_back_to_stick() {
    let mut report = idle_report();
    report[1] = 0; // stick hard left
    let (direction, _) = decode_gp2040_ps4_report(&report).unwrap();
    assert_eq!(direction, 4);
}

#[test]
fn hid_analog_stick_deadzone_boundaries() {
    assert_eq!(direction_from_analog_stick(127, 127), 5);
    assert_eq!(direction_from_analog_stick(185, 127), 6);
    assert_eq!(direction_from_analog_stick(184, 127), 5);
    assert_eq!(direction_from_analog_stick(69, 127), 4);
    assert_eq!(direction_from_analog_stick(70, 127), 5);
    assert_eq!(direction_from_analog_stick(127, 69), 8);
    assert_eq!(direction_from_analog_stick(127, 185), 2);
    assert_eq!(direction_from_analog_stick(185, 69), 9);
}

#[test]
fn hid_trigger_byte_threshold_boundary() {
    let mut report = idle_report();
    report[8] = 140;
    report[9] = 140;
    let (_, mask) = decode_gp2040_ps4_report(&report).unwrap();
    assert_eq!(mask & BUTTON_L2_MASK, 0);
    assert_eq!(mask & BUTTON_R2_MASK, 0);

    report[8] = 141;
    report[9] = 141;
    let (_, mask) = decode_gp2040_ps4_report(&report).unwrap();
    assert_eq!(mask & BUTTON_L2_MASK, BUTTON_L2_MASK);
    assert_eq!(mask & BUTTON_R2_MASK, BUTTON_R2_MASK);
}

#[test]
fn hid_packed_button_bytes_decode() {
    let mut report = idle_report();
    report[5] = 0x20 | 0x40 | 0x08; // south + east, hat centered
    report[6] = 0x01 | 0x10; // L1 + select
    let (direction, mask) = decode_gp2040_ps4_report(&report).unwrap();
    assert_eq!(direction, 5);
    assert_eq!(
        mask,
        BUTTON_SOUTH_MASK | BUTTON_EAST_MASK | BUTTON_L1_MASK | BUTTON_SELECT_MASK
    );
}

#[test]
fn mask_to_buttons_expands_in_vocabulary_order() {
    assert!(mask_to_buttons(0).is_empty());
    assert_eq!(
        mask_to_buttons(BUTTON_LP_MASK | BUTTON_HK_MASK),
        vec!["LP".to_string(), "HK".to_string()]
    );
    assert_eq!(
        mask_to_buttons(0x00FF),
        vec!["LP", "MP", "HP", "LK", "MK", "HK", "DI", "Parry"]
    );
    // bits beyond the vocabulary are ignored
    assert!(mask_to_buttons(0xFF00).is_empty());
}

fn profile(usage_page: u16, usage: u16, product: &str, path: &str) -> HidDeviceProfile {
    HidDeviceProfile {
        usage_page,
        usage,
        product: product.as_bytes().to_vec(),
        path: path.as_bytes().to_vec(),
    }
}

#[test]
fn hid_candidate_acceptance_rule() {
    assert!(is_ps4_hid_candidate(&profile(1, 5, "Some PS4 Pad", "/dev/x")));
    assert!(is_ps4_hid_candidate(&profile(
        1,
        5,
        "Unnamed",
        "\\\\?\\HID#VID_1209&PID_0401#7",
    )));
    assert!(!is_ps4_hid_candidate(&profile(1, 5, "Unnamed", "/dev/x")));
    assert!(!is_ps4_hid_candidate(&profile(1, 4, "Some PS4 Pad", "/dev/x")));
    assert!(!is_ps4_hid_candidate(&profile(2, 5, "Some PS4 Pad", "/dev/x")));
    // the product check is case-sensitive, the path check is not
    assert!(!is_ps4_hid_candidate(&profile(1, 5, "some ps4 pad", "/dev/x")));
}

#[test]
fn detection_probes_each_protocol() {
    let no_slots = vec![
        SlotReading::NotConnected,
        SlotReading::NotConnected,
        SlotReading::NotConnected,
        SlotReading::NotConnected,
    ];
    let one_slot = vec![
        SlotReading::NotConnected,
        SlotReading::Connected(idle_gamepad()),
        SlotReading::NotConnected,
        SlotReading::NotConnected,
    ];
    assert!(!detect_xinput_controller(&no_slots));
    assert!(detect_xinput_controller(&one_slot));

    let pad = profile(1, 5, "Some PS4 Pad", "/dev/x");
    assert!(!detect_ps4_hid_controller(&vec![]));
    assert!(detect_ps4_hid_controller(&vec![pad.clone()]));

    let result = input_detect(&one_slot, &vec![]);
    assert!(result.xinput);
    assert!(!result.hid);
}

#[test]
fn detection_results_are_independent() {
    let one_slot = vec![
        SlotReading::Connected(idle_gamepad()),
        SlotReading::NotConnected,
        SlotReading::NotConnected,
        SlotReading::NotConnected,
    ];
    let pad = profile(1, 5, "Some PS4 Pad", "/dev/x");

    let without_hid = input_detect(&one_slot, &vec![]);
    let with_hid = input_detect(&one_slot, &vec![pad.clone()]);
    assert_eq!(without_hid.xinput, with_hid.xinput);

    let no_slots = vec![
        SlotReading::NotConnected,
        SlotReading::NotConnected,
        SlotReading::NotConnected,
        SlotReading::NotConnected,
    ];
    let with_xinput = input_detect(&one_slot, &vec![pad.clone()]);
    let without_xinput = input_detect(&no_slots, &vec![pad]);
    assert_eq!(with_xinput.hid, without_xinput.hid);
}
