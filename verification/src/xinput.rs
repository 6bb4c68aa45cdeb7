//! The XInput backend: decoding a gamepad state into a sample, and the
//! slot-scanning poll that remembers the last successfully-read controller
//! slot and tries it first on the next poll.
//!
//! The gamepad state and the per-slot query results arrive as plain values;
//! the FFI query itself is performed outside this crate.

use vstd::prelude::*;

use crate::buttons::{
    mask_bit, BUTTON_DPAD_DOWN_MASK, BUTTON_DPAD_LEFT_MASK, BUTTON_DPAD_RIGHT_MASK,
    BUTTON_DPAD_UP_MASK, BUTTON_EAST_MASK, BUTTON_L1_MASK, BUTTON_L2_MASK, BUTTON_L3_MASK,
    BUTTON_NORTH_MASK, BUTTON_R1_MASK, BUTTON_R2_MASK, BUTTON_R3_MASK, BUTTON_SELECT_MASK,
    BUTTON_SOUTH_MASK, BUTTON_START_MASK, BUTTON_WEST_MASK,
};
use crate::direction::{direction_spec, to_direction};
use crate::sample::{neutral_spec, sample_wf, InputSample};

verus! {

// Button bits of the XInput gamepad word.
pub const XINPUT_GAMEPAD_DPAD_UP: u16 = 0x0001;

pub const XINPUT_GAMEPAD_DPAD_DOWN: u16 = 0x0002;

pub const XINPUT_GAMEPAD_DPAD_LEFT: u16 = 0x0004;

pub const XINPUT_GAMEPAD_DPAD_RIGHT: u16 = 0x0008;

pub const XINPUT_GAMEPAD_START: u16 = 0x0010;

pub const XINPUT_GAMEPAD_BACK: u16 = 0x0020;

pub const XINPUT_GAMEPAD_LEFT_THUMB: u16 = 0x0040;

pub const XINPUT_GAMEPAD_RIGHT_THUMB: u16 = 0x0080;

pub const XINPUT_GAMEPAD_LEFT_SHOULDER: u16 = 0x0100;

pub const XINPUT_GAMEPAD_RIGHT_SHOULDER: u16 = 0x0200;

pub const XINPUT_GAMEPAD_A: u16 = 0x1000;

pub const XINPUT_GAMEPAD_B: u16 = 0x2000;

pub const XINPUT_GAMEPAD_X: u16 = 0x4000;

pub const XINPUT_GAMEPAD_Y: u16 = 0x8000;

/// An analog trigger counts as down at or above this byte value.
pub const XINPUT_TRIGGER_THRESHOLD: u8 = 140;

/// An analog stick axis counts as deflected once its signed magnitude
/// exceeds this value.
pub const XINPUT_AXIS_DEADZONE: i16 = 16384;

/// Number of controller slots the protocol exposes.
pub const XUSER_MAX_COUNT: u32 = 4;

/// Return code of a slot query whose slot has no controller attached.
pub const ERROR_DEVICE_NOT_CONNECTED: u32 = 1167;

/// The fields of one captured XInput gamepad state, as plain values.
#[derive(Clone, Copy, Debug, PartialEq, Eq, Structural)]
pub struct XInputGamepad {
    pub buttons: u16,
    pub left_trigger: u8,
    pub right_trigger: u8,
    pub thumb_lx: i16,
    pub thumb_ly: i16,
}

/// What one slot query reported: a connected controller with its state,
/// an empty slot, or a protocol failure with its return code.
#[derive(Clone, Copy, Debug, PartialEq, Eq, Structural)]
pub enum SlotReading {
    Connected(XInputGamepad),
    NotConnected,
    Failed(u32),
}

/// A protocol failure surfaced by one poll: the slot it occurred on and the
/// query's return code.
#[derive(Clone, Copy, Debug, PartialEq, Eq, Structural)]
pub struct PollFault {
    pub user_index: u32,
    pub code: u32,
}

/// All button-word bits are held: `current & expected == expected`.
pub open spec fn has_button_spec(current: u16, expected: u16) -> bool {
    current & expected == expected
}

/// The physical button mask decoded from a gamepad state: face, shoulder,
/// thumb and back/start buttons map one to one; a trigger is down at or
/// above the fixed threshold; the D-pad quadrants get their own bits.
pub open spec fn xinput_mask_spec(g: XInputGamepad) -> u16 {
    mask_bit(has_button_spec(g.buttons, XINPUT_GAMEPAD_A), BUTTON_SOUTH_MASK)
        | mask_bit(has_button_spec(g.buttons, XINPUT_GAMEPAD_B), BUTTON_EAST_MASK)
        | mask_bit(has_button_spec(g.buttons, XINPUT_GAMEPAD_X), BUTTON_WEST_MASK)
        | mask_bit(has_button_spec(g.buttons, XINPUT_GAMEPAD_Y), BUTTON_NORTH_MASK)
        | mask_bit(has_button_spec(g.buttons, XINPUT_GAMEPAD_LEFT_SHOULDER), BUTTON_L1_MASK)
        | mask_bit(has_button_spec(g.buttons, XINPUT_GAMEPAD_RIGHT_SHOULDER), BUTTON_R1_MASK)
        | mask_bit(g.left_trigger >= XINPUT_TRIGGER_THRESHOLD, BUTTON_L2_MASK)
        | mask_bit(g.right_trigger >= XINPUT_TRIGGER_THRESHOLD, BUTTON_R2_MASK)
        | mask_bit(has_button_spec(g.buttons, XINPUT_GAMEPAD_BACK), BUTTON_SELECT_MASK)
        | mask_bit(has_button_spec(g.buttons, XINPUT_GAMEPAD_START), BUTTON_START_MASK)
        | mask_bit(has_button_spec(g.buttons, XINPUT_GAMEPAD_LEFT_THUMB), BUTTON_L3_MASK)
        | mask_bit(has_button_spec(g.buttons, XINPUT_GAMEPAD_RIGHT_THUMB), BUTTON_R3_MASK)
        | mask_bit(has_button_spec(g.buttons, XINPUT_GAMEPAD_DPAD_UP), BUTTON_DPAD_UP_MASK)
        | mask_bit(has_button_spec(g.buttons, XINPUT_GAMEPAD_DPAD_DOWN), BUTTON_DPAD_DOWN_MASK)
        | mask_bit(has_button_spec(g.buttons, XINPUT_GAMEPAD_DPAD_LEFT), BUTTON_DPAD_LEFT_MASK)
        | mask_bit(has_button_spec(g.buttons, XINPUT_GAMEPAD_DPAD_RIGHT), BUTTON_DPAD_RIGHT_MASK)
}

/// Upward input: D-pad up OR'd with an upward stick deflection past the
/// deadzone. Either source alone triggers the direction.
pub open spec fn xinput_up_spec(g: XInputGamepad) -> bool {
    has_button_spec(g.buttons, XINPUT_GAMEPAD_DPAD_UP) || g.thumb_ly > XINPUT_AXIS_DEADZONE
}

/// Downward input: D-pad down OR'd with a downward stick deflection.
pub open spec fn xinput_down_spec(g: XInputGamepad) -> bool {
    has_button_spec(g.buttons, XINPUT_GAMEPAD_DPAD_DOWN) || g.thumb_ly
        < -(XINPUT_AXIS_DEADZONE as int)
}

/// Leftward input: D-pad left OR'd with a leftward stick deflection.
pub open spec fn xinput_left_spec(g: XInputGamepad) -> bool {
    has_button_spec(g.buttons, XINPUT_GAMEPAD_DPAD_LEFT) || g.thumb_lx
        < -(XINPUT_AXIS_DEADZONE as int)
}

/// Rightward input: D-pad right OR'd with a rightward stick deflection.
pub open spec fn xinput_right_spec(g: XInputGamepad) -> bool {
    has_button_spec(g.buttons, XINPUT_GAMEPAD_DPAD_RIGHT) || g.thumb_lx > XINPUT_AXIS_DEADZONE
}

/// The horizontal component reduced to {-1, 0, 1}; right wins over left.
pub open spec fn xinput_horizontal_spec(g: XInputGamepad) -> int {
    if xinput_right_spec(g) {
        1
    } else if xinput_left_spec(g) {
        -1
    } else {
        0
    }
}

/// The vertical component reduced to {-1, 0, 1}; up wins over down.
pub open spec fn xinput_vertical_spec(g: XInputGamepad) -> int {
    if xinput_up_spec(g) {
        1
    } else if xinput_down_spec(g) {
        -1
    } else {
        0
    }
}

/// The sample decoded from a gamepad state at the given time.
pub open spec fn xinput_sample_spec(g: XInputGamepad, timestamp_ms: u64) -> InputSample {
    InputSample {
        timestamp_ms,
        direction: direction_spec(xinput_horizontal_spec(g), xinput_vertical_spec(g)),
        down_mask: xinput_mask_spec(g),
    }
}

/// Tests whether all bits of `expected` are held in the button word.
pub fn has_xinput_button(current: u16, expected: u16) -> (held: bool)
    ensures
        held == has_button_spec(current, expected),
{
    current & expected == expected
}

/// Decodes one captured XInput gamepad state into a sample: buttons map to
/// the physical mask, triggers threshold at 140, and the direction fuses the
/// D-pad with the analog stick through the shared encoder.
#[verifier::rlimit(60)]
pub fn sample_from_xinput_state(gamepad: &XInputGamepad, timestamp_ms: u64) -> (sample:
    InputSample)
    ensures
        sample == xinput_sample_spec(*gamepad, timestamp_ms),
        sample_wf(sample),
{
    let buttons = gamepad.buttons;

    let south = if has_xinput_button(buttons, XINPUT_GAMEPAD_A) {
        BUTTON_SOUTH_MASK
    } else {
        0
    };
    let east = if has_xinput_button(buttons, XINPUT_GAMEPAD_B) {
        BUTTON_EAST_MASK
    } else {
        0
    };
    let west = if has_xinput_button(buttons, XINPUT_GAMEPAD_X) {
        BUTTON_WEST_MASK
    } else {
        0
    };
    let north = if has_xinput_button(buttons, XINPUT_GAMEPAD_Y) {
        BUTTON_NORTH_MASK
    } else {
        0
    };
    let l1 = if has_xinput_button(buttons, XINPUT_GAMEPAD_LEFT_SHOULDER) {
        BUTTON_L1_MASK
    } else {
        0
    };
    let r1 = if has_xinput_button(buttons, XINPUT_GAMEPAD_RIGHT_SHOULDER) {
        BUTTON_R1_MASK
    } else {
        0
    };
    let l2 = if gamepad.left_trigger >= XINPUT_TRIGGER_THRESHOLD {
        BUTTON_L2_MASK
    } else {
        0
    };
    let r2 = if gamepad.right_trigger >= XINPUT_TRIGGER_THRESHOLD {
        BUTTON_R2_MASK
    } else {
        0
    };
    let select = if has_xinput_button(buttons, XINPUT_GAMEPAD_BACK) {
        BUTTON_SELECT_MASK
    } else {
        0
    };
    let start = if has_xinput_button(buttons, XINPUT_GAMEPAD_START) {
        BUTTON_START_MASK
    } else {
        0
    };
    let l3 = if has_xinput_button(buttons, XINPUT_GAMEPAD_LEFT_THUMB) {
        BUTTON_L3_MASK
    } else {
        0
    };
    let r3 = if has_xinput_button(buttons, XINPUT_GAMEPAD_RIGHT_THUMB) {
        BUTTON_R3_MASK
    } else {
        0
    };

    let dpad_up = has_xinput_button(buttons, XINPUT_GAMEPAD_DPAD_UP);
    let dpad_down = has_xinput_button(buttons, XINPUT_GAMEPAD_DPAD_DOWN);
    let dpad_left = has_xinput_button(buttons, XINPUT_GAMEPAD_DPAD_LEFT);
    let dpad_right = has_xinput_button(buttons, XINPUT_GAMEPAD_DPAD_RIGHT);

    let du = if dpad_up {
        BUTTON_DPAD_UP_MASK
    } else {
        0
    };
    let dd = if dpad_down {
        BUTTON_DPAD_DOWN_MASK
    } else {
        0
    };
    let dl = if dpad_left {
        BUTTON_DPAD_LEFT_MASK
    } else {
        0
    };
    let dr = if dpad_right {
        BUTTON_DPAD_RIGHT_MASK
    } else {
        0
    };

    let down_mask = south | east | west | north | l1 | r1 | l2 | r2 | select | start | l3 | r3
        | du | dd | dl | dr;
    proof {
        assert(down_mask == xinput_mask_spec(*gamepad));
    }

    let up = dpad_up || gamepad.thumb_ly > XINPUT_AXIS_DEADZONE;
    let down = dpad_down || gamepad.thumb_ly < -XINPUT_AXIS_DEADZONE;
    let left = dpad_left || gamepad.thumb_lx < -XINPUT_AXIS_DEADZONE;
    let right = dpad_right || gamepad.thumb_lx > XINPUT_AXIS_DEADZONE;

    let horizontal: i32 = if right {
        1
    } else if left {
        -1
    } else {
        0
    };
    let vertical: i32 = if up {
        1
    } else if down {
        -1
    } else {
        0
    };
    proof {
        assert(horizontal as int == xinput_horizontal_spec(*gamepad));
        assert(vertical as int == xinput_vertical_spec(*gamepad));
    }

    InputSample {
        timestamp_ms,
        direction: to_direction(horizontal, vertical),
        down_mask,
    }
}

/// Classifies one slot query's outcome: return code zero is a connected
/// controller, the dedicated code is an empty slot, anything else is a
/// protocol failure carrying that code.
pub fn classify_slot_reading(ret: u32, gamepad: XInputGamepad) -> (reading: SlotReading)
    ensures
        reading == classify_slot_spec(ret, gamepad),
{
    if ret == 0 {
        SlotReading::Connected(gamepad)
    } else if ret == ERROR_DEVICE_NOT_CONNECTED {
        SlotReading::NotConnected
    } else {
        SlotReading::Failed(ret)
    }
}

/// See `classify_slot_reading`.
pub open spec fn classify_slot_spec(ret: u32, gamepad: XInputGamepad) -> SlotReading {
    if ret == 0 {
        SlotReading::Connected(gamepad)
    } else if ret == ERROR_DEVICE_NOT_CONNECTED {
        SlotReading::NotConnected
    } else {
        SlotReading::Failed(ret)
    }
}

/// What a scan over the slots in a given order ends in: the first connected
/// slot with its state, the first protocol failure, or nothing connected.
#[derive(Clone, Copy, Debug, PartialEq, Eq, Structural)]
pub enum ScanOutcome {
    Found(u32, XInputGamepad),
    Fault(u32, u32),
    NoneConnected,
}

/// Walks the slot indices in `order`, skipping indices beyond the slot
/// count, and stops at the first slot that is connected or failed.
pub open spec fn scan_spec(slots: Seq<SlotReading>, order: Seq<u32>) -> ScanOutcome
    decreases order.len(),
{
    if order.len() == 0 {
        ScanOutcome::NoneConnected
    } else if order[0] >= XUSER_MAX_COUNT {
        scan_spec(slots, order.drop_first())
    } else {
        match slots[order[0] as int] {
            SlotReading::Connected(g) => ScanOutcome::Found(order[0], g),
            SlotReading::NotConnected => scan_spec(slots, order.drop_first()),
            SlotReading::Failed(code) => ScanOutcome::Fault(order[0], code),
        }
    }
}

/// The scan order of one poll: the remembered slot first, then every slot in
/// the fixed order.
pub open spec fn scan_order_spec(preferred: u32) -> Seq<u32> {
    seq![preferred, 0, 1, 2, 3]
}

/// The XInput poll state: the last successfully-read controller slot, tried
/// first on the next poll.
#[derive(Clone, Copy, Debug, PartialEq, Eq, Structural)]
pub struct XInputPrimarySource {
    pub preferred_user_index: u32,
}

impl XInputPrimarySource {
    /// A fresh source prefers the first slot.
    pub fn new() -> (source: Self)
        ensures
            source.preferred_user_index == 0,
    {
        Self { preferred_user_index: 0 }
    }

    /// One poll over the four captured slot readings: the first connected
    /// slot in scan order is decoded and remembered; a failed slot surfaces
    /// as a fault for this poll; an empty scan yields the neutral sample.
    /// An empty-slot reading is absence, not an error, and the scan goes on.
    pub fn poll(&mut self, slots: &Vec<SlotReading>, timestamp_ms: u64) -> (result: Result<
        InputSample,
        PollFault,
    >)
        requires
            slots@.len() == XUSER_MAX_COUNT,
        ensures
            ({
                let outcome = scan_spec(slots@, scan_order_spec(old(self).preferred_user_index));
                match outcome {
                    ScanOutcome::Found(index, g) => result == Ok::<InputSample, PollFault>(
                        xinput_sample_spec(g, timestamp_ms),
                    ) && final(self).preferred_user_index == index,
                    ScanOutcome::Fault(index, code) => result == Err::<InputSample, PollFault>(
                        (PollFault { user_index: index, code }),
                    ) && *final(self) == *old(self),
                    ScanOutcome::NoneConnected => result == Ok::<InputSample, PollFault>(
                        neutral_spec(timestamp_ms),
                    ) && *final(self) == *old(self),
                }
            }),
    {
        let ghost full_order = scan_order_spec(self.preferred_user_index);
        let order: [u32; 5] = [self.preferred_user_index, 0, 1, 2, 3];
        proof {
            assert(order@ =~= full_order);
            assert(order@.skip(0) =~= order@);
        }

        let mut i: usize = 0;
        while i < 5
            invariant
                i <= 5,
                slots@.len() == XUSER_MAX_COUNT,
                full_order == scan_order_spec(old(self).preferred_user_index),
                order@ =~= full_order,
                scan_spec(slots@, order@.skip(i as int)) == scan_spec(slots@, full_order),
                self.preferred_user_index == old(self).preferred_user_index,
            decreases 5 - i,
        {
            let index = order[i];
            proof {
                assert(order@.skip(i as int)[0] == order@[i as int]);
            }
            if index < XUSER_MAX_COUNT {
                match slots[index as usize] {
                    SlotReading::Connected(g) => {
                        proof {
                            assert(scan_spec(slots@, order@.skip(i as int))
                                == ScanOutcome::Found(index, g));
                        }
                        self.preferred_user_index = index;
                        return Ok(sample_from_xinput_state(&g, timestamp_ms));
                    },
                    SlotReading::Failed(code) => {
                        proof {
                            assert(scan_spec(slots@, order@.skip(i as int))
                                == ScanOutcome::Fault(index, code));
                        }
                        return Err(PollFault { user_index: index, code });
                    },
                    SlotReading::NotConnected => {},
                }
            }
            i = i + 1;
            proof {
                assert(order@.skip(i as int - 1).drop_first() =~= order@.skip(i as int));
            }
        }
        proof {
            assert(order@.skip(5) =~= Seq::<u32>::empty());
        }
        Ok(InputSample::neutral(timestamp_ms))
    }
}

} // verus!
