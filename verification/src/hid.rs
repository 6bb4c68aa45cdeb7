//! The HID backend for DualShock-4-style reports: the acceptance rule for
//! candidate devices, the report decoder, and the stateful poll step that
//! retains the last decoded state across read gaps and malformed reports.
//!
//! The device enumeration and the non-blocking read are performed outside
//! this crate; they hand in plain device descriptions and report bytes.

use vstd::prelude::*;

use crate::buttons::{
    mask_bit, BUTTON_DPAD_DOWN_MASK, BUTTON_DPAD_LEFT_MASK, BUTTON_DPAD_RIGHT_MASK,
    BUTTON_DPAD_UP_MASK, BUTTON_EAST_MASK, BUTTON_L1_MASK, BUTTON_L2_MASK, BUTTON_L3_MASK,
    BUTTON_NORTH_MASK, BUTTON_R1_MASK, BUTTON_R2_MASK, BUTTON_R3_MASK, BUTTON_SELECT_MASK,
    BUTTON_SOUTH_MASK, BUTTON_START_MASK, BUTTON_WEST_MASK,
};
use crate::direction::{direction_spec, to_direction};
use crate::sample::{neutral_spec, sample_wf, InputSample};

verus! {

/// Report id of a DualShock-4-style input report.
pub const HID_REPORT_ID: u8 = 0x01;

/// Minimum length of a report that the decoder accepts.
pub const HID_MIN_REPORT_LEN: usize = 10;

/// An analog trigger byte counts as down at or above this value.
pub const TRIGGER_BYTE_THRESHOLD: u8 = 141;

/// Center value of an unsigned analog stick axis.
pub const ANALOG_CENTER: i32 = 127;

/// Deflection past the center, on either side, before a stick axis counts.
pub const ANALOG_AXIS_DEADZONE: i32 = 58;

/// HID usage page of a generic desktop control.
pub const HID_USAGE_PAGE_GENERIC: u16 = 0x0001;

/// HID usage of a gamepad on the generic desktop page.
pub const HID_USAGE_GAMEPAD: u16 = 0x0005;

/// What one non-blocking device read produced: a failed read, no bytes
/// available, or a report's bytes.
#[derive(Clone, Debug, PartialEq, Eq)]
pub enum HidReadOutcome {
    Failed,
    Empty,
    Report(Vec<u8>),
}

/// What the acceptance rule reads of one enumerated HID device, as plain
/// values: declared usage page and usage, product string bytes, and system
/// path bytes.
#[derive(Clone, Debug, PartialEq, Eq)]
pub struct HidDeviceProfile {
    pub usage_page: u16,
    pub usage: u16,
    pub product: Vec<u8>,
    pub path: Vec<u8>,
}

/// The needle occurs in the haystack starting at position `at`.
pub open spec fn match_at(haystack: Seq<u8>, needle: Seq<u8>, at: int) -> bool {
    &&& 0 <= at
    &&& at + needle.len() <= haystack.len()
    &&& forall|j: int| 0 <= j < needle.len() ==> haystack[at + j] == needle[j]
}

/// The needle occurs somewhere in the haystack.
pub open spec fn contains_bytes_spec(haystack: Seq<u8>, needle: Seq<u8>) -> bool {
    exists|at: int| match_at(haystack, needle, at)
}

/// An upper-case ASCII letter lowered; every other byte unchanged.
pub open spec fn lower_byte_spec(byte: u8) -> u8 {
    if 65 <= byte <= 90 {
        (byte + 32) as u8
    } else {
        byte
    }
}

/// A byte string with its ASCII letters lowered.
pub open spec fn lower_bytes_spec(bytes: Seq<u8>) -> Seq<u8> {
    bytes.map_values(|byte: u8| lower_byte_spec(byte))
}

/// The product-string bytes that mark a self-reporting controller: "PS4".
pub open spec fn ps4_product_tag() -> Seq<u8> {
    seq![80u8, 83u8, 52u8]
}

/// The lowered system-path bytes that identify the expected controller by
/// its product id: "pid_0401".
pub open spec fn ps4_path_tag() -> Seq<u8> {
    seq![112u8, 105u8, 100u8, 95u8, 48u8, 52u8, 48u8, 49u8]
}

/// The acceptance rule for candidate devices: the declared usage page and
/// usage must be the generic gamepad pair, and the product name must hold
/// the product tag or the lowered system path must hold the path tag.
pub open spec fn is_candidate_spec(profile: HidDeviceProfile) -> bool {
    &&& profile.usage_page == HID_USAGE_PAGE_GENERIC
    &&& profile.usage == HID_USAGE_GAMEPAD
    &&& (contains_bytes_spec(profile.product@, ps4_product_tag()) || contains_bytes_spec(
        lower_bytes_spec(profile.path@),
        ps4_path_tag(),
    ))
}

/// The D-pad hat lookup table: nibble 0-7 clockwise from up, anything else
/// (8 and above) is centered and maps to neutral.
pub open spec fn ds4_hat_direction_spec(hat: u8) -> u8 {
    if hat == 0 {
        8
    } else if hat == 1 {
        9
    } else if hat == 2 {
        6
    } else if hat == 3 {
        3
    } else if hat == 4 {
        2
    } else if hat == 5 {
        1
    } else if hat == 6 {
        4
    } else if hat == 7 {
        7
    } else {
        5
    }
}

/// The horizontal stick component reduced to {-1, 0, 1}.
pub open spec fn analog_horizontal_spec(left_x: u8) -> int {
    if left_x >= ANALOG_CENTER + ANALOG_AXIS_DEADZONE {
        1
    } else if left_x <= ANALOG_CENTER - ANALOG_AXIS_DEADZONE {
        -1
    } else {
        0
    }
}

/// The vertical stick component reduced to {-1, 0, 1}; low byte values point
/// up.
pub open spec fn analog_vertical_spec(left_y: u8) -> int {
    if left_y <= ANALOG_CENTER - ANALOG_AXIS_DEADZONE {
        1
    } else if left_y >= ANALOG_CENTER + ANALOG_AXIS_DEADZONE {
        -1
    } else {
        0
    }
}

/// The direction read from the left analog stick bytes.
pub open spec fn analog_direction_spec(left_x: u8, left_y: u8) -> u8 {
    direction_spec(analog_horizontal_spec(left_x), analog_vertical_spec(left_y))
}

/// A report the decoder accepts: long enough and carrying the expected id.
pub open spec fn hid_report_valid(report: Seq<u8>) -> bool {
    report.len() >= HID_MIN_REPORT_LEN && report[0] == HID_REPORT_ID
}

/// The hat nibble of a valid report.
pub open spec fn hid_hat_spec(report: Seq<u8>) -> u8 {
    report[5] & 0x0F
}

/// The physical button mask of a valid report: two packed button bytes, the
/// trigger bytes doubling as analog state, and the hat nibble's quadrants.
pub open spec fn hid_mask_spec(report: Seq<u8>) -> u16 {
    let b0 = report[5];
    let b1 = report[6];
    let lt = report[8];
    let rt = report[9];
    let hat = hid_hat_spec(report);
    mask_bit(b0 & 0x20 != 0, BUTTON_SOUTH_MASK) | mask_bit(b0 & 0x40 != 0, BUTTON_EAST_MASK)
        | mask_bit(b0 & 0x10 != 0, BUTTON_WEST_MASK) | mask_bit(
        b0 & 0x80 != 0,
        BUTTON_NORTH_MASK,
    ) | mask_bit(b1 & 0x01 != 0, BUTTON_L1_MASK) | mask_bit(b1 & 0x02 != 0, BUTTON_R1_MASK)
        | mask_bit(b1 & 0x04 != 0 || lt >= TRIGGER_BYTE_THRESHOLD, BUTTON_L2_MASK) | mask_bit(
        b1 & 0x08 != 0 || rt >= TRIGGER_BYTE_THRESHOLD,
        BUTTON_R2_MASK,
    ) | mask_bit(b1 & 0x10 != 0, BUTTON_SELECT_MASK) | mask_bit(b1 & 0x20 != 0, BUTTON_START_MASK)
        | mask_bit(b1 & 0x40 != 0, BUTTON_L3_MASK) | mask_bit(b1 & 0x80 != 0, BUTTON_R3_MASK)
        | mask_bit(hat == 0 || hat == 1 || hat == 7, BUTTON_DPAD_UP_MASK) | mask_bit(
        hat == 3 || hat == 4 || hat == 5,
        BUTTON_DPAD_DOWN_MASK,
    ) | mask_bit(hat == 5 || hat == 6 || hat == 7, BUTTON_DPAD_LEFT_MASK) | mask_bit(
        hat == 1 || hat == 2 || hat == 3,
        BUTTON_DPAD_RIGHT_MASK,
    )
}

/// The direction of a valid report: the hat wins whenever it is not
/// centered; only a centered hat falls back to the left analog stick.
pub open spec fn hid_direction_spec(report: Seq<u8>) -> u8 {
    let hat_direction = ds4_hat_direction_spec(hid_hat_spec(report));
    if hat_direction != 5 {
        hat_direction
    } else {
        analog_direction_spec(report[1], report[2])
    }
}

/// The decoder's result: the direction and mask of a valid report, nothing
/// for a malformed one.
pub open spec fn hid_decode_spec(report: Seq<u8>) -> Option<(u8, u16)> {
    if hid_report_valid(report) {
        Some((hid_direction_spec(report), hid_mask_spec(report)))
    } else {
        None
    }
}

/// A report shorter than the minimum length, or with the wrong report id,
/// decodes to nothing; the caller's previously-held decoded state is kept
/// rather than reset to neutral.
pub proof fn lemma_invalid_report_ignored(report: Seq<u8>)
    requires
        !hid_report_valid(report),
    ensures
        hid_decode_spec(report) is None,
{
}

/// A non-centered hat value always wins over any analog-stick deflection in
/// the same report: two valid reports that agree on a non-centered hat
/// nibble decode to that hat's direction, whatever their stick bytes hold.
pub proof fn lemma_hat_priority(report_a: Seq<u8>, report_b: Seq<u8>)
    requires
        hid_report_valid(report_a),
        hid_report_valid(report_b),
        hid_hat_spec(report_a) == hid_hat_spec(report_b),
        hid_hat_spec(report_a) < 8,
    ensures
        hid_direction_spec(report_a) == ds4_hat_direction_spec(hid_hat_spec(report_a)),
        hid_direction_spec(report_b) == hid_direction_spec(report_a),
{
}

/// Whether the needle occurs in the haystack at the given position.
fn matches_at(haystack: &[u8], needle: &[u8], at: usize) -> (found: bool)
    requires
        at + needle@.len() <= haystack@.len(),
    ensures
        found == match_at(haystack@, needle@, at as int),
{
    let haystack_len = haystack.len();
    let mut j: usize = 0;
    while j < needle.len()
        invariant
            j <= needle@.len(),
            at + needle@.len() <= haystack@.len(),
            haystack_len == haystack@.len(),
            forall|k: int| 0 <= k < j ==> haystack@[at + k] == needle@[k],
        decreases needle@.len() - j,
    {
        if haystack[at + j] != needle[j] {
            proof {
                assert(!match_at(haystack@, needle@, at as int)) by {
                    assert(haystack@[at + j] != needle@[j as int]);
                }
            }
            return false;
        }
        j = j + 1;
    }
    true
}

/// Whether the needle occurs anywhere in the haystack.
fn bytes_contains(haystack: &[u8], needle: &[u8]) -> (found: bool)
    ensures
        found == contains_bytes_spec(haystack@, needle@),
{
    if needle.len() > haystack.len() {
        proof {
            assert(forall|at: int| !match_at(haystack@, needle@, at));
        }
        return false;
    }
    let last = haystack.len() - needle.len();
    let mut start: usize = 0;
    while start <= last
        invariant
            needle@.len() <= haystack@.len(),
            haystack@.len() <= usize::MAX,
            last == haystack@.len() - needle@.len(),
            start <= last + 1,
            forall|at: int| 0 <= at < start ==> !match_at(haystack@, needle@, at),
        decreases last + 1 - start,
    {
        if matches_at(haystack, needle, start) {
            proof {
                assert(match_at(haystack@, needle@, start as int));
            }
            return true;
        }
        proof {
            // an empty needle matches everywhere, so this branch has a
            // non-empty needle and the increment cannot overflow
            assert(needle@.len() > 0);
        }
        start = start + 1;
    }
    proof {
        assert(forall|at: int| !match_at(haystack@, needle@, at)) by {
            assert(forall|at: int| at > last ==> !match_at(haystack@, needle@, at));
        }
    }
    false
}

/// Lowers the ASCII letters of a byte string.
fn to_ascii_lower_bytes(bytes: &Vec<u8>) -> (lowered: Vec<u8>)
    ensures
        lowered@ == lower_bytes_spec(bytes@),
{
    let mut lowered: Vec<u8> = Vec::new();
    let mut i: usize = 0;
    while i < bytes.len()
        invariant
            i <= bytes@.len(),
            lowered@.len() == i,
            forall|k: int| 0 <= k < i ==> lowered@[k] == lower_byte_spec(bytes@[k]),
        decreases bytes@.len() - i,
    {
        let byte = bytes[i];
        if byte >= 65 && byte <= 90 {
            lowered.push(byte + 32);
        } else {
            lowered.push(byte);
        }
        i = i + 1;
    }
    proof {
        assert(lowered@ =~= lower_bytes_spec(bytes@));
    }
    lowered
}

/// Decides whether one enumerated device is an acceptable DualShock-4-style
/// candidate: generic gamepad usage, and either a product name holding
/// "PS4" or a system path holding the expected product id.
pub fn is_ps4_hid_candidate(profile: &HidDeviceProfile) -> (accepted: bool)
    ensures
        accepted == is_candidate_spec(*profile),
{
    if profile.usage_page != HID_USAGE_PAGE_GENERIC || profile.usage != HID_USAGE_GAMEPAD {
        return false;
    }

    let product_tag: Vec<u8> = vec![80, 83, 52];
    proof {
        assert(product_tag@ =~= ps4_product_tag());
    }
    if bytes_contains(profile.product.as_slice(), product_tag.as_slice()) {
        return true;
    }

    let path_tag: Vec<u8> = vec![112, 105, 100, 95, 48, 52, 48, 49];
    proof {
        assert(path_tag@ =~= ps4_path_tag());
    }
    let lowered_path = to_ascii_lower_bytes(&profile.path);
    bytes_contains(lowered_path.as_slice(), path_tag.as_slice())
}

/// Maps a hat nibble through the fixed lookup table into the 9-way
/// direction space.
pub fn direction_from_ds4_hat(hat: u8) -> (direction: u8)
    ensures
        direction == ds4_hat_direction_spec(hat),
        1 <= direction <= 9,
{
    match hat {
        0 => 8,
        1 => 9,
        2 => 6,
        3 => 3,
        4 => 2,
        5 => 1,
        6 => 4,
        7 => 7,
        _ => 5,
    }
}

/// Classifies the left analog stick bytes through the shared 9-way
/// direction encoder, with the fixed center and deadzone.
pub fn direction_from_analog_stick(left_x: u8, left_y: u8) -> (direction: u8)
    ensures
        direction == analog_direction_spec(left_x, left_y),
        1 <= direction <= 9,
{
    let horizontal: i32 = if left_x as i32 >= ANALOG_CENTER + ANALOG_AXIS_DEADZONE {
        1
    } else if left_x as i32 <= ANALOG_CENTER - ANALOG_AXIS_DEADZONE {
        -1
    } else {
        0
    };

    let vertical: i32 = if left_y as i32 <= ANALOG_CENTER - ANALOG_AXIS_DEADZONE {
        1
    } else if left_y as i32 >= ANALOG_CENTER + ANALOG_AXIS_DEADZONE {
        -1
    } else {
        0
    };

    to_direction(horizontal, vertical)
}

/// Decodes one DualShock-4-style input report into a direction and a
/// physical button mask. A short report or one with the wrong id yields
/// nothing.
#[verifier::rlimit(60)]
pub fn decode_gp2040_ps4_report(report: &[u8]) -> (decoded: Option<(u8, u16)>)
    ensures
        decoded == hid_decode_spec(report@),
        decoded matches Some((direction, mask)) ==> 1 <= direction <= 9,
{
    if report.len() < HID_MIN_REPORT_LEN || report[0] != HID_REPORT_ID {
        return None;
    }

    let buttons0 = report[5];
    let buttons1 = report[6];
    let left_trigger_analog = report[8];
    let right_trigger_analog = report[9];

    let south = if buttons0 & 0x20 != 0 {
        BUTTON_SOUTH_MASK
    } else {
        0
    };
    let east = if buttons0 & 0x40 != 0 {
        BUTTON_EAST_MASK
    } else {
        0
    };
    let west = if buttons0 & 0x10 != 0 {
        BUTTON_WEST_MASK
    } else {
        0
    };
    let north = if buttons0 & 0x80 != 0 {
        BUTTON_NORTH_MASK
    } else {
        0
    };
    let l1 = if buttons1 & 0x01 != 0 {
        BUTTON_L1_MASK
    } else {
        0
    };
    let r1 = if buttons1 & 0x02 != 0 {
        BUTTON_R1_MASK
    } else {
        0
    };
    let l2 = if buttons1 & 0x04 != 0 || left_trigger_analog >= TRIGGER_BYTE_THRESHOLD {
        BUTTON_L2_MASK
    } else {
        0
    };
    let r2 = if buttons1 & 0x08 != 0 || right_trigger_analog >= TRIGGER_BYTE_THRESHOLD {
        BUTTON_R2_MASK
    } else {
        0
    };
    let select = if buttons1 & 0x10 != 0 {
        BUTTON_SELECT_MASK
    } else {
        0
    };
    let start = if buttons1 & 0x20 != 0 {
        BUTTON_START_MASK
    } else {
        0
    };
    let l3 = if buttons1 & 0x40 != 0 {
        BUTTON_L3_MASK
    } else {
        0
    };
    let r3 = if buttons1 & 0x80 != 0 {
        BUTTON_R3_MASK
    } else {
        0
    };

    let hat = buttons0 & 0x0F;
    let dpad_up = hat == 0 || hat == 1 || hat == 7;
    let dpad_down = hat == 3 || hat == 4 || hat == 5;
    let dpad_left = hat == 5 || hat == 6 || hat == 7;
    let dpad_right = hat == 1 || hat == 2 || hat == 3;

    let du = if dpad_up {
        BUTTON_DPAD_UP_MASK
    } else {
        0
    };
    let dd = if dpad_down {
        BUTTON_DPAD_DOWN_MASK
    } else {
        0
    };
    let dl = if dpad_left {
        BUTTON_DPAD_LEFT_MASK
    } else {
        0
    };
    let dr = if dpad_right {
        BUTTON_DPAD_RIGHT_MASK
    } else {
        0
    };

    let down_mask = south | east | west | north | l1 | r1 | l2 | r2 | select | start | l3 | r3
        | du | dd | dl | dr;
    proof {
        assert(down_mask == hid_mask_spec(report@));
    }

    let hat_direction = direction_from_ds4_hat(hat);
    let direction = if hat_direction != 5 {
        hat_direction
    } else {
        direction_from_analog_stick(report[1], report[2])
    };

    Some((direction, down_mask))
}

/// The decoded state a HID source retains across polls, so brief read gaps
/// do not flicker the stream to neutral.
#[derive(Clone, Copy, Debug, PartialEq, Eq, Structural)]
pub struct Ps4HidDecoderState {
    pub direction: u8,
    pub down_mask: u16,
}

/// The retained state is well formed when its direction is a keypad code.
pub open spec fn hid_state_wf(state: Ps4HidDecoderState) -> bool {
    1 <= state.direction <= 9
}

/// The retained state after one poll step: only a valid report replaces it;
/// a failed read, an empty read and a malformed report all leave it as it
/// was.
pub open spec fn hid_poll_state_spec(state: Ps4HidDecoderState, read: HidReadOutcome) -> Ps4HidDecoderState {
    match read {
        HidReadOutcome::Failed => state,
        HidReadOutcome::Empty => state,
        HidReadOutcome::Report(report) => match hid_decode_spec(report@) {
            Some((direction, down_mask)) => Ps4HidDecoderState { direction, down_mask },
            None => state,
        },
    }
}

/// The sample one poll step emits: neutral for a failed read, otherwise the
/// retained state after the step, stamped with the given time.
pub open spec fn hid_poll_sample_spec(
    state: Ps4HidDecoderState,
    read: HidReadOutcome,
    timestamp_ms: u64,
) -> InputSample {
    match read {
        HidReadOutcome::Failed => neutral_spec(timestamp_ms),
        _ => {
            let after = hid_poll_state_spec(state, read);
            InputSample {
                timestamp_ms,
                direction: after.direction,
                down_mask: after.down_mask,
            }
        },
    }
}

/// A failed device read (a present-but-unplugged device, say) degrades that
/// poll to the neutral sample and touches nothing: later valid reports
/// resume from the retained state, and the stream itself never stops.
pub proof fn lemma_failed_read_neutral(state: Ps4HidDecoderState, timestamp_ms: u64)
    ensures
        hid_poll_sample_spec(state, HidReadOutcome::Failed, timestamp_ms) == neutral_spec(
            timestamp_ms,
        ),
        hid_poll_state_spec(state, HidReadOutcome::Failed) == state,
{
}

/// A malformed report (short, or wrong id) and an empty read both leave the
/// previously-held decoded state unchanged rather than resetting it to
/// neutral, and the emitted sample repeats that state.
pub proof fn lemma_report_gap_retains(state: Ps4HidDecoderState, report: Vec<u8>, timestamp_ms: u64)
    requires
        !hid_report_valid(report@),
    ensures
        hid_poll_state_spec(state, HidReadOutcome::Report(report)) == state,
        hid_poll_sample_spec(state, HidReadOutcome::Report(report), timestamp_ms).direction
            == state.direction,
        hid_poll_sample_spec(state, HidReadOutcome::Report(report), timestamp_ms).down_mask
            == state.down_mask,
        hid_poll_state_spec(state, HidReadOutcome::Empty) == state,
        hid_poll_sample_spec(state, HidReadOutcome::Empty, timestamp_ms).direction
            == state.direction,
{
}

impl Ps4HidDecoderState {
    /// A fresh source starts neutral with no buttons down.
    pub fn new() -> (state: Self)
        ensures
            state.direction == 5,
            state.down_mask == 0,
            hid_state_wf(state),
    {
        Self { direction: 5, down_mask: 0 }
    }

    /// One poll step over a read outcome. A failed read degrades this poll
    /// to the neutral sample without touching the retained state; an empty
    /// read and a malformed report return the retained state unchanged; a
    /// valid report replaces it. The sample is stamped with the given time.
    pub fn poll(&mut self, read: &HidReadOutcome, timestamp_ms: u64) -> (sample: InputSample)
        requires
            hid_state_wf(*old(self)),
        ensures
            hid_state_wf(*final(self)),
            sample_wf(sample),
            sample.timestamp_ms == timestamp_ms,
            *final(self) == hid_poll_state_spec(*old(self), *read),
            sample == hid_poll_sample_spec(*old(self), *read, timestamp_ms),
    {
        match read {
            HidReadOutcome::Failed => InputSample::neutral(timestamp_ms),
            HidReadOutcome::Empty => InputSample {
                timestamp_ms,
                direction: self.direction,
                down_mask: self.down_mask,
            },
            HidReadOutcome::Report(report) => {
                if let Some((direction, down_mask)) = decode_gp2040_ps4_report(
                    report.as_slice(),
                ) {
                    self.direction = direction;
                    self.down_mask = down_mask;
                }
                InputSample {
                    timestamp_ms,
                    direction: self.direction,
                    down_mask: self.down_mask,
                }
            },
        }
    }
}

} // verus!
