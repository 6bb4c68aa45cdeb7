//! Platform detection: whether an XInput-capable controller and a
//! DualShock-4-style HID device are currently present. Both protocols are
//! probed independently and both answers are always reported; neither
//! depends on the other protocol's devices.
//!
//! The probes' raw results (per-slot query outcomes, enumerated device
//! descriptions) are captured outside this crate and handed in as plain
//! values. On a platform with no native backend the caller hands in empty
//! captures, and detection reports both protocols absent.

use vstd::prelude::*;

use crate::hid::{is_candidate_spec, is_ps4_hid_candidate, HidDeviceProfile};
use crate::xinput::SlotReading;

verus! {

/// The pair of presence flags one detection call reports.
#[derive(Clone, Copy, Debug, PartialEq, Eq, Structural)]
pub struct NativeInputDetectResult {
    pub xinput: bool,
    pub hid: bool,
}

impl NativeInputDetectResult {
    /// Pairs the two presence flags.
    pub fn new(xinput: bool, hid: bool) -> (result: Self)
        ensures
            result.xinput == xinput,
            result.hid == hid,
    {
        Self { xinput, hid }
    }
}

/// An XInput controller is present when some slot query reported a
/// connected controller.
pub open spec fn xinput_present_spec(slots: Seq<SlotReading>) -> bool {
    exists|i: int| 0 <= i < slots.len() && slots[i] is Connected
}

/// A supported HID device is present when some enumerated device passes the
/// acceptance rule.
pub open spec fn hid_present_spec(devices: Seq<HidDeviceProfile>) -> bool {
    exists|i: int| 0 <= i < devices.len() && is_candidate_spec(devices[i])
}

/// What detection reports for the given captures: each protocol's flag is a
/// function of that protocol's own capture alone.
pub open spec fn detect_result_spec(
    slots: Seq<SlotReading>,
    devices: Seq<HidDeviceProfile>,
) -> NativeInputDetectResult {
    NativeInputDetectResult {
        xinput: xinput_present_spec(slots),
        hid: hid_present_spec(devices),
    }
}

/// The XInput flag does not depend on which HID devices are present.
pub proof fn lemma_xinput_detection_independent(
    slots: Seq<SlotReading>,
    devices_a: Seq<HidDeviceProfile>,
    devices_b: Seq<HidDeviceProfile>,
)
    ensures
        detect_result_spec(slots, devices_a).xinput == detect_result_spec(slots, devices_b).xinput,
{
}

/// The HID flag does not depend on which XInput controllers are present.
pub proof fn lemma_hid_detection_independent(
    slots_a: Seq<SlotReading>,
    slots_b: Seq<SlotReading>,
    devices: Seq<HidDeviceProfile>,
)
    ensures
        detect_result_spec(slots_a, devices).hid == detect_result_spec(slots_b, devices).hid,
{
}

/// Whether any captured slot query reported a connected controller.
pub fn detect_xinput_controller(slots: &Vec<SlotReading>) -> (present: bool)
    ensures
        present == xinput_present_spec(slots@),
{
    let mut i: usize = 0;
    while i < slots.len()
        invariant
            i <= slots@.len(),
            forall|k: int| 0 <= k < i ==> !(slots@[k] is Connected),
        decreases slots@.len() - i,
    {
        if matches!(slots[i], SlotReading::Connected(_)) {
            proof {
                assert(slots@[i as int] is Connected);
            }
            return true;
        }
        i = i + 1;
    }
    false
}

/// Whether any enumerated device passes the acceptance rule.
pub fn detect_ps4_hid_controller(devices: &Vec<HidDeviceProfile>) -> (present: bool)
    ensures
        present == hid_present_spec(devices@),
{
    let mut i: usize = 0;
    while i < devices.len()
        invariant
            i <= devices@.len(),
            forall|k: int| 0 <= k < i ==> !is_candidate_spec(devices@[k]),
        decreases devices@.len() - i,
    {
        if is_ps4_hid_candidate(&devices[i]) {
            proof {
                assert(is_candidate_spec(devices@[i as int]));
            }
            return true;
        }
        i = i + 1;
    }
    false
}

/// Probes both protocols over their captures and reports both results,
/// regardless of which mode will be used.
pub fn input_detect(slots: &Vec<SlotReading>, devices: &Vec<HidDeviceProfile>) -> (result:
    NativeInputDetectResult)
    ensures
        result == detect_result_spec(slots@, devices@),
{
    NativeInputDetectResult::new(
        detect_xinput_controller(slots),
        detect_ps4_hid_controller(devices),
    )
}

} // verus!
