//! The platform abstraction over the two backends: one source per requested
//! mode, with a uniform poll surface that never fails outward. A protocol
//! fault inside a poll is absorbed into the neutral sample so the
//! fixed-rate tick loop is never stalled or aborted by a device hiccup.
//!
//! Opening the physical device (and discovering that none can be opened) is
//! the caller's concern; a source here holds only the decoding state each
//! backend carries between polls.

use vstd::prelude::*;

use crate::hid::{
    hid_poll_sample_spec, hid_poll_state_spec, hid_state_wf, HidReadOutcome, Ps4HidDecoderState,
};
use crate::sample::{neutral_spec, sample_wf, InputSample, NativeInputMode};
use crate::xinput::{
    scan_order_spec, scan_spec, xinput_sample_spec, ScanOutcome, SlotReading, XInputPrimarySource,
    XUSER_MAX_COUNT,
};

verus! {

/// The per-protocol decoding state a source carries between polls.
#[derive(Clone, Debug, PartialEq, Eq)]
pub enum InputBackend {
    XInput(XInputPrimarySource),
    Hid(Ps4HidDecoderState),
}

/// What one tick's outside work produced for the source to decode: the four
/// captured slot queries for the XInput backend, or one non-blocking read's
/// outcome for the HID backend.
#[derive(Clone, Debug, PartialEq, Eq)]
pub enum PollEvent {
    XInputSlots(Vec<SlotReading>),
    HidRead(HidReadOutcome),
}

/// A source selected by requested mode.
#[derive(Clone, Debug, PartialEq, Eq)]
pub struct InputSource {
    pub backend: InputBackend,
}

/// A source is well formed when its retained decoding state is.
pub open spec fn source_wf(source: InputSource) -> bool {
    match source.backend {
        InputBackend::XInput(_) => true,
        InputBackend::Hid(state) => hid_state_wf(state),
    }
}

/// An event fits a source when it carries the data of that source's own
/// protocol, with all four slots captured for XInput.
pub open spec fn event_fits(source: InputSource, event: PollEvent) -> bool {
    match (source.backend, event) {
        (InputBackend::XInput(_), PollEvent::XInputSlots(slots)) => slots@.len()
            == XUSER_MAX_COUNT,
        (InputBackend::Hid(_), PollEvent::HidRead(_)) => true,
        _ => false,
    }
}

/// The sample one poll emits: the decoded sample of the first connected
/// slot, or the HID step's sample; every fault is absorbed into neutral.
pub open spec fn source_poll_sample_spec(
    source: InputSource,
    event: PollEvent,
    timestamp_ms: u64,
) -> InputSample {
    match (source.backend, event) {
        (InputBackend::XInput(x), PollEvent::XInputSlots(slots)) => {
            match scan_spec(slots@, scan_order_spec(x.preferred_user_index)) {
                ScanOutcome::Found(_, gamepad) => xinput_sample_spec(gamepad, timestamp_ms),
                ScanOutcome::Fault(_, _) => neutral_spec(timestamp_ms),
                ScanOutcome::NoneConnected => neutral_spec(timestamp_ms),
            }
        },
        (InputBackend::Hid(state), PollEvent::HidRead(read)) => {
            hid_poll_sample_spec(state, read, timestamp_ms)
        },
        _ => neutral_spec(timestamp_ms),
    }
}

/// The source's state after one poll: XInput remembers the slot it found a
/// controller on; HID retains or replaces its decoded state; faults change
/// nothing.
pub open spec fn source_poll_state_spec(source: InputSource, event: PollEvent) -> InputSource {
    match (source.backend, event) {
        (InputBackend::XInput(x), PollEvent::XInputSlots(slots)) => {
            match scan_spec(slots@, scan_order_spec(x.preferred_user_index)) {
                ScanOutcome::Found(index, _) => InputSource {
                    backend: InputBackend::XInput(
                        XInputPrimarySource { preferred_user_index: index },
                    ),
                },
                _ => source,
            }
        },
        (InputBackend::Hid(state), PollEvent::HidRead(read)) => InputSource {
            backend: InputBackend::Hid(hid_poll_state_spec(state, read)),
        },
        _ => source,
    }
}

/// Any protocol fault of a poll — a failed slot query or a failed device
/// read — is absorbed into the neutral sample of that tick; it is never
/// surfaced to the caller and never terminates the loop.
pub proof fn lemma_poll_absorbs_faults(source: InputSource, event: PollEvent, timestamp_ms: u64)
    requires
        match (source.backend, event) {
            (InputBackend::XInput(x), PollEvent::XInputSlots(slots)) => scan_spec(
                slots@,
                scan_order_spec(x.preferred_user_index),
            ) matches ScanOutcome::Fault(_, _),
            (InputBackend::Hid(_), PollEvent::HidRead(read)) => read is Failed,
            _ => false,
        },
    ensures
        source_poll_sample_spec(source, event, timestamp_ms) == neutral_spec(timestamp_ms),
        source_poll_state_spec(source, event) == source,
{
}

impl InputSource {
    /// Instantiates exactly one backend matching the requested mode, with
    /// its fresh decoding state.
    pub fn new(mode: NativeInputMode) -> (source: Self)
        ensures
            source_wf(source),
            mode == NativeInputMode::XInput ==> source.backend == InputBackend::XInput(
                (XInputPrimarySource { preferred_user_index: 0 }),
            ),
            mode == NativeInputMode::Hid ==> source.backend == InputBackend::Hid(
                (Ps4HidDecoderState { direction: 5, down_mask: 0 }),
            ),
    {
        match mode {
            NativeInputMode::XInput => Self {
                backend: InputBackend::XInput(XInputPrimarySource::new()),
            },
            NativeInputMode::Hid => Self { backend: InputBackend::Hid(Ps4HidDecoderState::new()) },
        }
    }

    /// One poll over the tick's captured event. Never fails outward: every
    /// internal fault yields the neutral sample for this tick, and the
    /// returned sample is always well formed.
    pub fn poll(&mut self, event: &PollEvent, timestamp_ms: u64) -> (sample: InputSample)
        requires
            source_wf(*old(self)),
            event_fits(*old(self), *event),
        ensures
            source_wf(*final(self)),
            sample_wf(sample),
            sample.timestamp_ms == timestamp_ms,
            sample == source_poll_sample_spec(*old(self), *event, timestamp_ms),
            *final(self) == source_poll_state_spec(*old(self), *event),
    {
        match &mut self.backend {
            InputBackend::XInput(x) => match event {
                PollEvent::XInputSlots(slots) => match x.poll(slots, timestamp_ms) {
                    Ok(sample) => sample,
                    Err(_) => InputSample::neutral(timestamp_ms),
                },
                _ => InputSample::neutral(timestamp_ms),
            },
            InputBackend::Hid(state) => match event {
                PollEvent::HidRead(read) => state.poll(read, timestamp_ms),
                _ => InputSample::neutral(timestamp_ms),
            },
        }
    }
}

} // verus!
