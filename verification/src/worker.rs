//! The polling worker's bookkeeping and the runtime lifecycle around it.
//!
//! The worker itself is a dedicated thread owned by the caller; what this
//! crate holds are its decisions: whether a start request rejects, reuses
//! the running worker or spawns one; what stopping does; the per-tick frame
//! numbering; and how long a tick sleeps to hold the fixed cadence.

use vstd::prelude::*;

use crate::buttons::{button_names_spec, mask_to_buttons};
use crate::detect::NativeInputDetectResult;
use crate::sample::{InputSample, NativeInputMode};

verus! {

/// The fixed frame period of the tick loop, one sixtieth of a second, in
/// nanoseconds.
pub const FRAME_DURATION_NANOS: u64 = 16_666_667;

/// The externally emitted projection of one tick's sample: its frame index,
/// the sample's fields, and the button mask expanded into symbolic names.
#[derive(Clone, Debug, PartialEq, Eq)]
pub struct InputFramePayload {
    pub frame: u64,
    pub timestamp_ms: u64,
    pub direction: u8,
    pub down: Vec<String>,
}

/// A frame counter one past the largest value stays there rather than
/// wrapping.
pub open spec fn saturating_inc(value: u64) -> u64 {
    if value == u64::MAX {
        u64::MAX
    } else {
        (value + 1) as u64
    }
}

/// The counter value after a number of ticks from a fresh worker.
pub open spec fn frame_counter_after(ticks: nat) -> u64
    decreases ticks,
{
    if ticks == 0 {
        0
    } else {
        saturating_inc(frame_counter_after((ticks - 1) as nat))
    }
}

/// Until saturation the counter equals the number of ticks taken.
pub proof fn lemma_frame_counter_exact(ticks: nat)
    requires
        ticks <= u64::MAX,
    ensures
        frame_counter_after(ticks) == ticks,
    decreases ticks,
{
    if ticks > 0 {
        lemma_frame_counter_exact((ticks - 1) as nat);
    }
}

/// Across a sequence of emitted frame events the frame values are exactly
/// 0, 1, ..., N-1: the i-th tick of a worker's lifetime emits frame i, with
/// no gap and no repeat.
pub proof fn lemma_frames_zero_based(count: nat)
    requires
        count <= u64::MAX,
    ensures
        forall|i: int| 0 <= i < count ==> #[trigger] frame_counter_after(i as nat) == i,
{
    assert forall|i: int| 0 <= i < count implies #[trigger] frame_counter_after(i as nat)
        == i by {
        lemma_frame_counter_exact(i as nat);
    }
}

/// The per-worker frame numbering: a monotonically increasing counter
/// starting at 0 for each worker lifetime.
#[derive(Clone, Copy, Debug, PartialEq, Eq, Structural)]
pub struct WorkerTicker {
    pub next_frame: u64,
}

impl WorkerTicker {
    /// A fresh worker numbers its first frame 0.
    pub fn new() -> (ticker: Self)
        ensures
            ticker.next_frame == 0,
    {
        Self { next_frame: 0 }
    }

    /// Builds the frame event of one tick: it carries the current frame
    /// index and the sample's fields, with the button mask expanded into
    /// names, and the counter advances by one, saturating rather than
    /// wrapping.
    pub fn tick(&mut self, sample: &InputSample) -> (payload: InputFramePayload)
        ensures
            payload.frame == old(self).next_frame,
            payload.timestamp_ms == sample.timestamp_ms,
            payload.direction == sample.direction,
            payload.down@.map_values(|s: String| s@) == button_names_spec(sample.down_mask),
            final(self).next_frame == saturating_inc(old(self).next_frame),
    {
        let payload = InputFramePayload {
            frame: self.next_frame,
            timestamp_ms: sample.timestamp_ms,
            direction: sample.direction,
            down: mask_to_buttons(sample.down_mask),
        };
        self.next_frame = self.next_frame.saturating_add(1);
        payload
    }
}

/// How long a tick sleeps: the remainder of the frame period if the tick's
/// work finished early, nothing at all if it ran long — a slow tick is not
/// caught up retroactively, the next tick starts right away.
pub fn tick_sleep_nanos(elapsed_nanos: u64) -> (sleep_nanos: u64)
    ensures
        elapsed_nanos < FRAME_DURATION_NANOS ==> sleep_nanos == FRAME_DURATION_NANOS
            - elapsed_nanos,
        elapsed_nanos >= FRAME_DURATION_NANOS ==> sleep_nanos == 0,
{
    if elapsed_nanos < FRAME_DURATION_NANOS {
        FRAME_DURATION_NANOS - elapsed_nanos
    } else {
        0
    }
}

/// The runtime's single worker slot: at most one worker is live at a time,
/// remembered here with the mode it was started in.
#[derive(Clone, Copy, Debug, PartialEq, Eq, Structural)]
pub struct InputRuntimeState {
    pub worker: Option<NativeInputMode>,
}

impl InputRuntimeState {
    /// A fresh runtime has no worker.
    pub fn new() -> (state: Self)
        ensures
            state.worker is None,
    {
        Self { worker: None }
    }
}

/// What a start request decides.
#[derive(Clone, Copy, Debug, PartialEq, Eq, Structural)]
pub enum StartAction {
    Reject,
    AlreadyRunning,
    Spawn,
}

/// The caller-visible outcome of a start request: a rejection carries its
/// user-facing message; both other outcomes are successes, and only
/// `SpawnWorker` asks the caller to spawn a tick loop.
#[derive(Clone, Debug, PartialEq, Eq)]
pub enum StartOutcome {
    Rejected(String),
    AlreadyRunning,
    SpawnWorker,
}

/// The caller-visible outcome of a stop request: both are successes, and
/// only `JoinWorker` asks the caller to signal and join a thread.
#[derive(Clone, Copy, Debug, PartialEq, Eq, Structural)]
pub enum StopOutcome {
    JoinWorker,
    NothingRunning,
}

/// The requested mode's own presence flag of a detection result.
pub open spec fn mode_detected(mode: NativeInputMode, detected: NativeInputDetectResult) -> bool {
    match mode {
        NativeInputMode::XInput => detected.xinput,
        NativeInputMode::Hid => detected.hid,
    }
}

/// What a start request decides: reject when the requested mode's device is
/// not detected; reuse the running worker when one exists; spawn otherwise.
pub open spec fn start_action_spec(
    state: InputRuntimeState,
    mode: NativeInputMode,
    detected: NativeInputDetectResult,
) -> StartAction {
    if !mode_detected(mode, detected) {
        StartAction::Reject
    } else if state.worker is Some {
        StartAction::AlreadyRunning
    } else {
        StartAction::Spawn
    }
}

/// The runtime state after a start request: a worker is installed exactly
/// when the request spawns one; otherwise nothing changes.
pub open spec fn start_transition_spec(
    state: InputRuntimeState,
    mode: NativeInputMode,
    detected: NativeInputDetectResult,
) -> InputRuntimeState {
    if start_action_spec(state, mode, detected) == StartAction::Spawn {
        InputRuntimeState { worker: Some(mode) }
    } else {
        state
    }
}

/// The message a rejected start surfaces, naming the requested mode.
pub open spec fn reject_message_spec(mode: NativeInputMode) -> Seq<char> {
    match mode {
        NativeInputMode::XInput => "Native input mode 'xinput' did not detect a connected controller."@,
        NativeInputMode::Hid => "Native input mode 'hid' did not detect a supported PS4 HID controller."@,
    }
}

/// What a stop request answers: join the worker when one exists, report
/// nothing running otherwise. Either way is a success.
pub open spec fn stop_outcome_spec(state: InputRuntimeState) -> StopOutcome {
    if state.worker is Some {
        StopOutcome::JoinWorker
    } else {
        StopOutcome::NothingRunning
    }
}

/// Starting while a worker is already running succeeds without installing a
/// second one: after a successful start exactly one worker exists, and a
/// second start in a row answers `AlreadyRunning` and changes nothing, so
/// frame indices are never produced by two tick loops at once.
pub proof fn lemma_start_idempotent(
    state: InputRuntimeState,
    mode: NativeInputMode,
    detected: NativeInputDetectResult,
)
    requires
        mode_detected(mode, detected),
    ensures
        ({
            let once = start_transition_spec(state, mode, detected);
            let twice = start_transition_spec(once, mode, detected);
            once.worker is Some && twice == once && start_action_spec(once, mode, detected)
                == StartAction::AlreadyRunning
        }),
{
}

/// Stopping a runtime that never started a worker is a no-op success: it
/// answers `NothingRunning` — not an error — and leaves the state empty.
pub proof fn lemma_stop_without_worker(state: InputRuntimeState)
    requires
        state.worker is None,
    ensures
        stop_outcome_spec(state) == StopOutcome::NothingRunning,
{
}

/// A start request rejects exactly when the requested mode's device is not
/// currently detected, carrying a message that names the mode; it reuses a
/// running worker rather than starting a second; only otherwise does it ask
/// for a spawn, installing that one worker.
pub fn input_start(
    state: &mut InputRuntimeState,
    mode: NativeInputMode,
    detected: NativeInputDetectResult,
) -> (outcome: StartOutcome)
    ensures
        *final(state) == start_transition_spec(*old(state), mode, detected),
        match outcome {
            StartOutcome::Rejected(message) => {
                start_action_spec(*old(state), mode, detected) == StartAction::Reject && message@
                    == reject_message_spec(mode)
            },
            StartOutcome::AlreadyRunning => {
                start_action_spec(*old(state), mode, detected) == StartAction::AlreadyRunning
            },
            StartOutcome::SpawnWorker => {
                start_action_spec(*old(state), mode, detected) == StartAction::Spawn
            },
        },
{
    let mode_present = match mode {
        NativeInputMode::XInput => detected.xinput,
        NativeInputMode::Hid => detected.hid,
    };
    if !mode_present {
        let message = match mode {
            NativeInputMode::XInput => String::from_str(
                "Native input mode 'xinput' did not detect a connected controller.",
            ),
            NativeInputMode::Hid => String::from_str(
                "Native input mode 'hid' did not detect a supported PS4 HID controller.",
            ),
        };
        return StartOutcome::Rejected(message);
    }

    if state.worker.is_some() {
        return StartOutcome::AlreadyRunning;
    }

    state.worker = Some(mode);
    StartOutcome::SpawnWorker
}

/// A stop request empties the worker slot and answers whether there was a
/// worker to signal and join; stopping with none running is a no-op
/// success.
pub fn input_stop(state: &mut InputRuntimeState) -> (outcome: StopOutcome)
    ensures
        final(state).worker is None,
        outcome == stop_outcome_spec(*old(state)),
{
    if state.worker.is_some() {
        state.worker = None;
        StopOutcome::JoinWorker
    } else {
        StopOutcome::NothingRunning
    }
}

} // verus!
