//! The order in which starting and stopping a recording touch the capture
//! devices, and what each failure leads to. The caller performs each step
//! (starting a device, spawning a thread, encoding) and reports what came of
//! it; these functions decide the next step.

use crate::commands::{
    Platform, humanize_mic_error, humanize_system_error, mic_error_text, system_error_text,
};
use crate::text::lowercase;
use vstd::prelude::*;

verus! {

/// What happened in the last step of starting a recording.
#[derive(Debug, PartialEq, Eq)]
pub enum StartEvent {
    /// The user asked to start.
    Requested,
    /// Microphone capture was started, or failed with a raw error.
    MicStarted(Result<(), String>),
    /// System-audio capture was started, or failed with a raw error.
    SystemStarted(Result<(), String>),
    /// The level-meter thread was started, or failed to start.
    MeterStarted(Result<(), String>),
}

/// The next step in starting a recording.
#[derive(Debug, PartialEq, Eq)]
pub enum StartStep {
    /// Start microphone capture.
    StartMic,
    /// Start system-audio capture.
    StartSystem,
    /// Stop the microphone again, then fail with this message.
    StopMicThenFail(String),
    /// Start the level-meter thread.
    StartMeter,
    /// Starting is over, with this result.
    Done(Result<(), String>),
}

/// Decides the next step in starting a recording, where `system` is the
/// platform whose system audio is captured, if any is. The
/// microphone goes first, being indispensable: when it fails, nothing else is
/// touched and its error is reported in humanized form. When system capture
/// then fails, the microphone is wound back and the humanized system error is
/// reported. The meter starts only once every capture runs.
pub fn next_start_step(event: StartEvent, system: Option<Platform>) -> (s: StartStep)
    ensures
        match event {
            StartEvent::Requested => s is StartMic,
            StartEvent::MicStarted(Ok(())) => if system is Some {
                s is StartSystem
            } else {
                s is StartMeter
            },
            StartEvent::MicStarted(Err(raw)) => s matches StartStep::Done(Err(m)) && m@
                == mic_error_text(raw@, lowercase(raw@)),
            StartEvent::SystemStarted(Ok(())) => s is StartMeter,
            StartEvent::SystemStarted(Err(raw)) => s matches StartStep::StopMicThenFail(m) && m@
                == system_error_text(raw@, lowercase(raw@), system),
            StartEvent::MeterStarted(r) => s == StartStep::Done(r),
        },
{
    match event {
        StartEvent::Requested => StartStep::StartMic,
        StartEvent::MicStarted(Ok(())) => if system.is_some() {
            StartStep::StartSystem
        } else {
            StartStep::StartMeter
        },
        StartEvent::MicStarted(Err(raw)) => StartStep::Done(Err(humanize_mic_error(raw))),
        StartEvent::SystemStarted(Ok(())) => StartStep::StartMeter,
        StartEvent::SystemStarted(Err(raw)) => StartStep::StopMicThenFail(
            humanize_system_error(raw, system),
        ),
        StartEvent::MeterStarted(r) => StartStep::Done(r),
    }
}

/// What happened in the last step of stopping a recording.
#[derive(Debug, PartialEq, Eq)]
pub enum StopEvent {
    /// The user asked to stop.
    Requested,
    /// The level-meter thread was stopped (or was not running).
    MeterStopped,
    /// Microphone capture stopped with this many samples, or failed.
    MicStopped(Result<usize, String>),
    /// System-audio capture stopped with this many samples, or failed.
    SystemStopped(Result<usize, String>),
}

/// The next step in stopping a recording.
#[derive(Debug, PartialEq, Eq)]
pub enum StopStep {
    /// Stop the level-meter thread first, so no level is reported after
    /// recording stops.
    StopMeter,
    /// Stop microphone capture.
    StopMic,
    /// Stop system-audio capture.
    StopSystem,
    /// System audio could not be collected: warn with this raw error, then
    /// save the microphone alone.
    WarnAndSaveMicOnly(String),
    /// Save the recording: the microphone mixed with system audio when
    /// `mix`, else the microphone alone at full amplitude.
    Save { mix: bool },
    /// Stopping failed with this error.
    Fail(String),
}

/// Decides the next step in stopping a recording, where `has_system` says
/// whether system audio is captured. The microphone is stopped first to
/// bound capture time, and its failure fails the stop; system audio is best
/// effort: its failure, or its silence, leaves the microphone alone.
pub fn next_stop_step(event: StopEvent, has_system: bool) -> (s: StopStep)
    ensures
        match event {
            StopEvent::Requested => s is StopMeter,
            StopEvent::MeterStopped => s is StopMic,
            StopEvent::MicStopped(Err(e)) => s == StopStep::Fail(e),
            StopEvent::MicStopped(Ok(_)) => if has_system {
                s is StopSystem
            } else {
                s == StopStep::Save { mix: false }
            },
            StopEvent::SystemStopped(Err(e)) => s == StopStep::WarnAndSaveMicOnly(e),
            StopEvent::SystemStopped(Ok(n)) => s == StopStep::Save { mix: n > 0 },
        },
{
    match event {
        StopEvent::Requested => StopStep::StopMeter,
        StopEvent::MeterStopped => StopStep::StopMic,
        StopEvent::MicStopped(Err(e)) => StopStep::Fail(e),
        StopEvent::MicStopped(Ok(_)) => if has_system {
            StopStep::StopSystem
        } else {
            StopStep::Save { mix: false }
        },
        StopEvent::SystemStopped(Err(e)) => StopStep::WarnAndSaveMicOnly(e),
        StopEvent::SystemStopped(Ok(n)) => StopStep::Save { mix: n > 0 },
    }
}

} // verus!
