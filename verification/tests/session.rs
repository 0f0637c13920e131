use steno::{
    Platform, StartEvent, StartStep, StopEvent, StopStep, humanize_mic_error,
    humanize_system_error, next_start_step, next_stop_step,
};

/// Drives a start with the given device outcomes; returns the steps taken
/// and the final result.
fn start_run(
    mic: Result<(), String>,
    system: Result<(), String>,
    meter: Result<(), String>,
    platform: Option<Platform>,
) -> (Vec<StartStep>, Result<(), String>) {
    let mut steps = Vec::new();
    let mut event = StartEvent::Requested;
    let (mut mic, mut system, mut meter) = (Some(mic), Some(system), Some(meter));
    loop {
        let step = next_start_step(event, platform);
        event = match &step {
            StartStep::StartMic => StartEvent::MicStarted(mic.take().unwrap()),
            StartStep::StartSystem => StartEvent::SystemStarted(system.take().unwrap()),
            StartStep::StartMeter => StartEvent::MeterStarted(meter.take().unwrap()),
            StartStep::StopMicThenFail(m) => {
                let m = m.clone();
                steps.push(step);
                return (steps, Err(m));
            }
            StartStep::Done(r) => {
                let r = r.clone();
                steps.push(step);
                return (steps, r);
            }
        };
        steps.push(step);
    }
}

#[test]
fn start_all_ok_runs_mic_system_meter() {
    let (steps, r) = start_run(Ok(()), Ok(()), Ok(()), Some(Platform::MacOs));
    assert_eq!(r, Ok(()));
    assert_eq!(
        steps,
        vec![StartStep::StartMic, StartStep::StartSystem, StartStep::StartMeter, StartStep::Done(Ok(()))]
    );
}

#[test]
fn start_mic_failure_never_touches_system() {
    let (steps, r) = start_run(Err("no default input device".into()), Ok(()), Ok(()), Some(Platform::Windows));
    assert_eq!(r, Err(humanize_mic_error("no default input device".into())));
    assert_eq!(steps.len(), 2);
    assert!(!steps.contains(&StartStep::StartSystem));
    assert!(r.unwrap_err().starts_with("No input device found."));
}

#[test]
fn start_system_failure_winds_back_mic() {
    let (steps, r) = start_run(Ok(()), Err("Context::connect failed".into()), Ok(()), Some(Platform::Linux));
    let expected = humanize_system_error("Context::connect failed".into(), Some(Platform::Linux));
    assert_eq!(r, Err(expected.clone()));
    assert_eq!(steps.last(), Some(&StartStep::StopMicThenFail(expected)));
    assert!(!steps.contains(&StartStep::StartMeter));
}

#[test]
fn start_without_system_capture_goes_to_meter() {
    let (steps, r) = start_run(Ok(()), Err("unused".into()), Err("spawn meter thread: x".into()), None);
    assert_eq!(r, Err("spawn meter thread: x".to_string()));
    assert_eq!(steps[1], StartStep::StartMeter);
}

#[test]
fn stop_order_and_mixing() {
    assert_eq!(next_stop_step(StopEvent::Requested, true), StopStep::StopMeter);
    assert_eq!(next_stop_step(StopEvent::MeterStopped, true), StopStep::StopMic);
    assert_eq!(next_stop_step(StopEvent::MicStopped(Ok(10)), true), StopStep::StopSystem);
    assert_eq!(next_stop_step(StopEvent::MicStopped(Ok(10)), false), StopStep::Save { mix: false });
    assert_eq!(
        next_stop_step(StopEvent::MicStopped(Err("not recording".into())), true),
        StopStep::Fail("not recording".into())
    );
    assert_eq!(next_stop_step(StopEvent::SystemStopped(Ok(5)), true), StopStep::Save { mix: true });
    assert_eq!(next_stop_step(StopEvent::SystemStopped(Ok(0)), true), StopStep::Save { mix: false });
    assert_eq!(
        next_stop_step(StopEvent::SystemStopped(Err("x".into())), true),
        StopStep::WarnAndSaveMicOnly("x".into())
    );
}
