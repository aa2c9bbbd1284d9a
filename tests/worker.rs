use hanteker_bridge::command::{
    ChannelSelection, ConnectStage, DevCommand, DevCommandResult, DevError, DeviceCall, Outcome,
    Reply,
};
use hanteker_bridge::params::{Coupling, Real, RunningStatus};
use hanteker_bridge::worker::{answer, Step, Worker};

/// Runs one command to its end, answering the driver calls with `outs` in
/// order; returns the final step and the calls asked for.
fn run(worker: &mut Worker, cmd: DevCommand, outs: Vec<Outcome>) -> (Step, Vec<DeviceCall>) {
    let mut outs = outs.into_iter();
    let mut calls = Vec::new();
    let mut step = worker.begin(cmd);
    loop {
        match step {
            Step::Call(call) => {
                calls.push(call);
                match outs.next() {
                    Some(o) => step = worker.resume(o),
                    None => return (Step::Call(call), calls),
                }
            }
            other => return (other, calls),
        }
    }
}

fn ok() -> Outcome {
    Ok(DevCommandResult::EmptyResult)
}

fn reply(step: Step) -> Reply {
    match step {
        Step::Reply(r) => r,
        other => panic!("expected a reply, got {:?}", other),
    }
}

fn connected() -> Worker {
    let mut w = Worker::new();
    let (step, calls) = run(&mut w, DevCommand::Connect, vec![ok(), ok()]);
    assert_eq!(reply(step), Ok(DevCommandResult::EmptyResult));
    assert_eq!(calls, vec![DeviceCall::Open, DeviceCall::Claim]);
    assert!(w.has_session());
    w
}

#[test]
fn commands_without_session_are_not_connected() {
    let cmds = vec![
        DevCommand::ScopeRunning(RunningStatus::Start),
        DevCommand::Coupling(1, Coupling::Dc),
        DevCommand::Offset(2, Real { bits: 1.5f32.to_bits() }),
        DevCommand::TriggerSource(1),
        DevCommand::AwgDutyTrap(Real::zero(), Real::one(), Real::zero()),
        DevCommand::Capture(ChannelSelection { first: true, second: false }, 16),
    ];
    for cmd in cmds {
        let mut w = Worker::new();
        let (step, calls) = run(&mut w, cmd, vec![ok()]);
        assert_eq!(reply(step), Err(DevError::NotConnected));
        assert!(calls.is_empty());
        assert!(!w.has_session());
        assert!(w.is_idle());
    }
}

#[test]
fn disconnect_twice_succeeds_both_times() {
    let mut w = connected();
    let (step, calls) = run(&mut w, DevCommand::Disconnect, vec![ok()]);
    assert_eq!(reply(step), Ok(DevCommandResult::EmptyResult));
    assert_eq!(calls, vec![DeviceCall::Release]);
    assert!(!w.has_session());
    let (step, calls) = run(&mut w, DevCommand::Disconnect, vec![]);
    assert_eq!(reply(step), Ok(DevCommandResult::EmptyResult));
    assert!(calls.is_empty());
    assert!(!w.has_session());
}

#[test]
fn replies_follow_submission_order() {
    let mut w = Worker::new();
    let script: Vec<(DevCommand, Vec<Outcome>)> = vec![
        (DevCommand::Coupling(1, Coupling::Ac), vec![]),
        (DevCommand::Connect, vec![ok(), ok()]),
        (DevCommand::Coupling(1, Coupling::Ac), vec![Err("bus error".to_string())]),
        (DevCommand::ChannelEnable(2, true), vec![ok()]),
        (DevCommand::Disconnect, vec![ok()]),
    ];
    let mut replies = Vec::new();
    for (cmd, outs) in script {
        let (step, _) = run(&mut w, cmd, outs);
        replies.push(reply(step));
    }
    assert_eq!(
        replies,
        vec![
            Err(DevError::NotConnected),
            Ok(DevCommandResult::EmptyResult),
            Err(DevError::OperationFailed {
                command: DevCommand::Coupling(1, Coupling::Ac),
                reason: "bus error".to_string(),
            }),
            Ok(DevCommandResult::EmptyResult),
            Ok(DevCommandResult::EmptyResult),
        ]
    );
}

#[test]
fn reconnect_releases_before_opening() {
    let mut w = connected();
    let (step, calls) = run(&mut w, DevCommand::Connect, vec![ok(), ok(), ok()]);
    assert_eq!(reply(step), Ok(DevCommandResult::EmptyResult));
    assert_eq!(calls, vec![DeviceCall::Release, DeviceCall::Open, DeviceCall::Claim]);
    assert!(w.has_session());
}

#[test]
fn reconnect_aborts_when_release_fails() {
    let mut w = connected();
    let (step, calls) = run(&mut w, DevCommand::Connect, vec![Err("stuck".to_string()), ok()]);
    match step {
        Step::Abort(reason) => assert_eq!(reason, "stuck"),
        other => panic!("expected an abort, got {:?}", other),
    }
    assert_eq!(calls, vec![DeviceCall::Release]);
}

#[test]
fn disconnect_aborts_when_release_fails() {
    let mut w = connected();
    let (step, _) = run(&mut w, DevCommand::Disconnect, vec![Err("gone".to_string())]);
    assert!(matches!(step, Step::Abort(_)));
}

#[test]
fn open_failure_leaves_no_session() {
    let mut w = Worker::new();
    let (step, calls) = run(&mut w, DevCommand::Connect, vec![Err("no device".to_string())]);
    assert_eq!(
        reply(step),
        Err(DevError::ConnectFailed { stage: ConnectStage::Open, reason: "no device".to_string() })
    );
    assert_eq!(calls, vec![DeviceCall::Open]);
    assert!(!w.has_session());
}

#[test]
fn claim_failure_leaves_no_session() {
    let mut w = Worker::new();
    let (step, calls) = run(&mut w, DevCommand::Connect, vec![ok(), Err("busy".to_string())]);
    assert_eq!(
        reply(step),
        Err(DevError::ConnectFailed { stage: ConnectStage::Claim, reason: "busy".to_string() })
    );
    assert_eq!(calls, vec![DeviceCall::Open, DeviceCall::Claim]);
    assert!(!w.has_session());
    let (step, _) = run(&mut w, DevCommand::TriggerSource(1), vec![ok()]);
    assert_eq!(reply(step), Err(DevError::NotConnected));
}

#[test]
fn each_command_maps_to_its_driver_call() {
    let half = Real { bits: 0.5f32.to_bits() };
    let cases = vec![
        (DevCommand::ScopeRunning(RunningStatus::Start), DeviceCall::Start),
        (DevCommand::ScopeRunning(RunningStatus::Stop), DeviceCall::Stop),
        (DevCommand::AwgRunningStatus(RunningStatus::Start), DeviceCall::AwgStart),
        (DevCommand::AwgRunningStatus(RunningStatus::Stop), DeviceCall::AwgStop),
        (DevCommand::ChannelEnable(2, true), DeviceCall::EnableChannel(2)),
        (DevCommand::ChannelEnable(2, false), DeviceCall::DisableChannel(2)),
        (DevCommand::BwLimit(1, true), DeviceCall::EnableBandwidthLimit(1)),
        (DevCommand::BwLimit(1, false), DeviceCall::DisableBandwidthLimit(1)),
        (DevCommand::Offset(1, half), DeviceCall::SetChannelOffset(1, half)),
        (DevCommand::TimeOffset(half), DeviceCall::SetTimeOffset(half)),
        (DevCommand::TriggerLevel(half), DeviceCall::SetTriggerLevel(half)),
        (DevCommand::AwgFrequency(half), DeviceCall::SetAwgFrequency(half)),
        (
            DevCommand::AwgDutyTrap(half, Real::one(), Real::zero()),
            DeviceCall::SetAwgDutyTrap(half, Real::one(), Real::zero()),
        ),
    ];
    for (cmd, call) in cases {
        assert_eq!(DeviceCall::for_command(cmd), call);
        let mut w = connected();
        let (step, calls) = run(&mut w, cmd, vec![ok()]);
        assert_eq!(reply(step), Ok(DevCommandResult::EmptyResult));
        assert_eq!(calls, vec![call]);
    }
}

#[test]
fn capture_payload_matches_request() {
    let both = ChannelSelection { first: true, second: true };
    assert_eq!(both.count(), 2);
    let mut w = connected();
    let bytes = vec![7u8; 2 * 5];
    let (step, calls) = run(
        &mut w,
        DevCommand::Capture(both, 5),
        vec![Ok(DevCommandResult::CaptureResult(bytes.clone()))],
    );
    assert_eq!(calls, vec![DeviceCall::Capture(both, 5)]);
    assert_eq!(reply(step), Ok(DevCommandResult::CaptureResult(bytes)));
}

#[test]
fn capture_payload_of_wrong_length_is_refused() {
    let one = ChannelSelection { first: false, second: true };
    let mut w = connected();
    let (step, _) = run(
        &mut w,
        DevCommand::Capture(one, 4),
        vec![Ok(DevCommandResult::CaptureResult(vec![0u8; 3]))],
    );
    assert_eq!(
        reply(step),
        Err(DevError::UnexpectedPayload { command: DevCommand::Capture(one, 4), length: 3 })
    );
    let (step, _) = run(&mut w, DevCommand::Capture(one, 4), vec![ok()]);
    assert_eq!(
        reply(step),
        Err(DevError::UnexpectedPayload { command: DevCommand::Capture(one, 4), length: 0 })
    );
}

#[test]
fn answer_wraps_the_driver_diagnostic() {
    let cmd = DevCommand::Coupling(2, Coupling::Ac);
    assert_eq!(
        answer(cmd, Err("timeout".to_string())),
        Err(DevError::OperationFailed { command: cmd, reason: "timeout".to_string() })
    );
    assert_eq!(answer(cmd, Ok(DevCommandResult::CaptureResult(vec![1]))), Ok(DevCommandResult::EmptyResult));
}

#[test]
fn duplicate_is_identical() {
    let e = DevError::ConnectFailed { stage: ConnectStage::Claim, reason: "x".to_string() };
    assert_eq!(e.duplicate(), e);
}
