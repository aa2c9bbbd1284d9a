use hanteker_bridge::command::{ChannelSelection, DevCommand, DevCommandResult, DevError, Outcome, Reply};
use hanteker_bridge::params::{AwgType, Coupling, Probe, Real, RunningStatus, Scale, TimeScale, TriggerMode};
use hanteker_bridge::snapshot::{Param, Snapshot};
use hanteker_bridge::state::{bring_up_command, Exchange, HantekState, Link, Note, BRING_UP_STEPS};
use hanteker_bridge::worker::{Step, Worker};

fn ok() -> Reply {
    Ok(DevCommandResult::EmptyResult)
}

/// Runs an operation to its end, answering each command with the next reply;
/// returns the result and the commands sent.
fn finish(state: &mut HantekState, first: Exchange, replies: &mut dyn FnMut(DevCommand) -> Reply) -> (Result<(), DevError>, Vec<DevCommand>) {
    let mut sent = Vec::new();
    let mut ex = first;
    loop {
        match ex {
            Exchange::Send(cmd) => {
                sent.push(cmd);
                ex = state.resume(replies(cmd));
            }
            Exchange::Done(r) => return (r, sent),
        }
    }
}

fn script() -> Vec<DevCommand> {
    (0..BRING_UP_STEPS).map(bring_up_command).collect()
}

#[test]
fn bring_up_sets_the_default_configuration() {
    let mut state = HantekState::new();
    let first = state.connect();
    let (result, sent) = finish(&mut state, first, &mut |_| ok());
    assert_eq!(result, Ok(()));
    assert_eq!(sent.len(), 1 + BRING_UP_STEPS);
    assert_eq!(sent[0], DevCommand::Connect);
    assert_eq!(sent[1..].to_vec(), script());
    assert_eq!(state.link(), Link::Ready);
    let cfg = state.config();
    assert!(cfg.get_running());
    assert_eq!(cfg.get_coupling(1), Coupling::Dc);
    assert_eq!(cfg.get_coupling(2), Coupling::Dc);
    assert_eq!(cfg.get_probe(2), Probe::X1);
    assert_eq!(cfg.get_scale(1), Scale::V10);
    assert_eq!(cfg.get_offset(2), Real { bits: 0.0f32.to_bits() });
    assert!(cfg.get_enabled_channel(1));
    assert!(!cfg.get_enabled_channel(2));
    assert!(!cfg.get_bw_limit(1));
    assert_eq!(cfg.get_time_scale(), TimeScale::Ms1);
    assert_eq!(cfg.get_trigger_source(), 1);
    assert_eq!(cfg.get_trigger_mode(), TriggerMode::Auto);
    assert_eq!(cfg.get_awg_running(), RunningStatus::Stop);
    assert_eq!(cfg.get_awg_frequency(), Real { bits: 1.0f32.to_bits() });
    assert_eq!(cfg.get_awg_amplitude(), Real { bits: 1.0f32.to_bits() });
    assert_eq!(cfg.get_awg_type(), AwgType::Square);
    assert_eq!(cfg.awg_duty_trap.map(|d| d.rise), Some(Real::zero()));
    for p in [Param::Running, Param::Coupling(2), Param::Offset(1), Param::AwgDutyTrap, Param::TriggerLevel] {
        assert!(!state.is_disabled(p));
    }
    assert_eq!(state.messages().last(), Some(&Note::Connected));
}

#[test]
fn bring_up_stops_at_the_failing_step() {
    let k = 3;
    let failure = DevError::OperationFailed {
        command: bring_up_command(k - 1),
        reason: "stall".to_string(),
    };
    let mut state = HantekState::new();
    let first = state.connect();
    let mut n = 0;
    let f = failure.clone();
    let (result, sent) = finish(&mut state, first, &mut |_| {
        n += 1;
        if n == k + 1 { Err(f.clone()) } else { ok() }
    });
    assert_eq!(result, Err(failure.clone()));
    assert_eq!(sent.len(), k + 1);
    assert_eq!(sent[1..].to_vec(), script()[..k].to_vec());
    assert_eq!(state.link(), Link::PartiallyConfigured);
    assert!(state.is_connected());
    let mut expected = Snapshot::new();
    for cmd in &script()[..k] {
        expected.record(*cmd);
    }
    assert_eq!(state.config(), expected);
    assert_eq!(state.config().channel1.probe, None);
    assert_eq!(state.config().channel2.coupling, Some(Coupling::Dc));
    assert_eq!(state.messages().last(), Some(&Note::Failed(failure)));
}

#[test]
fn connect_failure_leaves_disconnected() {
    let mut state = HantekState::new();
    let first = state.connect();
    let e = DevError::NotConnected;
    let (result, sent) = finish(&mut state, first, &mut |_| Err(DevError::NotConnected));
    assert_eq!(result, Err(e));
    assert_eq!(sent, vec![DevCommand::Connect]);
    assert_eq!(state.link(), Link::Disconnected);
    assert_eq!(state.config(), Snapshot::new());
}

#[test]
fn apply_while_disconnected_is_refused() {
    let mut state = HantekState::new();
    state.record(DevCommand::Coupling(1, Coupling::Ac));
    assert!(state.is_disabled(Param::Coupling(1)));
    match state.apply(Param::Coupling(1)) {
        Exchange::Done(r) => assert_eq!(r, Err(DevError::NotConnected)),
        Exchange::Send(c) => panic!("sent {:?}", c),
    }
    assert_eq!(state.messages().to_vec(), vec![Note::Failed(DevError::NotConnected)]);
}

#[test]
fn disconnect_clears_snapshot_and_log() {
    let mut state = HantekState::new();
    let first = state.connect();
    finish(&mut state, first, &mut |_| ok()).0.unwrap();
    let first = state.disconnect();
    let (result, sent) = finish(&mut state, first, &mut |_| ok());
    assert_eq!(result, Ok(()));
    assert_eq!(sent, vec![DevCommand::Disconnect]);
    assert_eq!(state.link(), Link::Disconnected);
    assert!(state.messages().is_empty());
    assert_eq!(state.config(), Snapshot::new());
}

/// Drives a worker from the caller, with the driver answering `outcome`.
fn through_worker(worker: &mut Worker, cmd: DevCommand, outcome: &dyn Fn() -> Outcome) -> Reply {
    let mut step = worker.begin(cmd);
    loop {
        match step {
            Step::Call(_) => step = worker.resume(outcome()),
            Step::Reply(r) => return r,
            Step::Abort(m) => panic!("abort: {}", m),
        }
    }
}

#[test]
fn example_session() {
    let mut worker = Worker::new();
    let mut state = HantekState::new();
    let healthy = || -> Outcome { Ok(DevCommandResult::EmptyResult) };

    let first = state.connect();
    let (result, _) = finish(&mut state, first, &mut |cmd| through_worker(&mut worker, cmd, &healthy));
    assert_eq!(result, Ok(()));
    assert!(worker.has_session());

    state.record(DevCommand::Coupling(1, Coupling::Dc));
    let first = state.apply(Param::Coupling(1));
    let (result, sent) = finish(&mut state, first, &mut |cmd| through_worker(&mut worker, cmd, &healthy));
    assert_eq!(result, Ok(()));
    assert_eq!(sent, vec![DevCommand::Coupling(1, Coupling::Dc)]);
    assert_eq!(state.config().channel1.coupling, Some(Coupling::Dc));
    let before = state.config();

    let failing = || -> Outcome { Err("device error".to_string()) };
    let first = state.apply(Param::Coupling(1));
    let (result, _) = finish(&mut state, first, &mut |cmd| through_worker(&mut worker, cmd, &failing));
    let expected = DevError::OperationFailed {
        command: DevCommand::Coupling(1, Coupling::Dc),
        reason: "device error".to_string(),
    };
    assert_eq!(result, Err(expected.clone()));
    assert_eq!(state.config(), before);
    assert_eq!(state.messages().last(), Some(&Note::Failed(expected)));
    assert!(state.is_connected());
}

#[test]
fn snapshot_defaults_while_unknown() {
    let s = Snapshot::new();
    assert!(!s.get_running());
    assert_eq!(s.get_coupling(1), Coupling::Ac);
    assert_eq!(s.get_probe(1), Probe::X1);
    assert_eq!(s.get_scale(2), Scale::Mv10);
    assert_eq!(s.get_offset(1), Real::zero());
    assert!(!s.get_enabled_channel(2));
    assert_eq!(s.get_time_scale(), TimeScale::Ns5);
    assert_eq!(s.get_trigger_source(), 1);
    assert_eq!(s.get_awg_type(), AwgType::Square);
    assert_eq!(s.get_awg_duty_trap().high, Real::zero());
    assert_eq!(s.command_for(Param::Probe(1)), None);
}

#[test]
fn record_and_read_back() {
    let mut s = Snapshot::new();
    let v = Real { bits: 2.5f32.to_bits() };
    s.record(DevCommand::Offset(2, v));
    s.record(DevCommand::AwgDutyTrap(v, Real::one(), Real::zero()));
    s.record(DevCommand::Probe(3, Probe::X10));
    assert_eq!(s.get_offset(2), v);
    assert_eq!(s.get_offset(1), Real::zero());
    assert_eq!(s.command_for(Param::Offset(2)), Some(DevCommand::Offset(2, v)));
    assert_eq!(s.command_for(Param::Probe(3)), None);
    assert_eq!(
        s.command_for(Param::AwgDutyTrap),
        Some(DevCommand::AwgDutyTrap(v, Real::one(), Real::zero()))
    );
}

#[test]
fn capture_is_kept_for_display() {
    let mut worker = Worker::new();
    let mut state = HantekState::new();
    let sel = ChannelSelection { first: true, second: false };
    match state.capture(sel, 4) {
        Exchange::Done(r) => assert_eq!(r, Err(DevError::NotConnected)),
        Exchange::Send(c) => panic!("sent {:?}", c),
    }
    let healthy = || -> Outcome { Ok(DevCommandResult::EmptyResult) };
    let first = state.connect();
    finish(&mut state, first, &mut |cmd| through_worker(&mut worker, cmd, &healthy)).0.unwrap();
    assert_eq!(state.capture_data(), None);

    let samples = || -> Outcome { Ok(DevCommandResult::CaptureResult(vec![1, 2, 3, 4])) };
    let first = state.capture(sel, 4);
    let (result, sent) = finish(&mut state, first, &mut |cmd| through_worker(&mut worker, cmd, &samples));
    assert_eq!(result, Ok(()));
    assert_eq!(sent, vec![DevCommand::Capture(sel, 4)]);
    assert_eq!(state.capture_data(), Some(&vec![1, 2, 3, 4]));

    let short = || -> Outcome { Ok(DevCommandResult::CaptureResult(vec![9])) };
    let first = state.capture(sel, 4);
    let (result, _) = finish(&mut state, first, &mut |cmd| through_worker(&mut worker, cmd, &short));
    assert_eq!(
        result,
        Err(DevError::UnexpectedPayload { command: DevCommand::Capture(sel, 4), length: 1 })
    );
    assert_eq!(state.capture_data(), Some(&vec![1, 2, 3, 4]));
}

#[test]
fn same_compares_log_entries() {
    let run = |reason: &str| {
        let mut state = HantekState::new();
        let first = state.disconnect();
        let e = DevError::ConnectFailed { stage: hanteker_bridge::command::ConnectStage::Open, reason: reason.to_string() };
        let (result, _) = finish(&mut state, first, &mut |_| Err(e.clone()));
        assert!(result.is_err());
        state
    };
    let a = run("first");
    let b = run("second");
    let c = run("first");
    assert_eq!(a.messages().len(), b.messages().len());
    assert!(!a.same(&b));
    assert!(a.same(&c));
    assert!(a.same(&a));
}

#[test]
fn trap_setters_keep_the_other_two() {
    let mut state = HantekState::new();
    let h = Real { bits: 0.25f32.to_bits() };
    let l = Real { bits: 0.5f32.to_bits() };
    state.record_trap_high(h);
    let d = state.config().get_awg_duty_trap();
    assert_eq!((d.high, d.low, d.rise), (h, Real::zero(), Real::zero()));
    state.record_trap_low(l);
    state.record_trap_rise(Real::one());
    let d = state.config().get_awg_duty_trap();
    assert_eq!((d.high, d.low, d.rise), (h, l, Real::one()));
    assert_eq!(
        state.config().command_for(Param::AwgDutyTrap),
        Some(DevCommand::AwgDutyTrap(h, l, Real::one()))
    );
    let mut s = Snapshot::new();
    s.record_trap_rise(l);
    assert_eq!(s.get_awg_duty_trap().rise, l);
    assert_eq!(s.get_awg_duty_trap().high, Real::zero());
}
