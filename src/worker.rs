//! The device worker: sole owner of the optional device session.
//!
//! The worker takes one command at a time and answers it with exactly one
//! reply. Between the two it may ask its host to perform driver calls; the
//! host performs each call and hands the outcome back through `resume`. The
//! worker decides everything else: which call comes next, whether a session
//! is held, and what the reply is.

use vstd::prelude::*;
use crate::command::{
    ConnectStage, DevCommand, DevCommandResult, DevError, DeviceCall, Outcome, Reply,
    operation_of,
};

verus! {

/// What the worker is waiting for.
#[derive(Clone, Copy, Debug, PartialEq, Eq, Structural)]
pub enum Pending {
    /// Ready for the next command.
    Idle,
    /// Releasing the held session; `reopen` when a connect follows.
    Releasing { reopen: bool },
    /// Opening the device for a connect.
    Opening,
    /// Claiming the freshly opened device.
    Claiming,
    /// Waiting for the driver call that carries out this command.
    Operating(DevCommand),
}

/// The worker's state: whether a session is held, and what it waits for.
#[derive(Clone, Copy, Debug, PartialEq, Eq, Structural)]
pub struct WorkerState {
    pub session: bool,
    pub pending: Pending,
}

/// What the worker asks of its host next.
#[derive(Debug)]
pub enum Step {
    /// Perform this driver call and hand its outcome to `resume`.
    Call(DeviceCall),
    /// The command is done: send this reply to the caller.
    Reply(Reply),
    /// Releasing a session the worker itself claimed failed: the ownership of
    /// the device can no longer be trusted, and the process must end.
    Abort(String),
}

pub open spec fn idle_with(session: bool) -> WorkerState {
    WorkerState { session, pending: Pending::Idle }
}

pub open spec fn done() -> Reply {
    Ok(DevCommandResult::EmptyResult)
}

/// State and first step after a command is taken up.
pub open spec fn begin_spec(s: WorkerState, cmd: DevCommand) -> (WorkerState, Step) {
    match cmd {
        DevCommand::Connect => if s.session {
            (
                WorkerState { session: true, pending: Pending::Releasing { reopen: true } },
                Step::Call(DeviceCall::Release),
            )
        } else {
            (WorkerState { session: false, pending: Pending::Opening }, Step::Call(DeviceCall::Open))
        },
        DevCommand::Disconnect => if s.session {
            (
                WorkerState { session: true, pending: Pending::Releasing { reopen: false } },
                Step::Call(DeviceCall::Release),
            )
        } else {
            (s, Step::Reply(done()))
        },
        _ => if s.session {
            (
                WorkerState { session: true, pending: Pending::Operating(cmd) },
                Step::Call(operation_of(cmd)),
            )
        } else {
            (s, Step::Reply(Err(DevError::NotConnected)))
        },
    }
}

/// The reply to a command that used the session, from its driver call's
/// outcome. A capture succeeds only with a payload of exactly
/// (selected channels x samples) bytes.
pub open spec fn answer_spec(cmd: DevCommand, outcome: Outcome) -> Reply {
    match outcome {
        Err(reason) => Err(DevError::OperationFailed { command: cmd, reason }),
        Ok(payload) => match cmd {
            DevCommand::Capture(sel, n) => match payload {
                DevCommandResult::CaptureResult(bytes) => if bytes.len() == sel.spec_count() * n {
                    Ok(DevCommandResult::CaptureResult(bytes))
                } else {
                    Err(DevError::UnexpectedPayload { command: cmd, length: bytes.len() })
                },
                DevCommandResult::EmptyResult => Err(
                    DevError::UnexpectedPayload { command: cmd, length: 0 },
                ),
            },
            _ => done(),
        },
    }
}

/// State and next step after a driver call's outcome.
pub open spec fn resume_spec(s: WorkerState, outcome: Outcome) -> (WorkerState, Step) {
    match s.pending {
        Pending::Releasing { reopen } => match outcome {
            Err(reason) => (s, Step::Abort(reason)),
            Ok(_) => if reopen {
                (WorkerState { session: false, pending: Pending::Opening }, Step::Call(DeviceCall::Open))
            } else {
                (idle_with(false), Step::Reply(done()))
            },
        },
        Pending::Opening => match outcome {
            Ok(_) => (WorkerState { session: false, pending: Pending::Claiming }, Step::Call(DeviceCall::Claim)),
            Err(reason) => (
                idle_with(false),
                Step::Reply(Err(DevError::ConnectFailed { stage: ConnectStage::Open, reason })),
            ),
        },
        Pending::Claiming => match outcome {
            Ok(_) => (idle_with(true), Step::Reply(done())),
            Err(reason) => (
                idle_with(false),
                Step::Reply(Err(DevError::ConnectFailed { stage: ConnectStage::Claim, reason })),
            ),
        },
        Pending::Operating(cmd) => (idle_with(s.session), Step::Reply(answer_spec(cmd, outcome))),
        Pending::Idle => (s, Step::Reply(Err(DevError::NotConnected))),
    }
}

/// The worker: owns the session flag and the pending driver call.
pub struct Worker {
    state: WorkerState,
}

impl View for Worker {
    type V = WorkerState;

    closed spec fn view(&self) -> WorkerState {
        self.state
    }
}

impl Worker {
    /// A worker without a session, ready for a command.
    pub fn new() -> (w: Worker)
        ensures
            w@ == idle_with(false),
    {
        Worker { state: WorkerState { session: false, pending: Pending::Idle } }
    }

    pub fn has_session(&self) -> (r: bool)
        ensures
            r == self@.session,
    {
        self.state.session
    }

    pub fn is_idle(&self) -> (r: bool)
        ensures
            r == (self@.pending is Idle),
    {
        match self.state.pending {
            Pending::Idle => true,
            _ => false,
        }
    }

    /// Takes up a command. `Connect` on a held session first releases it;
    /// `Disconnect` without a session is answered at once with success; any
    /// other command without a session is answered at once with
    /// `NotConnected`, and no driver call is asked for.
    pub fn begin(&mut self, cmd: DevCommand) -> (r: Step)
        requires
            old(self)@.pending is Idle,
        ensures
            (final(self)@, r) == begin_spec(old(self)@, cmd),
    {
        match cmd {
            DevCommand::Connect => {
                if self.state.session {
                    self.state = WorkerState {
                        session: true,
                        pending: Pending::Releasing { reopen: true },
                    };
                    Step::Call(DeviceCall::Release)
                } else {
                    self.state = WorkerState { session: false, pending: Pending::Opening };
                    Step::Call(DeviceCall::Open)
                }
            },
            DevCommand::Disconnect => {
                if self.state.session {
                    self.state = WorkerState {
                        session: true,
                        pending: Pending::Releasing { reopen: false },
                    };
                    Step::Call(DeviceCall::Release)
                } else {
                    Step::Reply(Ok(DevCommandResult::EmptyResult))
                }
            },
            _ => {
                if self.state.session {
                    self.state = WorkerState { session: true, pending: Pending::Operating(cmd) };
                    Step::Call(DeviceCall::for_command(cmd))
                } else {
                    Step::Reply(Err(DevError::NotConnected))
                }
            },
        }
    }

    /// Takes the outcome of the driver call last asked for.
    pub fn resume(&mut self, outcome: Outcome) -> (r: Step)
        requires
            !(old(self)@.pending is Idle),
        ensures
            (final(self)@, r) == resume_spec(old(self)@, outcome),
    {
        match self.state.pending {
            Pending::Releasing { reopen } => match outcome {
                Err(reason) => Step::Abort(reason),
                Ok(_) => {
                    if reopen {
                        self.state = WorkerState { session: false, pending: Pending::Opening };
                        Step::Call(DeviceCall::Open)
                    } else {
                        self.state = WorkerState { session: false, pending: Pending::Idle };
                        Step::Reply(Ok(DevCommandResult::EmptyResult))
                    }
                },
            },
            Pending::Opening => match outcome {
                Ok(_) => {
                    self.state = WorkerState { session: false, pending: Pending::Claiming };
                    Step::Call(DeviceCall::Claim)
                },
                Err(reason) => {
                    self.state = WorkerState { session: false, pending: Pending::Idle };
                    Step::Reply(Err(DevError::ConnectFailed { stage: ConnectStage::Open, reason }))
                },
            },
            Pending::Claiming => match outcome {
                Ok(_) => {
                    self.state = WorkerState { session: true, pending: Pending::Idle };
                    Step::Reply(Ok(DevCommandResult::EmptyResult))
                },
                Err(reason) => {
                    self.state = WorkerState { session: false, pending: Pending::Idle };
                    Step::Reply(Err(DevError::ConnectFailed { stage: ConnectStage::Claim, reason }))
                },
            },
            Pending::Operating(cmd) => {
                self.state.pending = Pending::Idle;
                Step::Reply(answer(cmd, outcome))
            },
            Pending::Idle => Step::Reply(Err(DevError::NotConnected)),
        }
    }
}

/// The reply to a command that used the session.
pub fn answer(cmd: DevCommand, outcome: Outcome) -> (r: Reply)
    ensures
        r == answer_spec(cmd, outcome),
{
    match outcome {
        Err(reason) => Err(DevError::OperationFailed { command: cmd, reason }),
        Ok(payload) => match cmd {
            DevCommand::Capture(sel, n) => match payload {
                DevCommandResult::CaptureResult(bytes) => {
                    let fits = match sel.count().checked_mul(n) {
                        Some(expected) => bytes.len() == expected,
                        None => false,
                    };
                    if fits {
                        Ok(DevCommandResult::CaptureResult(bytes))
                    } else {
                        let length = bytes.len();
                        Err(DevError::UnexpectedPayload { command: cmd, length })
                    }
                },
                DevCommandResult::EmptyResult => Err(
                    DevError::UnexpectedPayload { command: cmd, length: 0 },
                ),
            },
            _ => Ok(DevCommandResult::EmptyResult),
        },
    }
}

/// Feeds driver outcomes to the worker while it asks for calls. Returns the
/// final state, the last step, and every driver call asked for on the way
/// (a call still unanswered when the outcomes run out included).
pub open spec fn drive(s: WorkerState, step: Step, outs: Seq<Outcome>) -> (
    WorkerState,
    Step,
    Seq<DeviceCall>,
)
    decreases outs.len(),
{
    match step {
        Step::Call(call) => if outs.len() == 0 {
            (s, step, seq![call])
        } else {
            let next = resume_spec(s, outs[0]);
            let rest = drive(next.0, next.1, outs.drop_first());
            (rest.0, rest.1, seq![call] + rest.2)
        },
        _ => (s, step, Seq::empty()),
    }
}

/// One command taken up by an idle worker and driven with these outcomes.
pub open spec fn run(s: WorkerState, cmd: DevCommand, outs: Seq<Outcome>) -> (
    WorkerState,
    Step,
    Seq<DeviceCall>,
) {
    let first = begin_spec(s, cmd);
    drive(first.0, first.1, outs)
}

/// Commands submitted one at a time, the i-th driven with `outs[i]`: the
/// final state and the last step of each command, in submission order.
pub open spec fn serve(s: WorkerState, cmds: Seq<DevCommand>, outs: Seq<Seq<Outcome>>) -> (
    WorkerState,
    Seq<Step>,
)
    decreases cmds.len(),
{
    if cmds.len() == 0 {
        (s, Seq::empty())
    } else {
        let r = run(s, cmds[0], outs[0]);
        let rest = serve(r.0, cmds.drop_first(), outs.drop_first());
        (rest.0, seq![r.1] + rest.1)
    }
}

/// Without a session, every command but `Connect` and `Disconnect` is
/// answered `NotConnected`, the state is unchanged, and no driver call is
/// made, whatever the driver would have answered.
pub proof fn lemma_not_connected_without_session(
    s: WorkerState,
    cmd: DevCommand,
    outs: Seq<Outcome>,
)
    requires
        !s.session,
        s.pending is Idle,
        !cmd.spec_is_lifecycle(),
    ensures
        run(s, cmd, outs) == (s, Step::Reply(Err(DevError::NotConnected)), Seq::<DeviceCall>::empty()),
{
}

/// `Disconnect` is idempotent: once one has been answered, it was answered
/// with success and left no session; a second one is then answered with
/// success at once, without a driver call, and still leaves no session.
pub proof fn lemma_disconnect_idempotent(s: WorkerState, outs1: Seq<Outcome>, outs2: Seq<Outcome>)
    requires
        s.pending is Idle,
        run(s, DevCommand::Disconnect, outs1).1 is Reply,
    ensures
        run(s, DevCommand::Disconnect, outs1).1 == Step::Reply(done()),
        run(s, DevCommand::Disconnect, outs1).0 == idle_with(false),
        run(run(s, DevCommand::Disconnect, outs1).0, DevCommand::Disconnect, outs2) == (
            idle_with(false),
            Step::Reply(done()),
            Seq::<DeviceCall>::empty(),
        ),
{
    if s.session {
        let first = begin_spec(s, DevCommand::Disconnect);
        assert(outs1.len() > 0);
        let next = resume_spec(first.0, outs1[0]);
        assert(drive(next.0, next.1, outs1.drop_first()) == (next.0, next.1, Seq::<DeviceCall>::empty()));
    }
}

/// Replies come back in submission order, one per command: serving one more
/// command appends exactly its own last step to the steps of the earlier
/// ones, which stay as they were.
pub proof fn lemma_replies_in_submission_order(
    s: WorkerState,
    cmds: Seq<DevCommand>,
    outs: Seq<Seq<Outcome>>,
    cmd: DevCommand,
    out: Seq<Outcome>,
)
    requires
        cmds.len() == outs.len(),
    ensures
        serve(s, cmds, outs).1.len() == cmds.len(),
        serve(s, cmds.push(cmd), outs.push(out)) == (
            run(serve(s, cmds, outs).0, cmd, out).0,
            serve(s, cmds, outs).1.push(run(serve(s, cmds, outs).0, cmd, out).1),
        ),
    decreases cmds.len(),
{
    let cmds2 = cmds.push(cmd);
    let outs2 = outs.push(out);
    if cmds.len() == 0 {
        assert(cmds2[0] == cmd);
        assert(outs2[0] == out);
        assert(cmds2.drop_first() =~= Seq::<DevCommand>::empty());
        assert(outs2.drop_first() =~= Seq::<Seq<Outcome>>::empty());
        let r = run(s, cmd, out);
        assert(serve(r.0, cmds2.drop_first(), outs2.drop_first()) == (r.0, Seq::<Step>::empty()));
        assert(seq![r.1] + Seq::<Step>::empty() =~= Seq::<Step>::empty().push(r.1));
    } else {
        let r = run(s, cmds[0], outs[0]);
        lemma_replies_in_submission_order(r.0, cmds.drop_first(), outs.drop_first(), cmd, out);
        assert(cmds2.drop_first() =~= cmds.drop_first().push(cmd));
        assert(outs2.drop_first() =~= outs.drop_first().push(out));
        assert(cmds2[0] == cmds[0]);
        assert(outs2[0] == outs[0]);
        let rest = serve(r.0, cmds.drop_first(), outs.drop_first());
        let last = run(rest.0, cmd, out);
        assert(serve(s, cmds, outs) == (rest.0, seq![r.1] + rest.1));
        assert(serve(r.0, cmds2.drop_first(), outs2.drop_first()) == (last.0, rest.1.push(last.1)));
        assert(seq![r.1] + rest.1.push(last.1) =~= (seq![r.1] + rest.1).push(last.1));
    }
}

/// `Connect` on a held session asks first to release it. If the release
/// fails the worker aborts, having asked for nothing else; if it succeeds
/// the next call asked for is the opening of the device.
pub proof fn lemma_reconnect_releases_first(s: WorkerState, outs: Seq<Outcome>)
    requires
        s.session,
        s.pending is Idle,
    ensures
        run(s, DevCommand::Connect, outs).2[0] == DeviceCall::Release,
        outs.len() > 0 && outs[0] is Err ==> run(s, DevCommand::Connect, outs).1 is Abort
            && run(s, DevCommand::Connect, outs).2 == seq![DeviceCall::Release],
        outs.len() > 0 && outs[0] is Ok ==> run(s, DevCommand::Connect, outs).2.len() >= 2
            && run(s, DevCommand::Connect, outs).2[1] == DeviceCall::Open,
{
    if outs.len() > 0 {
        let first = begin_spec(s, DevCommand::Connect);
        let next = resume_spec(first.0, outs[0]);
        let rest = drive(next.0, next.1, outs.drop_first());
        if outs[0] is Err {
            assert(rest.2 =~= Seq::<DeviceCall>::empty());
            assert(seq![DeviceCall::Release] + rest.2 =~= seq![DeviceCall::Release]);
        } else {
            assert(rest.2[0] == DeviceCall::Open);
        }
    }
}

/// A capture answered with success carries exactly (selected channels x
/// samples) bytes.
pub proof fn lemma_capture_payload_length(
    s: WorkerState,
    sel: crate::command::ChannelSelection,
    samples: usize,
    outs: Seq<Outcome>,
)
    requires
        s.pending is Idle,
    ensures
        run(s, DevCommand::Capture(sel, samples), outs).1 matches Step::Reply(
            Ok(DevCommandResult::CaptureResult(bytes)),
        ) ==> bytes.len() == sel.spec_count() * samples,
{
    let cmd = DevCommand::Capture(sel, samples);
    let first = begin_spec(s, cmd);
    if s.session && outs.len() > 0 {
        let next = resume_spec(first.0, outs[0]);
        assert(drive(next.0, next.1, outs.drop_first()).1 == next.1);
    }
}

} // verus!
