//! The caller's side of the bridge: the connection state, the configuration
//! snapshot, the message log, and the bring-up procedure.
//!
//! Every operation of the caller sends commands one at a time and waits for
//! each reply before deciding what comes next. `HantekState` makes those
//! decisions: an operation returns the first command to send, and each reply
//! handed to `resume` yields the next command or the operation's result. The
//! host only carries commands to the worker and replies back.

use vstd::prelude::*;
use crate::command::{ChannelSelection, DevCommand, DevCommandResult, DevError, Reply, same_error};
use crate::params::{
    AwgType, Coupling, ONE_BITS, Probe, Real, RunningStatus, Scale, TimeScale, TrapDuty, TriggerMode,
};
use crate::snapshot::{Param, Snapshot, unset, value_or, zero_duty, zero_real};

verus! {

/// The connection as the caller sees it.
#[derive(Clone, Copy, Debug, PartialEq, Eq, Structural)]
pub enum Link {
    Disconnected,
    /// Connected; the bring-up procedure is running.
    Initializing,
    /// Connected and brought to the default configuration.
    Ready,
    /// Connected, but a bring-up step failed: the steps before it were
    /// applied, those after it were never attempted.
    PartiallyConfigured,
}

/// The reply the caller waits for.
#[derive(Clone, Copy, Debug, PartialEq, Eq, Structural)]
pub enum Awaiting {
    Nothing,
    Connect,
    /// The reply to the bring-up step with this index.
    BringUp(usize),
    Disconnect,
    /// The reply to a command that sends one recorded value.
    Apply(DevCommand),
    /// The reply to a capture of these channels and samples.
    Capture(ChannelSelection, usize),
}

/// One entry of the user-visible message log.
#[derive(Clone, Debug, PartialEq, Eq)]
pub enum Note {
    Connecting,
    /// The bring-up procedure completed.
    Connected,
    Disconnecting,
    /// About to send this command.
    Setting(DevCommand),
    /// The worker acknowledged this command.
    Applied(DevCommand),
    Failed(DevError),
}

/// Two log entries say the same.
pub open spec fn same_note(a: Note, b: Note) -> bool {
    match (a, b) {
        (Note::Connecting, Note::Connecting) => true,
        (Note::Connected, Note::Connected) => true,
        (Note::Disconnecting, Note::Disconnecting) => true,
        (Note::Setting(x), Note::Setting(y)) => x == y,
        (Note::Applied(x), Note::Applied(y)) => x == y,
        (Note::Failed(e), Note::Failed(f)) => same_error(e, f),
        _ => false,
    }
}

/// Two logs say the same, entry by entry.
pub open spec fn same_log(a: Seq<Note>, b: Seq<Note>) -> bool {
    a.len() == b.len() && forall|i: int| 0 <= i < a.len() ==> same_note(#[trigger] a[i], b[i])
}

impl Note {
    /// Whether `self` and `other` say the same.
    pub fn same_as(&self, other: &Note) -> (r: bool)
        ensures
            r == same_note(*self, *other),
    {
        match (self, other) {
            (Note::Connecting, Note::Connecting) => true,
            (Note::Connected, Note::Connected) => true,
            (Note::Disconnecting, Note::Disconnecting) => true,
            (Note::Setting(x), Note::Setting(y)) => *x == *y,
            (Note::Applied(x), Note::Applied(y)) => *x == *y,
            (Note::Failed(e), Note::Failed(f)) => e.same_as(f),
            _ => false,
        }
    }
}

fn same_messages(a: &Vec<Note>, b: &Vec<Note>) -> (r: bool)
    ensures
        r == same_log(a@, b@),
{
    if a.len() != b.len() {
        return false;
    }
    let mut i: usize = 0;
    while i < a.len()
        invariant
            i <= a@.len(),
            a@.len() == b@.len(),
            forall|k: int| 0 <= k < i ==> same_note(#[trigger] a@[k], b@[k]),
        decreases a@.len() - i,
    {
        if !a[i].same_as(&b[i]) {
            return false;
        }
        i = i + 1;
    }
    true
}

/// What the caller does next.
#[derive(Debug)]
pub enum Exchange {
    /// Send this command and hand its reply to `resume`.
    Send(DevCommand),
    /// The operation is over, with this result.
    Done(Result<(), DevError>),
}

/// The caller's state in mathematical form.
pub struct CallerState {
    pub log: Seq<Note>,
    pub link: Link,
    pub awaiting: Awaiting,
    pub cfg: Snapshot,
    /// The payload of the last acknowledged capture.
    pub capture: Option<Seq<u8>>,
}

/// Number of commands of the bring-up procedure.
pub const BRING_UP_STEPS: usize = 26;

/// The bring-up procedure's command with index `i`.
pub open spec fn bring_up_step(i: int) -> DevCommand {
    if i == 0 {
        DevCommand::ScopeRunning(RunningStatus::Start)
    } else if i == 1 {
        DevCommand::Coupling(1, Coupling::Dc)
    } else if i == 2 {
        DevCommand::Coupling(2, Coupling::Dc)
    } else if i == 3 {
        DevCommand::Probe(1, Probe::X1)
    } else if i == 4 {
        DevCommand::Probe(2, Probe::X1)
    } else if i == 5 {
        DevCommand::Scale(1, Scale::V10)
    } else if i == 6 {
        DevCommand::Scale(2, Scale::V10)
    } else if i == 7 {
        DevCommand::Offset(1, zero_real())
    } else if i == 8 {
        DevCommand::Offset(2, zero_real())
    } else if i == 9 {
        DevCommand::ChannelEnable(1, true)
    } else if i == 10 {
        DevCommand::ChannelEnable(2, false)
    } else if i == 11 {
        DevCommand::BwLimit(1, false)
    } else if i == 12 {
        DevCommand::BwLimit(2, false)
    } else if i == 13 {
        DevCommand::TimeScale(TimeScale::Ms1)
    } else if i == 14 {
        DevCommand::TimeOffset(zero_real())
    } else if i == 15 {
        DevCommand::TriggerSource(1)
    } else if i == 16 {
        DevCommand::TriggerMode(TriggerMode::Auto)
    } else if i == 17 {
        DevCommand::TriggerLevel(zero_real())
    } else if i == 18 {
        DevCommand::AwgRunningStatus(RunningStatus::Stop)
    } else if i == 19 {
        DevCommand::AwgFrequency(Real { bits: ONE_BITS })
    } else if i == 20 {
        DevCommand::AwgAmplitude(Real { bits: ONE_BITS })
    } else if i == 21 {
        DevCommand::AwgType(AwgType::Square)
    } else if i == 22 {
        DevCommand::AwgOffset(zero_real())
    } else if i == 23 {
        DevCommand::AwgDutySquare(zero_real())
    } else if i == 24 {
        DevCommand::AwgDutyRamp(zero_real())
    } else {
        DevCommand::AwgDutyTrap(zero_real(), zero_real(), zero_real())
    }
}

/// The bring-up procedure, in order.
pub open spec fn bring_up_script() -> Seq<DevCommand> {
    Seq::new(BRING_UP_STEPS as nat, |i: int| bring_up_step(i))
}

/// The bring-up procedure's command with index `i`.
pub fn bring_up_command(i: usize) -> (r: DevCommand)
    requires
        i < BRING_UP_STEPS,
    ensures
        r == bring_up_step(i as int),
{
    if i == 0 {
        DevCommand::ScopeRunning(RunningStatus::Start)
    } else if i == 1 {
        DevCommand::Coupling(1, Coupling::Dc)
    } else if i == 2 {
        DevCommand::Coupling(2, Coupling::Dc)
    } else if i == 3 {
        DevCommand::Probe(1, Probe::X1)
    } else if i == 4 {
        DevCommand::Probe(2, Probe::X1)
    } else if i == 5 {
        DevCommand::Scale(1, Scale::V10)
    } else if i == 6 {
        DevCommand::Scale(2, Scale::V10)
    } else if i == 7 {
        DevCommand::Offset(1, Real::zero())
    } else if i == 8 {
        DevCommand::Offset(2, Real::zero())
    } else if i == 9 {
        DevCommand::ChannelEnable(1, true)
    } else if i == 10 {
        DevCommand::ChannelEnable(2, false)
    } else if i == 11 {
        DevCommand::BwLimit(1, false)
    } else if i == 12 {
        DevCommand::BwLimit(2, false)
    } else if i == 13 {
        DevCommand::TimeScale(TimeScale::Ms1)
    } else if i == 14 {
        DevCommand::TimeOffset(Real::zero())
    } else if i == 15 {
        DevCommand::TriggerSource(1)
    } else if i == 16 {
        DevCommand::TriggerMode(TriggerMode::Auto)
    } else if i == 17 {
        DevCommand::TriggerLevel(Real::zero())
    } else if i == 18 {
        DevCommand::AwgRunningStatus(RunningStatus::Stop)
    } else if i == 19 {
        DevCommand::AwgFrequency(Real::one())
    } else if i == 20 {
        DevCommand::AwgAmplitude(Real::one())
    } else if i == 21 {
        DevCommand::AwgType(AwgType::Square)
    } else if i == 22 {
        DevCommand::AwgOffset(Real::zero())
    } else if i == 23 {
        DevCommand::AwgDutySquare(Real::zero())
    } else if i == 24 {
        DevCommand::AwgDutyRamp(Real::zero())
    } else {
        DevCommand::AwgDutyTrap(Real::zero(), Real::zero(), Real::zero())
    }
}

impl CallerState {
    /// A pending bring-up step is one of the procedure's.
    pub open spec fn wf(self) -> bool {
        self.awaiting matches Awaiting::BringUp(i) ==> i < BRING_UP_STEPS
    }
}

pub open spec fn initial() -> CallerState {
    CallerState {
        log: Seq::empty(),
        link: Link::Disconnected,
        awaiting: Awaiting::Nothing,
        cfg: unset(),
        capture: None,
    }
}

pub open spec fn connect_spec(c: CallerState) -> (CallerState, Exchange) {
    (
        CallerState { log: c.log.push(Note::Connecting), awaiting: Awaiting::Connect, ..c },
        Exchange::Send(DevCommand::Connect),
    )
}

pub open spec fn disconnect_spec(c: CallerState) -> (CallerState, Exchange) {
    (
        CallerState { log: c.log.push(Note::Disconnecting), awaiting: Awaiting::Disconnect, ..c },
        Exchange::Send(DevCommand::Disconnect),
    )
}

pub open spec fn apply_spec(c: CallerState, p: Param) -> (CallerState, Exchange) {
    if c.link is Disconnected {
        (
            CallerState { log: c.log.push(Note::Failed(DevError::NotConnected)), ..c },
            Exchange::Done(Err(DevError::NotConnected)),
        )
    } else {
        let cmd = c.cfg.spec_command_for(p)->0;
        (
            CallerState { log: c.log.push(Note::Setting(cmd)), awaiting: Awaiting::Apply(cmd), ..c },
            Exchange::Send(cmd),
        )
    }
}

/// Bring-up step `i`: record its value in the snapshot, then send it.
pub open spec fn start_step(c: CallerState, i: int) -> (CallerState, Exchange) {
    let cmd = bring_up_step(i);
    (
        CallerState {
            log: c.log.push(Note::Setting(cmd)),
            link: Link::Initializing,
            awaiting: Awaiting::BringUp(i as usize),
            cfg: c.cfg.recorded(cmd),
            capture: c.capture,
        },
        Exchange::Send(cmd),
    )
}

/// A failed reply ends the operation: it is logged and returned.
pub open spec fn failed(c: CallerState, link: Link, e: DevError) -> (CallerState, Exchange) {
    (
        CallerState { log: c.log.push(Note::Failed(e)), link, awaiting: Awaiting::Nothing, ..c },
        Exchange::Done(Err(e)),
    )
}

pub open spec fn resume_spec(c: CallerState, reply: Reply) -> (CallerState, Exchange) {
    match c.awaiting {
        Awaiting::Connect => match reply {
            Ok(_) => start_step(c, 0),
            Err(e) => failed(c, Link::Disconnected, e),
        },
        Awaiting::BringUp(i) => match reply {
            Ok(_) => {
                let c1 = CallerState { log: c.log.push(Note::Applied(bring_up_step(i as int))), ..c };
                if i + 1 < BRING_UP_STEPS {
                    start_step(c1, i + 1)
                } else {
                    (
                        CallerState {
                            log: c1.log.push(Note::Connected),
                            link: Link::Ready,
                            awaiting: Awaiting::Nothing,
                            ..c1
                        },
                        Exchange::Done(Ok(())),
                    )
                }
            },
            Err(e) => failed(c, Link::PartiallyConfigured, e),
        },
        Awaiting::Disconnect => match reply {
            Ok(_) => (
                CallerState {
                    log: Seq::empty(),
                    link: Link::Disconnected,
                    awaiting: Awaiting::Nothing,
                    cfg: unset(),
                    capture: None,
                },
                Exchange::Done(Ok(())),
            ),
            Err(e) => failed(c, c.link, e),
        },
        Awaiting::Apply(cmd) => match reply {
            Ok(_) => (
                CallerState { log: c.log.push(Note::Applied(cmd)), awaiting: Awaiting::Nothing, ..c },
                Exchange::Done(Ok(())),
            ),
            Err(e) => failed(c, c.link, e),
        },
        Awaiting::Capture(sel, n) => match reply {
            Ok(payload) => (
                CallerState {
                    log: c.log.push(Note::Applied(DevCommand::Capture(sel, n))),
                    awaiting: Awaiting::Nothing,
                    capture: match payload {
                        DevCommandResult::CaptureResult(bytes) => Some(bytes@),
                        DevCommandResult::EmptyResult => c.capture,
                    },
                    ..c
                },
                Exchange::Done(Ok(())),
            ),
            Err(e) => failed(c, c.link, e),
        },
        Awaiting::Nothing => (c, Exchange::Done(Ok(()))),
    }
}

pub open spec fn capture_spec(c: CallerState, sel: ChannelSelection, samples: usize) -> (
    CallerState,
    Exchange,
) {
    if c.link is Disconnected {
        (
            CallerState { log: c.log.push(Note::Failed(DevError::NotConnected)), ..c },
            Exchange::Done(Err(DevError::NotConnected)),
        )
    } else {
        let cmd = DevCommand::Capture(sel, samples);
        (
            CallerState {
                log: c.log.push(Note::Setting(cmd)),
                awaiting: Awaiting::Capture(sel, samples),
                ..c
            },
            Exchange::Send(cmd),
        )
    }
}

/// The caller: connection state, configuration snapshot and message log.
#[derive(Clone)]
pub struct HantekState {
    messages: Vec<Note>,
    link: Link,
    awaiting: Awaiting,
    cfg: Snapshot,
    capture: Option<Vec<u8>>,
}

pub open spec fn bytes_view(o: Option<Vec<u8>>) -> Option<Seq<u8>> {
    match o {
        Some(v) => Some(v@),
        None => None,
    }
}

fn same_capture(a: &Option<Vec<u8>>, b: &Option<Vec<u8>>) -> (r: bool)
    ensures
        r == (bytes_view(*a) == bytes_view(*b)),
{
    match (a, b) {
        (Some(x), Some(y)) => {
            if x.len() != y.len() {
                return false;
            }
            let mut i: usize = 0;
            while i < x.len()
                invariant
                    i <= x@.len(),
                    x@.len() == y@.len(),
                    bytes_view(*a) == Some(x@),
                    bytes_view(*b) == Some(y@),
                    forall|k: int| 0 <= k < i ==> x@[k] == y@[k],
                decreases x@.len() - i,
            {
                if x[i] != y[i] {
                    assert(x@[i as int] != y@[i as int]);
                    return false;
                }
                i = i + 1;
            }
            assert(x@ =~= y@);
            true
        },
        (None, None) => true,
        _ => false,
    }
}

impl View for HantekState {
    type V = CallerState;

    closed spec fn view(&self) -> CallerState {
        CallerState {
            log: self.messages@,
            link: self.link,
            awaiting: self.awaiting,
            cfg: self.cfg,
            capture: bytes_view(self.capture),
        }
    }
}

impl HantekState {
    /// Disconnected, with nothing known and nothing logged.
    pub fn new() -> (r: HantekState)
        ensures
            r@ == initial(),
            r@.wf(),
    {
        HantekState {
            messages: Vec::new(),
            link: Link::Disconnected,
            awaiting: Awaiting::Nothing,
            cfg: Snapshot::new(),
            capture: None,
        }
    }

    pub fn is_connected(&self) -> (r: bool)
        ensures
            r == !(self@.link is Disconnected),
    {
        match self.link {
            Link::Disconnected => false,
            _ => true,
        }
    }

    pub fn link(&self) -> (r: Link)
        ensures
            r == self@.link,
    {
        self.link
    }

    /// Whether an operation waits for a reply.
    pub fn is_waiting(&self) -> (r: bool)
        ensures
            r == !(self@.awaiting is Nothing),
    {
        match self.awaiting {
            Awaiting::Nothing => false,
            _ => true,
        }
    }

    pub fn config(&self) -> (r: Snapshot)
        ensures
            r == self@.cfg,
    {
        self.cfg
    }

    pub fn messages(&self) -> (r: &Vec<Note>)
        ensures
            r@ == self@.log,
    {
        &self.messages
    }

    /// Records a value chosen by the user, before it is sent.
    pub fn record(&mut self, cmd: DevCommand)
        requires
            old(self)@.wf(),
        ensures
            final(self)@.wf(),
            final(self)@.cfg == old(self)@.cfg.recorded(cmd),
            final(self)@.log == old(self)@.log,
            final(self)@.link == old(self)@.link,
            final(self)@.awaiting == old(self)@.awaiting,
    {
        let mut cfg = self.cfg;
        cfg.record(cmd);
        self.cfg = cfg;
    }

    /// Records a new high duty of the trapezoid chosen by the user,
    /// keeping the other two parameters.
    pub fn record_trap_high(&mut self, v: Real)
        requires
            old(self)@.wf(),
        ensures
            final(self)@.wf(),
            final(self)@ == (CallerState {
                cfg: (Snapshot {
                    awg_duty_trap: Some(
                        (TrapDuty { high: v, ..value_or(old(self)@.cfg.awg_duty_trap, zero_duty()) }),
                    ),
                    ..old(self)@.cfg
                }),
                ..old(self)@
            }),
    {
        let mut cfg = self.cfg;
        cfg.record_trap_high(v);
        self.cfg = cfg;
    }

    /// Records a new low duty of the trapezoid chosen by the user,
    /// keeping the other two parameters.
    pub fn record_trap_low(&mut self, v: Real)
        requires
            old(self)@.wf(),
        ensures
            final(self)@.wf(),
            final(self)@ == (CallerState {
                cfg: (Snapshot {
                    awg_duty_trap: Some(
                        (TrapDuty { low: v, ..value_or(old(self)@.cfg.awg_duty_trap, zero_duty()) }),
                    ),
                    ..old(self)@.cfg
                }),
                ..old(self)@
            }),
    {
        let mut cfg = self.cfg;
        cfg.record_trap_low(v);
        self.cfg = cfg;
    }

    /// Records a new rise duty of the trapezoid chosen by the user,
    /// keeping the other two parameters.
    pub fn record_trap_rise(&mut self, v: Real)
        requires
            old(self)@.wf(),
        ensures
            final(self)@.wf(),
            final(self)@ == (CallerState {
                cfg: (Snapshot {
                    awg_duty_trap: Some(
                        (TrapDuty { rise: v, ..value_or(old(self)@.cfg.awg_duty_trap, zero_duty()) }),
                    ),
                    ..old(self)@.cfg
                }),
                ..old(self)@
            }),
    {
        let mut cfg = self.cfg;
        cfg.record_trap_rise(v);
        self.cfg = cfg;
    }

    /// A control is disabled while disconnected, and while its value is
    /// unknown.
    pub fn is_disabled(&self, p: Param) -> (r: bool)
        ensures
            r == (self@.link is Disconnected || self@.cfg.spec_command_for(p) is None),
    {
        !self.is_connected() || self.cfg.command_for(p).is_none()
    }

    /// Compares what a display of the state shows: the log entry by entry,
    /// the connection, the pending reply, the snapshot and the capture.
    pub fn same(&self, other: &HantekState) -> (r: bool)
        ensures
            r == (same_log(self@.log, other@.log) && self@.link == other@.link
                && self@.awaiting == other@.awaiting && self@.cfg == other@.cfg
                && self@.capture == other@.capture),
            self@ == other@ ==> r,
    {
        same_messages(&self.messages, &other.messages) && self.link == other.link
            && self.awaiting == other.awaiting && self.cfg == other.cfg
            && same_capture(&self.capture, &other.capture)
    }

    /// Starts connecting: logs it and asks to send `Connect`. A successful
    /// reply starts the bring-up procedure.
    pub fn connect(&mut self) -> (r: Exchange)
        requires
            old(self)@.wf(),
            old(self)@.awaiting is Nothing,
        ensures
            final(self)@.wf(),
            (final(self)@, r) == connect_spec(old(self)@),
    {
        self.messages.push(Note::Connecting);
        self.awaiting = Awaiting::Connect;
        Exchange::Send(DevCommand::Connect)
    }

    /// Starts disconnecting: logs it and asks to send `Disconnect`. A
    /// successful reply clears the snapshot and the log.
    pub fn disconnect(&mut self) -> (r: Exchange)
        requires
            old(self)@.wf(),
            old(self)@.awaiting is Nothing,
        ensures
            final(self)@.wf(),
            (final(self)@, r) == disconnect_spec(old(self)@),
    {
        self.messages.push(Note::Disconnecting);
        self.awaiting = Awaiting::Disconnect;
        Exchange::Send(DevCommand::Disconnect)
    }

    /// Sends the recorded value of `p`; refused with `NotConnected` while
    /// disconnected.
    pub fn apply(&mut self, p: Param) -> (r: Exchange)
        requires
            old(self)@.wf(),
            old(self)@.awaiting is Nothing,
            old(self)@.link is Disconnected || old(self)@.cfg.spec_command_for(p) is Some,
        ensures
            final(self)@.wf(),
            (final(self)@, r) == apply_spec(old(self)@, p),
    {
        if !self.is_connected() {
            self.messages.push(Note::Failed(DevError::NotConnected));
            return Exchange::Done(Err(DevError::NotConnected));
        }
        let cmd = self.cfg.command_for(p).unwrap();
        self.messages.push(Note::Setting(cmd));
        self.awaiting = Awaiting::Apply(cmd);
        Exchange::Send(cmd)
    }

    fn start_step(&mut self, i: usize) -> (r: Exchange)
        requires
            old(self)@.wf(),
            i < BRING_UP_STEPS,
        ensures
            final(self)@.wf(),
            (final(self)@, r) == start_step(old(self)@, i as int),
    {
        let cmd = bring_up_command(i);
        let mut cfg = self.cfg;
        cfg.record(cmd);
        self.cfg = cfg;
        self.messages.push(Note::Setting(cmd));
        self.link = Link::Initializing;
        self.awaiting = Awaiting::BringUp(i);
        Exchange::Send(cmd)
    }

    fn fail(&mut self, link: Link, e: DevError) -> (r: Exchange)
        requires
            old(self)@.wf(),
        ensures
            final(self)@.wf(),
            (final(self)@, r) == failed(old(self)@, link, e),
    {
        self.messages.push(Note::Failed(e.duplicate()));
        self.link = link;
        self.awaiting = Awaiting::Nothing;
        Exchange::Done(Err(e))
    }

    /// Takes the reply to the command last sent and decides what follows.
    /// During bring-up each acknowledged step is logged and the next one is
    /// recorded and sent; the first failure ends the procedure, leaving the
    /// steps before it applied and the connection partially configured.
    pub fn resume(&mut self, reply: Reply) -> (r: Exchange)
        requires
            old(self)@.wf(),
            !(old(self)@.awaiting is Nothing),
        ensures
            final(self)@.wf(),
            (final(self)@, r) == resume_spec(old(self)@, reply),
    {
        match self.awaiting {
            Awaiting::Connect => match reply {
                Ok(_) => self.start_step(0),
                Err(e) => self.fail(Link::Disconnected, e),
            },
            Awaiting::BringUp(i) => match reply {
                Ok(_) => {
                    let cmd = bring_up_command(i);
                    self.messages.push(Note::Applied(cmd));
                    if i + 1 < BRING_UP_STEPS {
                        self.start_step(i + 1)
                    } else {
                        self.messages.push(Note::Connected);
                        self.link = Link::Ready;
                        self.awaiting = Awaiting::Nothing;
                        Exchange::Done(Ok(()))
                    }
                },
                Err(e) => self.fail(Link::PartiallyConfigured, e),
            },
            Awaiting::Disconnect => match reply {
                Ok(_) => {
                    self.messages = Vec::new();
                    self.link = Link::Disconnected;
                    self.awaiting = Awaiting::Nothing;
                    self.cfg = Snapshot::new();
                    self.capture = None;
                    Exchange::Done(Ok(()))
                },
                Err(e) => {
                    let link = self.link;
                    self.fail(link, e)
                },
            },
            Awaiting::Apply(cmd) => match reply {
                Ok(_) => {
                    self.messages.push(Note::Applied(cmd));
                    self.awaiting = Awaiting::Nothing;
                    Exchange::Done(Ok(()))
                },
                Err(e) => {
                    let link = self.link;
                    self.fail(link, e)
                },
            },
            Awaiting::Capture(sel, n) => match reply {
                Ok(payload) => {
                    self.messages.push(Note::Applied(DevCommand::Capture(sel, n)));
                    self.awaiting = Awaiting::Nothing;
                    match payload {
                        DevCommandResult::CaptureResult(bytes) => {
                            self.capture = Some(bytes);
                        },
                        DevCommandResult::EmptyResult => {},
                    }
                    Exchange::Done(Ok(()))
                },
                Err(e) => {
                    let link = self.link;
                    self.fail(link, e)
                },
            },
            Awaiting::Nothing => Exchange::Done(Ok(())),
        }
    }

    /// Asks for a capture of the selected channels, this many samples each;
    /// refused with `NotConnected` while disconnected. The payload of an
    /// acknowledged capture is kept for the display.
    pub fn capture(&mut self, sel: ChannelSelection, samples: usize) -> (r: Exchange)
        requires
            old(self)@.wf(),
            old(self)@.awaiting is Nothing,
        ensures
            final(self)@.wf(),
            (final(self)@, r) == capture_spec(old(self)@, sel, samples),
    {
        if !self.is_connected() {
            self.messages.push(Note::Failed(DevError::NotConnected));
            return Exchange::Done(Err(DevError::NotConnected));
        }
        let cmd = DevCommand::Capture(sel, samples);
        self.messages.push(Note::Setting(cmd));
        self.awaiting = Awaiting::Capture(sel, samples);
        Exchange::Send(cmd)
    }

    /// The payload of the last acknowledged capture.
    pub fn capture_data(&self) -> (r: Option<&Vec<u8>>)
        ensures
            match r {
                Some(v) => self@.capture == Some(v@),
                None => self@.capture is None,
            },
    {
        match &self.capture {
            Some(v) => Some(v),
            None => None,
        }
    }
}

/// Feeds replies to the caller while it asks to send commands. Returns the
/// final state, the last exchange, and every command sent on the way.
pub open spec fn feed(c: CallerState, ex: Exchange, replies: Seq<Reply>) -> (
    CallerState,
    Exchange,
    Seq<DevCommand>,
)
    decreases replies.len(),
{
    match ex {
        Exchange::Send(cmd) => if replies.len() == 0 {
            (c, ex, seq![cmd])
        } else {
            let next = resume_spec(c, replies[0]);
            let rest = feed(next.0, next.1, replies.drop_first());
            (rest.0, rest.1, seq![cmd] + rest.2)
        },
        Exchange::Done(_) => (c, ex, Seq::empty()),
    }
}

/// The snapshot after recording each of `cmds` in turn.
pub open spec fn recorded_all(s: Snapshot, cmds: Seq<DevCommand>) -> Snapshot
    decreases cmds.len(),
{
    if cmds.len() == 0 {
        s
    } else {
        recorded_all(s, cmds.drop_last()).recorded(cmds.last())
    }
}

proof fn lemma_recorded_step(s: Snapshot, i: int)
    requires
        0 <= i < BRING_UP_STEPS,
    ensures
        recorded_all(s, bring_up_script().take(i + 1)) == recorded_all(
            s,
            bring_up_script().take(i),
        ).recorded(bring_up_step(i)),
{
    assert(bring_up_script().take(i + 1).drop_last() =~= bring_up_script().take(i));
}

/// From bring-up step `i` on, with step `f` the first whose reply fails.
proof fn lemma_bring_up_from(
    c: CallerState,
    i: int,
    base: Snapshot,
    f: int,
    e: DevError,
    replies: Seq<Reply>,
)
    requires
        0 <= i <= f < BRING_UP_STEPS,
        c.awaiting == Awaiting::BringUp(i as usize),
        c.cfg == recorded_all(base, bring_up_script().take(i + 1)),
        replies.len() == f - i + 1,
        forall|j: int| 0 <= j < f - i ==> (#[trigger] replies[j]) is Ok,
        replies[f - i] == Err::<DevCommandResult, DevError>(e),
    ensures
        ({
            let r = feed(c, Exchange::Send(bring_up_step(i)), replies);
            &&& r.2 == bring_up_script().subrange(i, f + 1)
            &&& r.0.cfg == recorded_all(base, bring_up_script().take(f + 1))
            &&& r.1 == Exchange::Done(Err(e))
            &&& r.0.link == Link::PartiallyConfigured
            &&& r.0.awaiting is Nothing
            &&& r.0.log.len() > 0
            &&& r.0.log.last() == Note::Failed(e)
        }),
    decreases f - i,
{
    let next = resume_spec(c, replies[0]);
    if i == f {
        assert(feed(next.0, next.1, replies.drop_first()).2 =~= Seq::<DevCommand>::empty());
        assert(bring_up_script().subrange(i, f + 1) =~= seq![bring_up_step(i)]);
    } else {
        assert(replies[0] is Ok);
        lemma_recorded_step(base, i + 1);
        assert(replies.drop_first().len() == f - (i + 1) + 1);
        assert forall|j: int| 0 <= j < f - (i + 1) implies (#[trigger] replies.drop_first()[j]) is Ok by {
            assert(replies.drop_first()[j] == replies[j + 1]);
        }
        lemma_bring_up_from(next.0, i + 1, base, f, e, replies.drop_first());
        assert(bring_up_script().subrange(i, f + 1) =~= seq![bring_up_step(i)]
            + bring_up_script().subrange(i + 1, f + 1));
    }
}

/// The bring-up procedure halts at its first failing step. When the connect
/// is acknowledged, the first `k - 1` steps succeed and step `k` fails with
/// `e`, then exactly the connect and the first `k` steps were sent, the
/// snapshot holds exactly those `k` values on top of what it held before,
/// the procedure's result is `e`, the last log entry is that failure, and
/// the connection is left partially configured.
pub proof fn lemma_bring_up_halts_at_first_failure(
    c: CallerState,
    k: int,
    e: DevError,
    replies: Seq<Reply>,
)
    requires
        c.awaiting is Nothing,
        1 <= k <= BRING_UP_STEPS,
        replies.len() == k + 1,
        replies[0] is Ok,
        forall|i: int| 1 <= i < k ==> (#[trigger] replies[i]) is Ok,
        replies[k] == Err::<DevCommandResult, DevError>(e),
    ensures
        ({
            let start = connect_spec(c);
            let r = feed(start.0, start.1, replies);
            &&& r.2 == seq![DevCommand::Connect] + bring_up_script().take(k)
            &&& r.0.cfg == recorded_all(c.cfg, bring_up_script().take(k))
            &&& r.1 == Exchange::Done(Err(e))
            &&& r.0.link == Link::PartiallyConfigured
            &&& r.0.awaiting is Nothing
            &&& r.0.log.len() > 0
            &&& r.0.log.last() == Note::Failed(e)
        }),
{
    let start = connect_spec(c);
    let next = resume_spec(start.0, replies[0]);
    lemma_recorded_step(c.cfg, 0);
    assert(bring_up_script().take(0) =~= Seq::<DevCommand>::empty());
    assert forall|j: int| 0 <= j < k - 1 implies (#[trigger] replies.drop_first()[j]) is Ok by {
        assert(replies.drop_first()[j] == replies[j + 1]);
    }
    lemma_bring_up_from(next.0, 0, c.cfg, k - 1, e, replies.drop_first());
    assert(bring_up_script().subrange(0, k) =~= bring_up_script().take(k));
}

/// From bring-up step `i` on, with every reply a success.
proof fn lemma_bring_up_succeeds_from(c: CallerState, i: int, base: Snapshot, replies: Seq<Reply>)
    requires
        0 <= i < BRING_UP_STEPS,
        c.awaiting == Awaiting::BringUp(i as usize),
        c.cfg == recorded_all(base, bring_up_script().take(i + 1)),
        replies.len() == BRING_UP_STEPS - i,
        forall|j: int| 0 <= j < replies.len() ==> (#[trigger] replies[j]) is Ok,
    ensures
        ({
            let r = feed(c, Exchange::Send(bring_up_step(i)), replies);
            &&& r.2 == bring_up_script().subrange(i, BRING_UP_STEPS as int)
            &&& r.0.cfg == recorded_all(base, bring_up_script())
            &&& r.1 == Exchange::Done(Ok(()))
            &&& r.0.link == Link::Ready
            &&& r.0.awaiting is Nothing
            &&& r.0.log.len() > 0
            &&& r.0.log.last() == Note::Connected
        }),
    decreases BRING_UP_STEPS - i,
{
    let next = resume_spec(c, replies[0]);
    assert(replies[0] is Ok);
    if i + 1 == BRING_UP_STEPS {
        assert(feed(next.0, next.1, replies.drop_first()).2 =~= Seq::<DevCommand>::empty());
        assert(bring_up_script().subrange(i, BRING_UP_STEPS as int) =~= seq![bring_up_step(i)]);
        assert(bring_up_script().take(i + 1) =~= bring_up_script());
    } else {
        lemma_recorded_step(base, i + 1);
        assert forall|j: int| 0 <= j < replies.drop_first().len() implies (
        #[trigger] replies.drop_first()[j]) is Ok by {
            assert(replies.drop_first()[j] == replies[j + 1]);
        }
        lemma_bring_up_succeeds_from(next.0, i + 1, base, replies.drop_first());
        assert(bring_up_script().subrange(i, BRING_UP_STEPS as int) =~= seq![bring_up_step(i)]
            + bring_up_script().subrange(i + 1, BRING_UP_STEPS as int));
    }
}

/// When the connect and every bring-up step are acknowledged, the connect
/// and the whole procedure were sent in order, the snapshot holds every
/// value of the procedure on top of what it held before, the result is
/// success, the last log entry says so, and the connection is ready.
pub proof fn lemma_bring_up_completes(c: CallerState, replies: Seq<Reply>)
    requires
        c.awaiting is Nothing,
        replies.len() == BRING_UP_STEPS + 1,
        forall|i: int| 0 <= i < replies.len() ==> (#[trigger] replies[i]) is Ok,
    ensures
        ({
            let start = connect_spec(c);
            let r = feed(start.0, start.1, replies);
            &&& r.2 == seq![DevCommand::Connect] + bring_up_script()
            &&& r.0.cfg == recorded_all(c.cfg, bring_up_script())
            &&& r.1 == Exchange::Done(Ok(()))
            &&& r.0.link == Link::Ready
            &&& r.0.awaiting is Nothing
            &&& r.0.log.len() > 0
            &&& r.0.log.last() == Note::Connected
        }),
{
    let start = connect_spec(c);
    assert(replies[0] is Ok);
    let next = resume_spec(start.0, replies[0]);
    lemma_recorded_step(c.cfg, 0);
    assert(bring_up_script().take(0) =~= Seq::<DevCommand>::empty());
    assert forall|j: int| 0 <= j < replies.drop_first().len() implies (
    #[trigger] replies.drop_first()[j]) is Ok by {
        assert(replies.drop_first()[j] == replies[j + 1]);
    }
    lemma_bring_up_succeeds_from(next.0, 0, c.cfg, replies.drop_first());
    assert(bring_up_script().subrange(0, BRING_UP_STEPS as int) =~= bring_up_script());
}

/// A failed reply ends the operation and leaves the snapshot as it was: the
/// failure is logged and returned, and the caller waits for nothing more.
pub proof fn lemma_failure_keeps_snapshot(c: CallerState, e: DevError)
    requires
        !(c.awaiting is Nothing),
    ensures
        resume_spec(c, Err(e)).0.cfg == c.cfg,
        resume_spec(c, Err(e)).0.log == c.log.push(Note::Failed(e)),
        resume_spec(c, Err(e)).0.awaiting is Nothing,
        resume_spec(c, Err(e)).1 == Exchange::Done(Err(e)),
{
}

} // verus!
