//! The request vocabulary between caller and worker, the device operations the
//! worker performs, and the replies it sends back.

use vstd::prelude::*;
use crate::params::{AwgType, Coupling, Probe, Real, RunningStatus, Scale, TimeScale, TriggerMode};

verus! {

/// Which of the instrument's two channels a capture reads.
#[derive(Clone, Copy, Debug, PartialEq, Eq, Structural)]
pub struct ChannelSelection {
    pub first: bool,
    pub second: bool,
}

pub open spec fn flag(b: bool) -> nat {
    if b { 1 } else { 0 }
}

impl ChannelSelection {
    pub open spec fn spec_count(self) -> nat {
        flag(self.first) + flag(self.second)
    }

    /// Number of selected channels.
    pub fn count(&self) -> (r: usize)
        ensures
            r == self.spec_count(),
    {
        let mut n: usize = 0;
        if self.first {
            n = n + 1;
        }
        if self.second {
            n = n + 1;
        }
        n
    }
}

/// One request to the instrument.
#[derive(Clone, Copy, Debug, PartialEq, Eq, Structural)]
pub enum DevCommand {
    Connect,
    Disconnect,
    ScopeRunning(RunningStatus),
    ChannelEnable(usize, bool),
    Coupling(usize, Coupling),
    Probe(usize, Probe),
    Scale(usize, Scale),
    Offset(usize, Real),
    BwLimit(usize, bool),
    TimeScale(TimeScale),
    TimeOffset(Real),
    TriggerSource(usize),
    TriggerMode(TriggerMode),
    TriggerLevel(Real),
    AwgRunningStatus(RunningStatus),
    AwgFrequency(Real),
    AwgAmplitude(Real),
    AwgType(AwgType),
    AwgOffset(Real),
    AwgDutySquare(Real),
    AwgDutyRamp(Real),
    AwgDutyTrap(Real, Real, Real),
    /// Read the given channels, this many samples each.
    Capture(ChannelSelection, usize),
}

impl DevCommand {
    /// `Connect` and `Disconnect` manage the session instead of using it.
    pub open spec fn spec_is_lifecycle(self) -> bool {
        self is Connect || self is Disconnect
    }
}

/// One call of the device driver.
#[derive(Clone, Copy, Debug, PartialEq, Eq, Structural)]
pub enum DeviceCall {
    Open,
    Claim,
    Release,
    Start,
    Stop,
    AwgStart,
    AwgStop,
    EnableChannel(usize),
    DisableChannel(usize),
    SetChannelCoupling(usize, Coupling),
    SetChannelProbe(usize, Probe),
    SetChannelScale(usize, Scale),
    SetChannelOffset(usize, Real),
    EnableBandwidthLimit(usize),
    DisableBandwidthLimit(usize),
    SetTimeScale(TimeScale),
    SetTimeOffset(Real),
    SetTriggerSource(usize),
    SetTriggerMode(TriggerMode),
    SetTriggerLevel(Real),
    SetAwgFrequency(Real),
    SetAwgAmplitude(Real),
    SetAwgType(AwgType),
    SetAwgOffset(Real),
    SetAwgDutySquare(Real),
    SetAwgDutyRamp(Real),
    SetAwgDutyTrap(Real, Real, Real),
    Capture(ChannelSelection, usize),
}

/// The single driver call that carries out a command which uses the session.
pub open spec fn operation_of(cmd: DevCommand) -> DeviceCall
    recommends
        !cmd.spec_is_lifecycle(),
{
    match cmd {
        DevCommand::ScopeRunning(RunningStatus::Start) => DeviceCall::Start,
        DevCommand::ScopeRunning(RunningStatus::Stop) => DeviceCall::Stop,
        DevCommand::ChannelEnable(c, true) => DeviceCall::EnableChannel(c),
        DevCommand::ChannelEnable(c, false) => DeviceCall::DisableChannel(c),
        DevCommand::Coupling(c, v) => DeviceCall::SetChannelCoupling(c, v),
        DevCommand::Probe(c, v) => DeviceCall::SetChannelProbe(c, v),
        DevCommand::Scale(c, v) => DeviceCall::SetChannelScale(c, v),
        DevCommand::Offset(c, v) => DeviceCall::SetChannelOffset(c, v),
        DevCommand::BwLimit(c, true) => DeviceCall::EnableBandwidthLimit(c),
        DevCommand::BwLimit(c, false) => DeviceCall::DisableBandwidthLimit(c),
        DevCommand::TimeScale(v) => DeviceCall::SetTimeScale(v),
        DevCommand::TimeOffset(v) => DeviceCall::SetTimeOffset(v),
        DevCommand::TriggerSource(c) => DeviceCall::SetTriggerSource(c),
        DevCommand::TriggerMode(v) => DeviceCall::SetTriggerMode(v),
        DevCommand::TriggerLevel(v) => DeviceCall::SetTriggerLevel(v),
        DevCommand::AwgRunningStatus(RunningStatus::Start) => DeviceCall::AwgStart,
        DevCommand::AwgRunningStatus(RunningStatus::Stop) => DeviceCall::AwgStop,
        DevCommand::AwgFrequency(v) => DeviceCall::SetAwgFrequency(v),
        DevCommand::AwgAmplitude(v) => DeviceCall::SetAwgAmplitude(v),
        DevCommand::AwgType(v) => DeviceCall::SetAwgType(v),
        DevCommand::AwgOffset(v) => DeviceCall::SetAwgOffset(v),
        DevCommand::AwgDutySquare(v) => DeviceCall::SetAwgDutySquare(v),
        DevCommand::AwgDutyRamp(v) => DeviceCall::SetAwgDutyRamp(v),
        DevCommand::AwgDutyTrap(h, l, r) => DeviceCall::SetAwgDutyTrap(h, l, r),
        DevCommand::Capture(s, n) => DeviceCall::Capture(s, n),
        // lifecycle commands never reach the driver through this mapping
        DevCommand::Connect => DeviceCall::Open,
        DevCommand::Disconnect => DeviceCall::Release,
    }
}

impl DeviceCall {
    /// The driver call for a command that uses the session.
    pub fn for_command(cmd: DevCommand) -> (r: DeviceCall)
        requires
            !cmd.spec_is_lifecycle(),
        ensures
            r == operation_of(cmd),
    {
        match cmd {
            DevCommand::ScopeRunning(RunningStatus::Start) => DeviceCall::Start,
            DevCommand::ScopeRunning(RunningStatus::Stop) => DeviceCall::Stop,
            DevCommand::ChannelEnable(c, true) => DeviceCall::EnableChannel(c),
            DevCommand::ChannelEnable(c, false) => DeviceCall::DisableChannel(c),
            DevCommand::Coupling(c, v) => DeviceCall::SetChannelCoupling(c, v),
            DevCommand::Probe(c, v) => DeviceCall::SetChannelProbe(c, v),
            DevCommand::Scale(c, v) => DeviceCall::SetChannelScale(c, v),
            DevCommand::Offset(c, v) => DeviceCall::SetChannelOffset(c, v),
            DevCommand::BwLimit(c, true) => DeviceCall::EnableBandwidthLimit(c),
            DevCommand::BwLimit(c, false) => DeviceCall::DisableBandwidthLimit(c),
            DevCommand::TimeScale(v) => DeviceCall::SetTimeScale(v),
            DevCommand::TimeOffset(v) => DeviceCall::SetTimeOffset(v),
            DevCommand::TriggerSource(c) => DeviceCall::SetTriggerSource(c),
            DevCommand::TriggerMode(v) => DeviceCall::SetTriggerMode(v),
            DevCommand::TriggerLevel(v) => DeviceCall::SetTriggerLevel(v),
            DevCommand::AwgRunningStatus(RunningStatus::Start) => DeviceCall::AwgStart,
            DevCommand::AwgRunningStatus(RunningStatus::Stop) => DeviceCall::AwgStop,
            DevCommand::AwgFrequency(v) => DeviceCall::SetAwgFrequency(v),
            DevCommand::AwgAmplitude(v) => DeviceCall::SetAwgAmplitude(v),
            DevCommand::AwgType(v) => DeviceCall::SetAwgType(v),
            DevCommand::AwgOffset(v) => DeviceCall::SetAwgOffset(v),
            DevCommand::AwgDutySquare(v) => DeviceCall::SetAwgDutySquare(v),
            DevCommand::AwgDutyRamp(v) => DeviceCall::SetAwgDutyRamp(v),
            DevCommand::AwgDutyTrap(h, l, r) => DeviceCall::SetAwgDutyTrap(h, l, r),
            DevCommand::Capture(s, n) => DeviceCall::Capture(s, n),
            DevCommand::Connect => DeviceCall::Open,
            DevCommand::Disconnect => DeviceCall::Release,
        }
    }
}

/// What a successful command hands back.
#[derive(Clone, Debug, PartialEq, Eq)]
pub enum DevCommandResult {
    EmptyResult,
    CaptureResult(Vec<u8>),
}

/// The step of connecting that failed.
#[derive(Clone, Copy, Debug, PartialEq, Eq, Structural)]
pub enum ConnectStage {
    Open,
    Claim,
}

/// Why a command failed; the caller shows it and stays interactive.
#[derive(Clone, Debug, PartialEq, Eq)]
pub enum DevError {
    /// No session is held; the device was not touched.
    NotConnected,
    /// Opening or claiming the device failed; no session is held.
    ConnectFailed { stage: ConnectStage, reason: String },
    /// The driver call for `command` failed with the driver's diagnostic.
    OperationFailed { command: DevCommand, reason: String },
    /// The driver answered a capture with a payload of `length` bytes, which
    /// is not the number of selected channels times the samples asked for.
    UnexpectedPayload { command: DevCommand, length: usize },
}

impl DevError {
    /// An identical copy.
    pub fn duplicate(&self) -> (r: DevError)
        ensures
            r == *self,
    {
        match self {
            DevError::NotConnected => DevError::NotConnected,
            DevError::ConnectFailed { stage, reason } => DevError::ConnectFailed {
                stage: *stage,
                reason: reason.clone(),
            },
            DevError::OperationFailed { command, reason } => DevError::OperationFailed {
                command: *command,
                reason: reason.clone(),
            },
            DevError::UnexpectedPayload { command, length } => DevError::UnexpectedPayload {
                command: *command,
                length: *length,
            },
        }
    }
}

/// Two errors say the same: same variant, same fields, same text.
pub open spec fn same_error(a: DevError, b: DevError) -> bool {
    match (a, b) {
        (DevError::NotConnected, DevError::NotConnected) => true,
        (
            DevError::ConnectFailed { stage: s1, reason: r1 },
            DevError::ConnectFailed { stage: s2, reason: r2 },
        ) => s1 == s2 && r1@ == r2@,
        (
            DevError::OperationFailed { command: c1, reason: r1 },
            DevError::OperationFailed { command: c2, reason: r2 },
        ) => c1 == c2 && r1@ == r2@,
        (
            DevError::UnexpectedPayload { command: c1, length: l1 },
            DevError::UnexpectedPayload { command: c2, length: l2 },
        ) => c1 == c2 && l1 == l2,
        _ => false,
    }
}

impl DevError {
    /// Whether `self` and `other` say the same.
    pub fn same_as(&self, other: &DevError) -> (r: bool)
        ensures
            r == same_error(*self, *other),
    {
        match (self, other) {
            (DevError::NotConnected, DevError::NotConnected) => true,
            (
                DevError::ConnectFailed { stage: s1, reason: r1 },
                DevError::ConnectFailed { stage: s2, reason: r2 },
            ) => *s1 == *s2 && *r1 == *r2,
            (
                DevError::OperationFailed { command: c1, reason: r1 },
                DevError::OperationFailed { command: c2, reason: r2 },
            ) => *c1 == *c2 && *r1 == *r2,
            (
                DevError::UnexpectedPayload { command: c1, length: l1 },
                DevError::UnexpectedPayload { command: c2, length: l2 },
            ) => *c1 == *c2 && *l1 == *l2,
            _ => false,
        }
    }
}

/// The single answer to one command.
pub type Reply = Result<DevCommandResult, DevError>;

/// What one driver call returned: a payload, or the driver's diagnostic.
pub type Outcome = Result<DevCommandResult, String>;

} // verus!
