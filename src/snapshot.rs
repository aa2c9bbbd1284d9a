//! The caller's cached view of the instrument configuration.
//!
//! Each settable parameter holds `None` until a value is first recorded for
//! it; the front end enables a control only once its value is known. The
//! instrument's own state stays authoritative: the snapshot only mirrors the
//! values the caller has sent.

use vstd::prelude::*;
use crate::command::DevCommand;
use crate::params::{
    AwgType, Coupling, Probe, Real, RunningStatus, Scale, TimeScale, TrapDuty, TriggerMode,
};

verus! {

/// Number of input channels of the instrument.
pub const CHANNELS: usize = 2;

/// Channels are numbered from one.
pub open spec fn valid_channel(c: usize) -> bool {
    1 <= c <= CHANNELS
}

/// The per-channel part of the snapshot.
#[derive(Clone, Copy, Debug, PartialEq, Eq, Structural)]
pub struct ChannelSettings {
    pub enabled: Option<bool>,
    pub coupling: Option<Coupling>,
    pub probe: Option<Probe>,
    pub scale: Option<Scale>,
    pub offset: Option<Real>,
    pub bw_limit: Option<bool>,
}

pub open spec fn unset_channel() -> ChannelSettings {
    ChannelSettings {
        enabled: None,
        coupling: None,
        probe: None,
        scale: None,
        offset: None,
        bw_limit: None,
    }
}

/// Which parameter a send reads from the snapshot.
#[derive(Clone, Copy, Debug, PartialEq, Eq, Structural)]
pub enum Param {
    Running,
    ChannelEnable(usize),
    Coupling(usize),
    Probe(usize),
    Scale(usize),
    Offset(usize),
    BwLimit(usize),
    TimeScale,
    TimeOffset,
    TriggerSource,
    TriggerMode,
    TriggerLevel,
    AwgRunning,
    AwgFrequency,
    AwgAmplitude,
    AwgType,
    AwgOffset,
    AwgDutySquare,
    AwgDutyRamp,
    AwgDutyTrap,
}

/// The configuration snapshot.
#[derive(Clone, Copy, Debug, PartialEq, Eq, Structural)]
pub struct Snapshot {
    pub running_status: Option<RunningStatus>,
    pub channel1: ChannelSettings,
    pub channel2: ChannelSettings,
    pub time_scale: Option<TimeScale>,
    pub time_offset: Option<Real>,
    pub trigger_source_channel: Option<usize>,
    pub trigger_mode: Option<TriggerMode>,
    pub trigger_level: Option<Real>,
    pub awg_running_status: Option<RunningStatus>,
    pub awg_frequency: Option<Real>,
    pub awg_amplitude: Option<Real>,
    pub awg_type: Option<AwgType>,
    pub awg_offset: Option<Real>,
    pub awg_duty_square: Option<Real>,
    pub awg_duty_ramp: Option<Real>,
    pub awg_duty_trap: Option<TrapDuty>,
}

/// The snapshot with nothing known.
pub open spec fn unset() -> Snapshot {
    Snapshot {
        running_status: None,
        channel1: unset_channel(),
        channel2: unset_channel(),
        time_scale: None,
        time_offset: None,
        trigger_source_channel: None,
        trigger_mode: None,
        trigger_level: None,
        awg_running_status: None,
        awg_frequency: None,
        awg_amplitude: None,
        awg_type: None,
        awg_offset: None,
        awg_duty_square: None,
        awg_duty_ramp: None,
        awg_duty_trap: None,
    }
}

pub open spec fn zero_real() -> Real {
    Real { bits: 0 }
}

pub open spec fn zero_duty() -> TrapDuty {
    TrapDuty { high: zero_real(), low: zero_real(), rise: zero_real() }
}

pub open spec fn value_or<T>(o: Option<T>, d: T) -> T {
    match o {
        Some(v) => v,
        None => d,
    }
}

impl Snapshot {

    /// The snapshot with nothing known.
    pub fn new() -> (r: Snapshot)
        ensures
            r == unset(),
    {
        let ch = ChannelSettings {
            enabled: None,
            coupling: None,
            probe: None,
            scale: None,
            offset: None,
            bw_limit: None,
        };
        Snapshot {
            running_status: None,
            channel1: ch,
            channel2: ch,
            time_scale: None,
            time_offset: None,
            trigger_source_channel: None,
            trigger_mode: None,
            trigger_level: None,
            awg_running_status: None,
            awg_frequency: None,
            awg_amplitude: None,
            awg_type: None,
            awg_offset: None,
            awg_duty_square: None,
            awg_duty_ramp: None,
            awg_duty_trap: None,
        }
    }

    /// The settings of channel `c`.
    pub fn channel(&self, c: usize) -> (r: ChannelSettings)
        requires
            valid_channel(c),
        ensures
            r == self.spec_channel(c),
    {
        if c == 1 {
            self.channel1
        } else {
            self.channel2
        }
    }

    /// Records the value that `cmd` sets.
    pub fn record(&mut self, cmd: DevCommand)
        ensures
            *final(self) == old(self).recorded(cmd),
    {
        match cmd {
            DevCommand::ChannelEnable(c, v) => {
                if c == 1 {
                    self.channel1.enabled = Some(v);
                } else if c == 2 {
                    self.channel2.enabled = Some(v);
                }
            },
            DevCommand::Coupling(c, v) => {
                if c == 1 {
                    self.channel1.coupling = Some(v);
                } else if c == 2 {
                    self.channel2.coupling = Some(v);
                }
            },
            DevCommand::Probe(c, v) => {
                if c == 1 {
                    self.channel1.probe = Some(v);
                } else if c == 2 {
                    self.channel2.probe = Some(v);
                }
            },
            DevCommand::Scale(c, v) => {
                if c == 1 {
                    self.channel1.scale = Some(v);
                } else if c == 2 {
                    self.channel2.scale = Some(v);
                }
            },
            DevCommand::Offset(c, v) => {
                if c == 1 {
                    self.channel1.offset = Some(v);
                } else if c == 2 {
                    self.channel2.offset = Some(v);
                }
            },
            DevCommand::BwLimit(c, v) => {
                if c == 1 {
                    self.channel1.bw_limit = Some(v);
                } else if c == 2 {
                    self.channel2.bw_limit = Some(v);
                }
            },
            DevCommand::ScopeRunning(v) => self.running_status = Some(v),
            DevCommand::TimeScale(v) => self.time_scale = Some(v),
            DevCommand::TimeOffset(v) => self.time_offset = Some(v),
            DevCommand::TriggerSource(v) => self.trigger_source_channel = Some(v),
            DevCommand::TriggerMode(v) => self.trigger_mode = Some(v),
            DevCommand::TriggerLevel(v) => self.trigger_level = Some(v),
            DevCommand::AwgRunningStatus(v) => self.awg_running_status = Some(v),
            DevCommand::AwgFrequency(v) => self.awg_frequency = Some(v),
            DevCommand::AwgAmplitude(v) => self.awg_amplitude = Some(v),
            DevCommand::AwgType(v) => self.awg_type = Some(v),
            DevCommand::AwgOffset(v) => self.awg_offset = Some(v),
            DevCommand::AwgDutySquare(v) => self.awg_duty_square = Some(v),
            DevCommand::AwgDutyRamp(v) => self.awg_duty_ramp = Some(v),
            DevCommand::AwgDutyTrap(h, l, r) => {
                self.awg_duty_trap = Some(TrapDuty { high: h, low: l, rise: r });
            },
            DevCommand::Connect | DevCommand::Disconnect | DevCommand::Capture(_, _) => {},
        }
    }

    /// Records a new high duty of the trapezoid, keeping the other two
    /// parameters (zero while unknown).
    pub fn record_trap_high(&mut self, v: Real)
        ensures
            *final(self) == (Snapshot {
                awg_duty_trap: Some(
                    (TrapDuty { high: v, ..value_or(old(self).awg_duty_trap, zero_duty()) }),
                ),
                ..*old(self)
            }),
    {
        let d = self.get_awg_duty_trap();
        self.awg_duty_trap = Some(TrapDuty { high: v, low: d.low, rise: d.rise });
    }

    /// Records a new low duty of the trapezoid, keeping the other two.
    pub fn record_trap_low(&mut self, v: Real)
        ensures
            *final(self) == (Snapshot {
                awg_duty_trap: Some(
                    (TrapDuty { low: v, ..value_or(old(self).awg_duty_trap, zero_duty()) }),
                ),
                ..*old(self)
            }),
    {
        let d = self.get_awg_duty_trap();
        self.awg_duty_trap = Some(TrapDuty { high: d.high, low: v, rise: d.rise });
    }

    /// Records a new rise duty of the trapezoid, keeping the other two.
    pub fn record_trap_rise(&mut self, v: Real)
        ensures
            *final(self) == (Snapshot {
                awg_duty_trap: Some(
                    (TrapDuty { rise: v, ..value_or(old(self).awg_duty_trap, zero_duty()) }),
                ),
                ..*old(self)
            }),
    {
        let d = self.get_awg_duty_trap();
        self.awg_duty_trap = Some(TrapDuty { high: d.high, low: d.low, rise: v });
    }

    /// The command that sends the recorded value of `p`, if it is known.
    pub fn command_for(&self, p: Param) -> (r: Option<DevCommand>)
        ensures
            r == self.spec_command_for(p),
    {
        match p {
            Param::Running => match self.running_status {
                Some(v) => Some(DevCommand::ScopeRunning(v)),
                None => None,
            },
            Param::ChannelEnable(c) => {
                if c == 1 || c == 2 {
                    match self.channel(c).enabled {
                        Some(v) => Some(DevCommand::ChannelEnable(c, v)),
                        None => None,
                    }
                } else {
                    None
                }
            },
            Param::Coupling(c) => {
                if c == 1 || c == 2 {
                    match self.channel(c).coupling {
                        Some(v) => Some(DevCommand::Coupling(c, v)),
                        None => None,
                    }
                } else {
                    None
                }
            },
            Param::Probe(c) => {
                if c == 1 || c == 2 {
                    match self.channel(c).probe {
                        Some(v) => Some(DevCommand::Probe(c, v)),
                        None => None,
                    }
                } else {
                    None
                }
            },
            Param::Scale(c) => {
                if c == 1 || c == 2 {
                    match self.channel(c).scale {
                        Some(v) => Some(DevCommand::Scale(c, v)),
                        None => None,
                    }
                } else {
                    None
                }
            },
            Param::Offset(c) => {
                if c == 1 || c == 2 {
                    match self.channel(c).offset {
                        Some(v) => Some(DevCommand::Offset(c, v)),
                        None => None,
                    }
                } else {
                    None
                }
            },
            Param::BwLimit(c) => {
                if c == 1 || c == 2 {
                    match self.channel(c).bw_limit {
                        Some(v) => Some(DevCommand::BwLimit(c, v)),
                        None => None,
                    }
                } else {
                    None
                }
            },
            Param::TimeScale => match self.time_scale {
                Some(v) => Some(DevCommand::TimeScale(v)),
                None => None,
            },
            Param::TimeOffset => match self.time_offset {
                Some(v) => Some(DevCommand::TimeOffset(v)),
                None => None,
            },
            Param::TriggerSource => match self.trigger_source_channel {
                Some(v) => Some(DevCommand::TriggerSource(v)),
                None => None,
            },
            Param::TriggerMode => match self.trigger_mode {
                Some(v) => Some(DevCommand::TriggerMode(v)),
                None => None,
            },
            Param::TriggerLevel => match self.trigger_level {
                Some(v) => Some(DevCommand::TriggerLevel(v)),
                None => None,
            },
            Param::AwgRunning => match self.awg_running_status {
                Some(v) => Some(DevCommand::AwgRunningStatus(v)),
                None => None,
            },
            Param::AwgFrequency => match self.awg_frequency {
                Some(v) => Some(DevCommand::AwgFrequency(v)),
                None => None,
            },
            Param::AwgAmplitude => match self.awg_amplitude {
                Some(v) => Some(DevCommand::AwgAmplitude(v)),
                None => None,
            },
            Param::AwgType => match self.awg_type {
                Some(v) => Some(DevCommand::AwgType(v)),
                None => None,
            },
            Param::AwgOffset => match self.awg_offset {
                Some(v) => Some(DevCommand::AwgOffset(v)),
                None => None,
            },
            Param::AwgDutySquare => match self.awg_duty_square {
                Some(v) => Some(DevCommand::AwgDutySquare(v)),
                None => None,
            },
            Param::AwgDutyRamp => match self.awg_duty_ramp {
                Some(v) => Some(DevCommand::AwgDutyRamp(v)),
                None => None,
            },
            Param::AwgDutyTrap => match self.awg_duty_trap {
                Some(d) => Some(DevCommand::AwgDutyTrap(d.high, d.low, d.rise)),
                None => None,
            },
        }
    }

    /// Whether acquisition runs; stopped while unknown.
    pub fn get_running(&self) -> (r: bool)
        ensures
            r == (self.running_status == Some(RunningStatus::Start)),
    {
        match self.running_status {
            Some(v) => v.is_start(),
            None => false,
        }
    }

    /// The coupling of channel `c`; `Coupling::Ac` while unknown.
    pub fn get_coupling(&self, c: usize) -> (r: Coupling)
        requires
            valid_channel(c),
        ensures
            r == value_or(self.spec_channel(c).coupling, Coupling::Ac),
    {
        match self.channel(c).coupling {
            Some(v) => v,
            None => Coupling::Ac,
        }
    }

    /// The probe of channel `c`; `Probe::X1` while unknown.
    pub fn get_probe(&self, c: usize) -> (r: Probe)
        requires
            valid_channel(c),
        ensures
            r == value_or(self.spec_channel(c).probe, Probe::X1),
    {
        match self.channel(c).probe {
            Some(v) => v,
            None => Probe::X1,
        }
    }

    /// The scale of channel `c`; `Scale::Mv10` while unknown.
    pub fn get_scale(&self, c: usize) -> (r: Scale)
        requires
            valid_channel(c),
        ensures
            r == value_or(self.spec_channel(c).scale, Scale::Mv10),
    {
        match self.channel(c).scale {
            Some(v) => v,
            None => Scale::Mv10,
        }
    }

    /// The enabled of channel `c`; `false` while unknown.
    pub fn get_enabled_channel(&self, c: usize) -> (r: bool)
        requires
            valid_channel(c),
        ensures
            r == value_or(self.spec_channel(c).enabled, false),
    {
        match self.channel(c).enabled {
            Some(v) => v,
            None => false,
        }
    }

    /// The bw limit of channel `c`; `false` while unknown.
    pub fn get_bw_limit(&self, c: usize) -> (r: bool)
        requires
            valid_channel(c),
        ensures
            r == value_or(self.spec_channel(c).bw_limit, false),
    {
        match self.channel(c).bw_limit {
            Some(v) => v,
            None => false,
        }
    }

    /// The vertical offset of channel `c`; zero while unknown.
    pub fn get_offset(&self, c: usize) -> (r: Real)
        requires
            valid_channel(c),
        ensures
            r == value_or(self.spec_channel(c).offset, zero_real()),
    {
        match self.channel(c).offset {
            Some(v) => v,
            None => Real::zero(),
        }
    }

    /// The time scale; `TimeScale::Ns5` while unknown.
    pub fn get_time_scale(&self) -> (r: TimeScale)
        ensures
            r == value_or(self.time_scale, TimeScale::Ns5),
    {
        match self.time_scale {
            Some(v) => v,
            None => TimeScale::Ns5,
        }
    }

    /// The trigger source channel; `1` while unknown.
    pub fn get_trigger_source(&self) -> (r: usize)
        ensures
            r == value_or(self.trigger_source_channel, 1usize),
    {
        match self.trigger_source_channel {
            Some(v) => v,
            None => 1,
        }
    }

    /// The trigger mode; `TriggerMode::Auto` while unknown.
    pub fn get_trigger_mode(&self) -> (r: TriggerMode)
        ensures
            r == value_or(self.trigger_mode, TriggerMode::Auto),
    {
        match self.trigger_mode {
            Some(v) => v,
            None => TriggerMode::Auto,
        }
    }

    /// The awg running status; `RunningStatus::Stop` while unknown.
    pub fn get_awg_running(&self) -> (r: RunningStatus)
        ensures
            r == value_or(self.awg_running_status, RunningStatus::Stop),
    {
        match self.awg_running_status {
            Some(v) => v,
            None => RunningStatus::Stop,
        }
    }

    /// The awg type; `AwgType::Square` while unknown.
    pub fn get_awg_type(&self) -> (r: AwgType)
        ensures
            r == value_or(self.awg_type, AwgType::Square),
    {
        match self.awg_type {
            Some(v) => v,
            None => AwgType::Square,
        }
    }

    /// The time offset; zero while unknown.
    pub fn get_time_offset(&self) -> (r: Real)
        ensures
            r == value_or(self.time_offset, zero_real()),
    {
        match self.time_offset {
            Some(v) => v,
            None => Real::zero(),
        }
    }

    /// The trigger level; zero while unknown.
    pub fn get_trigger_level(&self) -> (r: Real)
        ensures
            r == value_or(self.trigger_level, zero_real()),
    {
        match self.trigger_level {
            Some(v) => v,
            None => Real::zero(),
        }
    }

    /// The awg frequency; zero while unknown.
    pub fn get_awg_frequency(&self) -> (r: Real)
        ensures
            r == value_or(self.awg_frequency, zero_real()),
    {
        match self.awg_frequency {
            Some(v) => v,
            None => Real::zero(),
        }
    }

    /// The awg amplitude; zero while unknown.
    pub fn get_awg_amplitude(&self) -> (r: Real)
        ensures
            r == value_or(self.awg_amplitude, zero_real()),
    {
        match self.awg_amplitude {
            Some(v) => v,
            None => Real::zero(),
        }
    }

    /// The awg offset; zero while unknown.
    pub fn get_awg_offset(&self) -> (r: Real)
        ensures
            r == value_or(self.awg_offset, zero_real()),
    {
        match self.awg_offset {
            Some(v) => v,
            None => Real::zero(),
        }
    }

    /// The awg duty square; zero while unknown.
    pub fn get_awg_duty_square(&self) -> (r: Real)
        ensures
            r == value_or(self.awg_duty_square, zero_real()),
    {
        match self.awg_duty_square {
            Some(v) => v,
            None => Real::zero(),
        }
    }

    /// The awg duty ramp; zero while unknown.
    pub fn get_awg_duty_ramp(&self) -> (r: Real)
        ensures
            r == value_or(self.awg_duty_ramp, zero_real()),
    {
        match self.awg_duty_ramp {
            Some(v) => v,
            None => Real::zero(),
        }
    }

    /// The trapezoid duty parameters; all zero while unknown.
    pub fn get_awg_duty_trap(&self) -> (r: TrapDuty)
        ensures
            r == value_or(self.awg_duty_trap, zero_duty()),
    {
        match self.awg_duty_trap {
            Some(v) => v,
            None => TrapDuty::zero(),
        }
    }
    pub open spec fn spec_channel(self, c: usize) -> ChannelSettings {
        if c == 1 {
            self.channel1
        } else {
            self.channel2
        }
    }

    /// The snapshot with the settings of channel `c` replaced; unchanged for a
    /// channel the instrument does not have.
    pub open spec fn with_channel(self, c: usize, ch: ChannelSettings) -> Snapshot {
        if c == 1 {
            Snapshot { channel1: ch, ..self }
        } else if c == 2 {
            Snapshot { channel2: ch, ..self }
        } else {
            self
        }
    }

    /// The snapshot after the value that `cmd` sets has been recorded.
    /// Commands that set no parameter, or name a channel the instrument does
    /// not have, leave it unchanged.
    pub open spec fn recorded(self, cmd: DevCommand) -> Snapshot {
        match cmd {
            DevCommand::ScopeRunning(v) => Snapshot { running_status: Some(v), ..self },
            DevCommand::ChannelEnable(c, v) => self.with_channel(
                c,
                ChannelSettings { enabled: Some(v), ..self.spec_channel(c) },
            ),
            DevCommand::Coupling(c, v) => self.with_channel(
                c,
                ChannelSettings { coupling: Some(v), ..self.spec_channel(c) },
            ),
            DevCommand::Probe(c, v) => self.with_channel(
                c,
                ChannelSettings { probe: Some(v), ..self.spec_channel(c) },
            ),
            DevCommand::Scale(c, v) => self.with_channel(
                c,
                ChannelSettings { scale: Some(v), ..self.spec_channel(c) },
            ),
            DevCommand::Offset(c, v) => self.with_channel(
                c,
                ChannelSettings { offset: Some(v), ..self.spec_channel(c) },
            ),
            DevCommand::BwLimit(c, v) => self.with_channel(
                c,
                ChannelSettings { bw_limit: Some(v), ..self.spec_channel(c) },
            ),
            DevCommand::TimeScale(v) => Snapshot { time_scale: Some(v), ..self },
            DevCommand::TimeOffset(v) => Snapshot { time_offset: Some(v), ..self },
            DevCommand::TriggerSource(v) => Snapshot { trigger_source_channel: Some(v), ..self },
            DevCommand::TriggerMode(v) => Snapshot { trigger_mode: Some(v), ..self },
            DevCommand::TriggerLevel(v) => Snapshot { trigger_level: Some(v), ..self },
            DevCommand::AwgRunningStatus(v) => Snapshot { awg_running_status: Some(v), ..self },
            DevCommand::AwgFrequency(v) => Snapshot { awg_frequency: Some(v), ..self },
            DevCommand::AwgAmplitude(v) => Snapshot { awg_amplitude: Some(v), ..self },
            DevCommand::AwgType(v) => Snapshot { awg_type: Some(v), ..self },
            DevCommand::AwgOffset(v) => Snapshot { awg_offset: Some(v), ..self },
            DevCommand::AwgDutySquare(v) => Snapshot { awg_duty_square: Some(v), ..self },
            DevCommand::AwgDutyRamp(v) => Snapshot { awg_duty_ramp: Some(v), ..self },
            DevCommand::AwgDutyTrap(h, l, r) => Snapshot {
                awg_duty_trap: Some(TrapDuty { high: h, low: l, rise: r }),
                ..self
            },
            DevCommand::Connect | DevCommand::Disconnect | DevCommand::Capture(_, _) => self,
        }
    }

    /// The command that sends the recorded value of `p`; `None` while that
    /// value is unknown, or for a channel the instrument does not have.
    pub open spec fn spec_command_for(self, p: Param) -> Option<DevCommand> {
        match p {
            Param::Running => match self.running_status {
                Some(v) => Some(DevCommand::ScopeRunning(v)),
                None => None,
            },
            Param::ChannelEnable(c) => match self.spec_channel(c).enabled {
                Some(v) if valid_channel(c) => Some(DevCommand::ChannelEnable(c, v)),
                _ => None,
            },
            Param::Coupling(c) => match self.spec_channel(c).coupling {
                Some(v) if valid_channel(c) => Some(DevCommand::Coupling(c, v)),
                _ => None,
            },
            Param::Probe(c) => match self.spec_channel(c).probe {
                Some(v) if valid_channel(c) => Some(DevCommand::Probe(c, v)),
                _ => None,
            },
            Param::Scale(c) => match self.spec_channel(c).scale {
                Some(v) if valid_channel(c) => Some(DevCommand::Scale(c, v)),
                _ => None,
            },
            Param::Offset(c) => match self.spec_channel(c).offset {
                Some(v) if valid_channel(c) => Some(DevCommand::Offset(c, v)),
                _ => None,
            },
            Param::BwLimit(c) => match self.spec_channel(c).bw_limit {
                Some(v) if valid_channel(c) => Some(DevCommand::BwLimit(c, v)),
                _ => None,
            },
            Param::TimeScale => match self.time_scale {
                Some(v) => Some(DevCommand::TimeScale(v)),
                None => None,
            },
            Param::TimeOffset => match self.time_offset {
                Some(v) => Some(DevCommand::TimeOffset(v)),
                None => None,
            },
            Param::TriggerSource => match self.trigger_source_channel {
                Some(v) => Some(DevCommand::TriggerSource(v)),
                None => None,
            },
            Param::TriggerMode => match self.trigger_mode {
                Some(v) => Some(DevCommand::TriggerMode(v)),
                None => None,
            },
            Param::TriggerLevel => match self.trigger_level {
                Some(v) => Some(DevCommand::TriggerLevel(v)),
                None => None,
            },
            Param::AwgRunning => match self.awg_running_status {
                Some(v) => Some(DevCommand::AwgRunningStatus(v)),
                None => None,
            },
            Param::AwgFrequency => match self.awg_frequency {
                Some(v) => Some(DevCommand::AwgFrequency(v)),
                None => None,
            },
            Param::AwgAmplitude => match self.awg_amplitude {
                Some(v) => Some(DevCommand::AwgAmplitude(v)),
                None => None,
            },
            Param::AwgType => match self.awg_type {
                Some(v) => Some(DevCommand::AwgType(v)),
                None => None,
            },
            Param::AwgOffset => match self.awg_offset {
                Some(v) => Some(DevCommand::AwgOffset(v)),
                None => None,
            },
            Param::AwgDutySquare => match self.awg_duty_square {
                Some(v) => Some(DevCommand::AwgDutySquare(v)),
                None => None,
            },
            Param::AwgDutyRamp => match self.awg_duty_ramp {
                Some(v) => Some(DevCommand::AwgDutyRamp(v)),
                None => None,
            },
            Param::AwgDutyTrap => match self.awg_duty_trap {
                Some(d) => Some(DevCommand::AwgDutyTrap(d.high, d.low, d.rise)),
                None => None,
            },
        }
    }
}

/// The command sent for a parameter carries exactly the value recorded for
/// it: recording that command again leaves the snapshot unchanged.
pub proof fn lemma_sent_value_is_recorded(s: Snapshot, p: Param)
    requires
        s.spec_command_for(p) is Some,
    ensures
        s.recorded(s.spec_command_for(p)->0) == s,
{
}

} // verus!
