//! Instrument parameter values carried by commands and by the snapshot.

use vstd::prelude::*;

verus! {

/// A single-precision number carried by its IEEE-754 bit pattern.
///
/// The library never computes with such a number: it records it in the
/// configuration snapshot and hands it to the device driver unchanged.
#[derive(Clone, Copy, Debug, PartialEq, Eq, Structural)]
pub struct Real {
    pub bits: u32,
}

/// Bit pattern of `1.0`.
pub const ONE_BITS: u32 = 0x3f80_0000;

impl Real {
    /// The number zero.
    pub fn zero() -> (r: Real)
        ensures
            r.bits == 0,
    {
        Real { bits: 0 }
    }

    /// The number one.
    pub fn one() -> (r: Real)
        ensures
            r.bits == ONE_BITS,
    {
        Real { bits: ONE_BITS }
    }
}

/// Input coupling of a channel.
#[derive(Clone, Copy, Debug, PartialEq, Eq, Structural)]
pub enum Coupling {
    Ac,
    Dc,
}

/// Probe attenuation of a channel.
#[derive(Clone, Copy, Debug, PartialEq, Eq, Structural)]
pub enum Probe {
    X1,
    X10,
    X100,
    X1000,
}

/// Vertical scale of a channel, per division.
#[derive(Clone, Copy, Debug, PartialEq, Eq, Structural)]
pub enum Scale {
    Mv10,
    Mv20,
    Mv50,
    Mv100,
    Mv200,
    Mv500,
    V1,
    V2,
    V5,
    V10,
}

/// Horizontal scale, per division.
#[derive(Clone, Copy, Debug, PartialEq, Eq, Structural)]
pub enum TimeScale {
    Ns5,
    Ns10,
    Ns20,
    Ns50,
    Ns100,
    Ns200,
    Ns500,
    Us1,
    Us2,
    Us5,
    Us10,
    Us20,
    Us50,
    Us100,
    Us200,
    Us500,
    Ms1,
    Ms2,
    Ms5,
    Ms10,
    Ms20,
    Ms50,
    Ms100,
    Ms200,
    Ms500,
    S1,
    S2,
    S5,
    S10,
    S20,
    S50,
    S100,
    S200,
    S500,
}

/// Trigger sweep mode.
#[derive(Clone, Copy, Debug, PartialEq, Eq, Structural)]
pub enum TriggerMode {
    Auto,
    Normal,
    Single,
}

/// Waveform produced by the generator.
#[derive(Clone, Copy, Debug, PartialEq, Eq, Structural)]
pub enum AwgType {
    Square,
    Ramp,
    Sin,
    Trap,
    Arb1,
    Arb2,
    Arb3,
    Arb4,
}

/// Run state of the acquisition or of the generator.
#[derive(Clone, Copy, Debug, PartialEq, Eq, Structural)]
pub enum RunningStatus {
    Start,
    Stop,
}

impl RunningStatus {
    pub fn is_start(&self) -> (r: bool)
        ensures
            r == (*self == RunningStatus::Start),
    {
        match self {
            RunningStatus::Start => true,
            RunningStatus::Stop => false,
        }
    }
}

/// The three duty parameters of the trapezoid waveform.
#[derive(Clone, Copy, Debug, PartialEq, Eq, Structural)]
pub struct TrapDuty {
    pub high: Real,
    pub low: Real,
    pub rise: Real,
}

impl TrapDuty {
    /// All three parameters zero.
    pub fn zero() -> (r: TrapDuty)
        ensures
            r.high.bits == 0,
            r.low.bits == 0,
            r.rise.bits == 0,
    {
        TrapDuty { high: Real::zero(), low: Real::zero(), rise: Real::zero() }
    }
}

} // verus!
