//! What the encoders, the buffers and the transport report when they refuse.

use vstd::prelude::*;

verus! {

/// A refusal that concerns the frame as the CPU reads it.
#[derive(Clone, Copy, Debug, PartialEq, Eq, Structural)]
pub enum CPUError {
    /// The data does not cover the devices of the datagram: `a` devices
    /// are configured, the data holds `b` whole devices.
    DeviceNumberNotCorrect { a: usize, b: usize },
    /// A first modulation chunk of this length is over the head capacity.
    ModulationHeadDataSizeOutOfRange(usize),
    /// A later modulation chunk of this length is over the body capacity.
    ModulationBodyDataSizeOutOfRange(usize),
    /// A first chunk of this many focus points is over the head capacity.
    PointSTMHeadDataSizeOutOfRange(usize),
    /// A later chunk of this many focus points is over the body capacity.
    PointSTMBodyDataSizeOutOfRange(usize),
}

/// A refusal that concerns a value the FPGA bounds.
#[derive(Clone, Copy, Debug, PartialEq, Eq, Structural)]
pub enum FPGAError {
    /// The modulation's frequency divisor is under its minimum.
    ModFreqDivOutOfRange(u32),
    /// The sequence's frequency divisor is under its minimum.
    STMFreqDivOutOfRange(u32),
    /// The silencer's cycle is under its minimum.
    SilencerCycleOutOfRange(u16),
}

/// Why an encoder refused.
#[derive(Clone, Copy, Debug, PartialEq, Eq, Structural)]
pub enum DriverError {
    CPU(CPUError),
    FPGA(FPGAError),
}

/// Why a buffer or a link refused.
#[derive(Clone, Copy, Debug, PartialEq, Eq, Structural)]
pub enum AutdError {
    /// A sequence buffer is full; the number is the limit of a point
    /// sequence, which a full gain sequence reports too.
    PointSequenceOutOfBuffer(usize),
    /// The link is not open.
    LinkClosed,
    /// The frame's length, the first number, is not the one the link
    /// exchanges, the second.
    InvalidFrameSize(usize, usize),
}

/// Why the fieldbus could not be brought up.
#[derive(Clone, Copy, Debug, PartialEq, Eq, Structural)]
pub enum SoemError {
    /// No socket could be opened on the interface.
    NoSocketConnection,
    /// The bus holds the first number of devices, the second was expected.
    SlaveNotFound(u16, u16),
    /// Not every device reached the operational state.
    NotResponding,
}

/// Why the periodic timer failed.
#[derive(Clone, Copy, Debug, PartialEq, Eq, Structural)]
pub enum TimerError {
    CreationFailed,
    DeleteFailed,
}

/// Why a link refused.
#[derive(Clone, Copy, Debug, PartialEq, Eq, Structural)]
pub enum LinkError {
    Autd(AutdError),
    Soem(SoemError),
    Timer(TimerError),
}

} // verus!
