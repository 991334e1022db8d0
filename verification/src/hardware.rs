//! Sizes and limits fixed by the device hardware.

use vstd::prelude::*;

verus! {

/// Transducers in one row of a device.
pub const NUM_TRANS_X: usize = 18;

/// Rows of transducers on a device.
pub const NUM_TRANS_Y: usize = 14;

/// Transducers on one device: the grid without its three missing cells.
pub const NUM_TRANS_IN_UNIT: usize = 249;

/// Bytes of the header shared by all devices.
pub const HEADER_SIZE: usize = 128;

/// Bytes of the command-specific part of the header.
pub const HEADER_DATA_SIZE: usize = 124;

/// Bytes of one device body: one 16-bit cell per transducer.
pub const BODY_SIZE: usize = 498;

/// Bytes sent to one device per exchange.
pub const EC_OUTPUT_FRAME_SIZE: usize = 626;

/// Bytes received from one device per exchange.
pub const EC_INPUT_FRAME_SIZE: usize = 2;

/// Modulation bytes that fit in the header of a first frame.
pub const MOD_HEAD_DATA_SIZE: usize = 120;

/// Modulation bytes that fit in the header of a later frame.
pub const MOD_BODY_DATA_SIZE: usize = 124;

/// Focus points that fit in a device body of a first frame.
pub const POINT_STM_HEAD_DATA_SIZE: usize = 61;

/// Focus points that fit in a device body of a later frame.
pub const POINT_STM_BODY_DATA_SIZE: usize = 62;

/// Smallest sampling-frequency divisor of a modulation.
pub const MOD_SAMPLING_FREQ_DIV_MIN: u32 = 1160;

/// Smallest sampling-frequency divisor of a streamed sequence.
pub const STM_SAMPLING_FREQ_DIV_MIN: u32 = 1612;

/// Smallest cycle of the silencer.
pub const SILENCER_CYCLE_MIN: u16 = 1044;

/// Most control points a point sequence may hold.
pub const POINT_SEQ_BUFFER_SIZE_MAX: usize = 40000;

/// Most drive snapshots a gain sequence may hold.
pub const GAIN_SEQ_BUFFER_SIZE_MAX: usize = 1024;

/// Message id that resets a device.
pub const MSG_CLEAR: u8 = 0x00;

/// Message id that asks for the CPU firmware version.
pub const MSG_RD_CPU_VERSION: u8 = 0x01;

/// Message id that asks for the FPGA firmware version.
pub const MSG_RD_FPGA_VERSION: u8 = 0x03;

/// Message id that asks for the FPGA function bits.
pub const MSG_RD_FPGA_FUNCTION: u8 = 0x04;

} // verus!
