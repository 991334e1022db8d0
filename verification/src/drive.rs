//! Per-transducer drive values and focus words, as they fill a body cell.

use vstd::prelude::*;

verus! {

/// Phase and duty of one transducer in the combined 8-bit encoding.
#[derive(Clone, Copy, Debug, PartialEq, Eq, Structural)]
pub struct LegacyDrive {
    pub phase: u8,
    pub duty: u8,
}

/// Duty of one transducer in the split encoding.
#[derive(Clone, Copy, Debug, PartialEq, Eq, Structural)]
pub struct Duty {
    pub duty: u16,
}

/// Phase of one transducer in the split encoding.
#[derive(Clone, Copy, Debug, PartialEq, Eq, Structural)]
pub struct Phase {
    pub phase: u16,
}

/// One focus point of a streamed point sequence: four cells, already in the
/// fixed-point form the FPGA reads.
#[derive(Clone, Copy, Debug, PartialEq, Eq, Structural)]
pub struct SeqFocus {
    pub w0: u16,
    pub w1: u16,
    pub w2: u16,
    pub w3: u16,
}

/// A value that fills one 16-bit cell of a device body.
pub trait DriveCell: Copy {
    /// The cell that holds the value.
    spec fn cell(self) -> u16;

    /// The cell that holds the value.
    fn to_cell(&self) -> (r: u16)
        ensures
            r == self.cell(),
    ;
}

impl DriveCell for LegacyDrive {
    /// Phase in the low byte, duty in the high byte.
    open spec fn cell(self) -> u16 {
        (self.phase as int + 256 * self.duty as int) as u16
    }

    fn to_cell(&self) -> (r: u16) {
        self.phase as u16 + 256 * (self.duty as u16)
    }
}

impl DriveCell for Duty {
    open spec fn cell(self) -> u16 {
        self.duty
    }

    fn to_cell(&self) -> (r: u16) {
        self.duty
    }
}

impl DriveCell for Phase {
    open spec fn cell(self) -> u16 {
        self.phase
    }

    fn to_cell(&self) -> (r: u16) {
        self.phase
    }
}

impl LegacyDrive {
    /// The drive held by a body cell.
    pub fn from_cell(cell: u16) -> (r: LegacyDrive)
        ensures
            r.cell() == cell,
            r.phase == cell % 256,
            r.duty == cell / 256,
    {
        LegacyDrive { phase: (cell % 256) as u8, duty: (cell / 256) as u8 }
    }
}

impl SeqFocus {
    /// A focus point from its four cells.
    pub fn new(w0: u16, w1: u16, w2: u16, w3: u16) -> (r: SeqFocus)
        ensures
            r == (SeqFocus { w0, w1, w2, w3 }),
    {
        SeqFocus { w0, w1, w2, w3 }
    }

    /// The cell at position `k` of the four.
    pub open spec fn word(self, k: int) -> u16 {
        if k == 0 {
            self.w0
        } else if k == 1 {
            self.w1
        } else if k == 2 {
            self.w2
        } else {
            self.w3
        }
    }
}

} // verus!
