//! What to do about devices that have dropped out of the operational
//! state: the decisions of one recovery pass, device by device.
//!
//! The caller walks the devices. For each it asks for the remedy, carries
//! it out on the bus, reports the outcome, then asks for the remedy of a
//! lost device and does the same.

use vstd::prelude::*;
use vstd::string::StringExecFns;
use crate::soem::{
    EC_STATE_ACK, EC_STATE_ERROR, EC_STATE_NONE, EC_STATE_OPERATIONAL, EC_STATE_SAFE_OP,
};

verus! {

/// What the bus master knows of one device: the state it last reported,
/// or the state asked of it, and whether it counts as lost.
#[derive(Clone, Copy, Debug, PartialEq, Eq, Structural)]
pub struct SlaveRecord {
    pub state: u16,
    pub islost: bool,
}

/// What the caller does for a device that is not operational.
#[derive(Clone, Copy, Debug, PartialEq, Eq, Structural)]
pub enum Remedy {
    /// Nothing.
    Nothing,
    /// Write the state that the record now holds to the device.
    WriteState,
    /// Reconfigure the device.
    Reconfigure,
    /// Check whether the device has reached the operational state.
    CheckState,
}

/// What the caller does for a device that counts as lost.
#[derive(Clone, Copy, Debug, PartialEq, Eq, Structural)]
pub enum LostRemedy {
    /// Nothing.
    Nothing,
    /// Try to recover the device.
    Recover,
}

/// What a pass notes about a device.
#[derive(Clone, Copy, Debug, PartialEq, Eq, Structural)]
pub enum Diagnostic {
    /// The device is in the safe-operational state with an error; the error
    /// is being acknowledged.
    AckAttempt,
    /// The device is in the safe-operational state and is being made
    /// operational.
    ToOperational,
    /// The device has been reconfigured.
    Reconfigured,
    /// The device does not answer and now counts as lost.
    Lost,
    /// The lost device has been recovered.
    Recovered,
    /// The lost device answers again.
    Found,
}

/// A note of a pass: the device, by its position on the bus, and what was
/// noted about it.
#[derive(Clone, Copy, Debug, PartialEq, Eq, Structural)]
pub struct Report {
    pub slave: usize,
    pub diagnostic: Diagnostic,
}

/// One recovery pass: whether a device was found that is not operational,
/// and the notes so far.
pub struct RecoveryPass {
    pub check_state: bool,
    pub reports: Vec<Report>,
}

/// The notes `reports` with one more for `slave`, if there is something to
/// note.
pub open spec fn noted(reports: Seq<Report>, slave: usize, diagnostic: Option<Diagnostic>) -> Seq<
    Report,
> {
    match diagnostic {
        Some(d) => reports.push(Report { slave, diagnostic: d }),
        None => reports,
    }
}

/// The remedy for a device, the record as the remedy leaves it, and what is
/// noted.
///
/// An operational device needs nothing. A safe-operational device with an
/// error has the error acknowledged, one without is asked to become
/// operational: the record takes the state to ask for, which the caller
/// writes. A device in another state that answers is reconfigured. One that
/// does not answer and does not count as lost yet has its state checked.
pub open spec fn remedy_of(record: SlaveRecord) -> (SlaveRecord, Remedy, Option<Diagnostic>) {
    if record.state == EC_STATE_OPERATIONAL {
        (record, Remedy::Nothing, None)
    } else if record.state == EC_STATE_SAFE_OP + EC_STATE_ERROR {
        (
            SlaveRecord { state: (EC_STATE_SAFE_OP + EC_STATE_ACK) as u16, islost: record.islost },
            Remedy::WriteState,
            Some(Diagnostic::AckAttempt),
        )
    } else if record.state == EC_STATE_SAFE_OP {
        (
            SlaveRecord { state: EC_STATE_OPERATIONAL, islost: record.islost },
            Remedy::WriteState,
            Some(Diagnostic::ToOperational),
        )
    } else if record.state > EC_STATE_NONE {
        (record, Remedy::Reconfigure, None)
    } else if !record.islost {
        (record, Remedy::CheckState, None)
    } else {
        (record, Remedy::Nothing, None)
    }
}

/// The record after the device was reconfigured, and what is noted:
/// `result` is what reconfiguring returned, zero for a failure, and `state`
/// the state the device is in now. A device that was reconfigured no longer
/// counts as lost.
pub open spec fn reconfigured_of(record: SlaveRecord, result: i32, state: u16) -> (
    SlaveRecord,
    Option<Diagnostic>,
) {
    if result != 0 {
        (SlaveRecord { state, islost: false }, Some(Diagnostic::Reconfigured))
    } else {
        (SlaveRecord { state, islost: record.islost }, None)
    }
}

/// The record after the device's state was checked, and what is noted:
/// `state` is the state the device is in now. A device that does not answer
/// counts as lost from now on.
pub open spec fn state_checked_of(record: SlaveRecord, state: u16) -> (
    SlaveRecord,
    Option<Diagnostic>,
) {
    if state == EC_STATE_NONE {
        (SlaveRecord { state, islost: true }, Some(Diagnostic::Lost))
    } else {
        (SlaveRecord { state, islost: record.islost }, None)
    }
}

/// The remedy for a device that may count as lost, the record as the remedy
/// leaves it, and what is noted. A lost device that does not answer is to be
/// recovered; one that answers is found again and no longer counts as lost.
pub open spec fn lost_remedy_of(record: SlaveRecord) -> (
    SlaveRecord,
    LostRemedy,
    Option<Diagnostic>,
) {
    if !record.islost {
        (record, LostRemedy::Nothing, None)
    } else if record.state == EC_STATE_NONE {
        (record, LostRemedy::Recover, None)
    } else {
        (
            SlaveRecord { state: record.state, islost: false },
            LostRemedy::Nothing,
            Some(Diagnostic::Found),
        )
    }
}

/// The record after the recovery of the device was tried, and what is
/// noted: `result` is what the recovery returned, zero for a failure, and
/// `state` the state the device is in now.
pub open spec fn recovered_of(record: SlaveRecord, result: i32, state: u16) -> (
    SlaveRecord,
    Option<Diagnostic>,
) {
    if result != 0 {
        (SlaveRecord { state, islost: false }, Some(Diagnostic::Recovered))
    } else {
        (SlaveRecord { state, islost: record.islost }, None)
    }
}

impl RecoveryPass {
    /// A pass that has seen no device yet.
    pub fn new() -> (r: RecoveryPass)
        ensures
            r.check_state == false,
            r.reports@ == Seq::<Report>::empty(),
    {
        RecoveryPass { check_state: false, reports: Vec::new() }
    }

    /// Adds a note for `slave`, if there is something to note.
    fn note(&mut self, slave: usize, diagnostic: Option<Diagnostic>)
        ensures
            final(self).check_state == old(self).check_state,
            final(self).reports@ == noted(old(self).reports@, slave, diagnostic),
    {
        match diagnostic {
            Some(d) => {
                self.reports.push(Report { slave, diagnostic: d });
            },
            None => {},
        }
    }

    /// The remedy for the device `slave`, as `remedy_of` says. The pass
    /// remembers that it found a device that is not operational.
    pub fn remedy(&mut self, slave: usize, record: &mut SlaveRecord) -> (r: Remedy)
        ensures
            *final(record) == remedy_of(*old(record)).0,
            r == remedy_of(*old(record)).1,
            final(self).reports@ == noted(old(self).reports@, slave, remedy_of(*old(record)).2),
            final(self).check_state == (old(self).check_state || old(record).state
                != EC_STATE_OPERATIONAL),
    {
        if record.state == EC_STATE_OPERATIONAL {
            return Remedy::Nothing;
        }
        self.check_state = true;
        if record.state == EC_STATE_SAFE_OP + EC_STATE_ERROR {
            self.note(slave, Some(Diagnostic::AckAttempt));
            record.state = EC_STATE_SAFE_OP + EC_STATE_ACK;
            Remedy::WriteState
        } else if record.state == EC_STATE_SAFE_OP {
            self.note(slave, Some(Diagnostic::ToOperational));
            record.state = EC_STATE_OPERATIONAL;
            Remedy::WriteState
        } else if record.state > EC_STATE_NONE {
            Remedy::Reconfigure
        } else if !record.islost {
            Remedy::CheckState
        } else {
            Remedy::Nothing
        }
    }

    /// Takes in the outcome of reconfiguring the device `slave`, as
    /// `reconfigured_of` says.
    pub fn reconfigured(&mut self, slave: usize, record: &mut SlaveRecord, result: i32, state: u16)
        ensures
            *final(record) == reconfigured_of(*old(record), result, state).0,
            final(self).reports@ == noted(
                old(self).reports@,
                slave,
                reconfigured_of(*old(record), result, state).1,
            ),
            final(self).check_state == old(self).check_state,
    {
        record.state = state;
        if result != 0 {
            record.islost = false;
            self.note(slave, Some(Diagnostic::Reconfigured));
        }
    }

    /// Takes in the outcome of checking the state of the device `slave`, as
    /// `state_checked_of` says.
    pub fn state_checked(&mut self, slave: usize, record: &mut SlaveRecord, state: u16)
        ensures
            *final(record) == state_checked_of(*old(record), state).0,
            final(self).reports@ == noted(
                old(self).reports@,
                slave,
                state_checked_of(*old(record), state).1,
            ),
            final(self).check_state == old(self).check_state,
    {
        record.state = state;
        if state == EC_STATE_NONE {
            record.islost = true;
            self.note(slave, Some(Diagnostic::Lost));
        }
    }

    /// The remedy for the device `slave` if it counts as lost, as
    /// `lost_remedy_of` says.
    pub fn lost_remedy(&mut self, slave: usize, record: &mut SlaveRecord) -> (r: LostRemedy)
        ensures
            *final(record) == lost_remedy_of(*old(record)).0,
            r == lost_remedy_of(*old(record)).1,
            final(self).reports@ == noted(
                old(self).reports@,
                slave,
                lost_remedy_of(*old(record)).2,
            ),
            final(self).check_state == old(self).check_state,
    {
        if !record.islost {
            LostRemedy::Nothing
        } else if record.state == EC_STATE_NONE {
            LostRemedy::Recover
        } else {
            record.islost = false;
            self.note(slave, Some(Diagnostic::Found));
            LostRemedy::Nothing
        }
    }

    /// Takes in the outcome of trying to recover the device `slave`, as
    /// `recovered_of` says.
    pub fn recovered(&mut self, slave: usize, record: &mut SlaveRecord, result: i32, state: u16)
        ensures
            *final(record) == recovered_of(*old(record), result, state).0,
            final(self).reports@ == noted(
                old(self).reports@,
                slave,
                recovered_of(*old(record), result, state).1,
            ),
            final(self).check_state == old(self).check_state,
    {
        record.state = state;
        if result != 0 {
            record.islost = false;
            self.note(slave, Some(Diagnostic::Recovered));
        }
    }

    /// Whether the pass found every device operational. If not, the notes
    /// go to whoever listens for errors, and the exchange goes on.
    pub fn all_operational(&self) -> (r: bool)
        ensures
            r == !self.check_state,
    {
        !self.check_state
    }

    /// The notes of the pass, in the order they were made.
    pub fn reports(&self) -> (r: &[Report])
        ensures
            r@ == self.reports@,
    {
        self.reports.as_slice()
    }
}

/// The decimal digit `d` as text.
pub open spec fn digit_text(d: nat) -> Seq<char> {
    if d == 0 {
        seq!['0']
    } else if d == 1 {
        seq!['1']
    } else if d == 2 {
        seq!['2']
    } else if d == 3 {
        seq!['3']
    } else if d == 4 {
        seq!['4']
    } else if d == 5 {
        seq!['5']
    } else if d == 6 {
        seq!['6']
    } else if d == 7 {
        seq!['7']
    } else if d == 8 {
        seq!['8']
    } else {
        seq!['9']
    }
}

/// The number `n` in decimal, without leading zeros.
pub open spec fn decimal_text(n: nat) -> Seq<char>
    decreases n,
{
    if n < 10 {
        digit_text(n)
    } else {
        decimal_text(n / 10) + digit_text(n % 10)
    }
}

/// The decimal digit `d` as text.
fn digit_str(d: usize) -> (r: &'static str)
    requires
        d < 10,
    ensures
        r@ == digit_text(d as nat),
{
    proof {
        reveal_strlit("0");
        reveal_strlit("1");
        reveal_strlit("2");
        reveal_strlit("3");
        reveal_strlit("4");
        reveal_strlit("5");
        reveal_strlit("6");
        reveal_strlit("7");
        reveal_strlit("8");
        reveal_strlit("9");
    }
    let r: &'static str = if d == 0 {
        "0"
    } else if d == 1 {
        "1"
    } else if d == 2 {
        "2"
    } else if d == 3 {
        "3"
    } else if d == 4 {
        "4"
    } else if d == 5 {
        "5"
    } else if d == 6 {
        "6"
    } else if d == 7 {
        "7"
    } else if d == 8 {
        "8"
    } else {
        "9"
    };
    assert(r@ =~= digit_text(d as nat));
    r
}

/// Appends `n` in decimal to `text`.
fn append_decimal(text: &mut String, n: usize)
    ensures
        final(text)@ == old(text)@ + decimal_text(n as nat),
    decreases n,
{
    if n >= 10 {
        append_decimal(text, n / 10);
    }
    text.append(digit_str(n % 10));
    assert(text@ =~= old(text)@ + decimal_text(n as nat));
}

impl Diagnostic {
    /// What the note says before the device's number.
    pub open spec fn prefix(self) -> Seq<char> {
        match self {
            Diagnostic::AckAttempt => "ERROR : slave "@,
            Diagnostic::ToOperational => "ERROR : slave "@,
            Diagnostic::Lost => "ERROR : slave "@,
            Diagnostic::Reconfigured => "MESSAGE : slave "@,
            Diagnostic::Recovered => "MESSAGE : slave "@,
            Diagnostic::Found => "MESSAGE : slave "@,
        }
    }

    /// What the note says after the device's number.
    pub open spec fn suffix(self) -> Seq<char> {
        match self {
            Diagnostic::AckAttempt => " is in SAFE_OP + ERROR, attempting ack\n"@,
            Diagnostic::ToOperational => " is in SAFE_OP, change to OPERATIONAL\n"@,
            Diagnostic::Lost => " lost\n"@,
            Diagnostic::Reconfigured => " reconfigured\n"@,
            Diagnostic::Recovered => " recovered\n"@,
            Diagnostic::Found => " found\n"@,
        }
    }
}

/// The line of text that a note stands for.
pub open spec fn report_text(report: Report) -> Seq<char> {
    report.diagnostic.prefix() + decimal_text(report.slave as nat) + report.diagnostic.suffix()
}

/// The text of the notes, a line for each in their order.
pub open spec fn reports_text(reports: Seq<Report>) -> Seq<char>
    decreases reports.len(),
{
    if reports.len() == 0 {
        Seq::<char>::empty()
    } else {
        reports_text(reports.drop_last()) + report_text(reports.last())
    }
}

impl Report {
    /// Appends the line of text that the note stands for.
    fn append_to(&self, text: &mut String)
        ensures
            final(text)@ == old(text)@ + report_text(*self),
    {
        let before: &'static str = match self.diagnostic {
            Diagnostic::AckAttempt => "ERROR : slave ",
            Diagnostic::ToOperational => "ERROR : slave ",
            Diagnostic::Lost => "ERROR : slave ",
            Diagnostic::Reconfigured => "MESSAGE : slave ",
            Diagnostic::Recovered => "MESSAGE : slave ",
            Diagnostic::Found => "MESSAGE : slave ",
        };
        let after: &'static str = match self.diagnostic {
            Diagnostic::AckAttempt => " is in SAFE_OP + ERROR, attempting ack\n",
            Diagnostic::ToOperational => " is in SAFE_OP, change to OPERATIONAL\n",
            Diagnostic::Lost => " lost\n",
            Diagnostic::Reconfigured => " reconfigured\n",
            Diagnostic::Recovered => " recovered\n",
            Diagnostic::Found => " found\n",
        };
        text.append(before);
        append_decimal(text, self.slave);
        text.append(after);
        assert(text@ =~= old(text)@ + report_text(*self));
    }

    /// The line of text that the note stands for.
    pub fn message(&self) -> (r: String)
        ensures
            r@ == report_text(*self),
    {
        let mut text: String = String::new();
        self.append_to(&mut text);
        assert(text@ =~= report_text(*self));
        text
    }
}

impl RecoveryPass {
    /// The text of the notes of the pass, a line for each in their order:
    /// what the listener for errors is told.
    pub fn message(&self) -> (r: String)
        ensures
            r@ == reports_text(self.reports@),
    {
        let mut text: String = String::new();
        let n: usize = self.reports.len();
        let mut i: usize = 0;
        assert(self.reports@.subrange(0, 0) =~= Seq::<Report>::empty());
        while i < n
            invariant
                0 <= i <= n,
                n == self.reports@.len(),
                text@ == reports_text(self.reports@.subrange(0, i as int)),
            decreases n - i,
        {
            self.reports[i].append_to(&mut text);
            proof {
                let next = self.reports@.subrange(0, i + 1);
                assert(next.drop_last() =~= self.reports@.subrange(0, i as int));
                assert(next.last() == self.reports@[i as int]);
            }
            i = i + 1;
        }
        assert(self.reports@.subrange(0, n as int) =~= self.reports@);
        text
    }
}

} // verus!
