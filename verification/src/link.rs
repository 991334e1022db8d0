//! The channel that carries datagrams to the devices and their replies
//! back.

use vstd::prelude::*;
use crate::datagram::{RxDatagram, TxDatagram};
use crate::error::LinkError;

verus! {

/// A bidirectional channel to the devices.
///
/// `send` and `receive` return `Ok(false)` where an exchange was missed and
/// the next may succeed, and an error where the link cannot work as it is.
pub trait Link: Send {
    /// Brings the link up.
    fn open(&mut self) -> Result<(), LinkError>;

    /// Takes the link down; a closed link stays closed.
    fn close(&mut self) -> Result<(), LinkError>;

    /// Hands a datagram over for the next exchange.
    fn send(&mut self, tx: &TxDatagram) -> Result<bool, LinkError>;

    /// Fills a reply slot for each device from the last exchange.
    fn receive(&mut self, rx: &mut RxDatagram) -> Result<bool, LinkError>;

    /// The period of the exchange, in ticks of the bus.
    fn cycle_ticks(&self) -> u16;

    /// Whether the link is up.
    fn is_open(&self) -> bool;
}

} // verus!
