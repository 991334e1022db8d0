//! Control protocol for chained ultrasound transducer devices: the transmit
//! frame, its control flags, the command encoders that fill it, the staging
//! buffers for streamed sequences, and the decisions of the cyclic fieldbus
//! transport.

pub mod hardware;
pub mod flags;
pub mod drive;
pub mod error;
pub mod datagram;
pub mod operation;
pub mod sequence;
pub mod link;
pub mod soem;
pub mod recovery;
pub mod timer;
pub mod laws;
