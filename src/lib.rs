//! Bridges OSC channel updates into a continuously transmitted DMX512 frame.
//!
//! The library holds the logic of the bridge: the shared channel buffer and
//! the OSC addressing rules that update it, the break / mark-after-break /
//! data / idle cycle of the transmitter as a state machine, the decisions of
//! the hybrid precision timer, and the driver-level vocabulary of the
//! FTD2XX serial adapter. Clocks, sockets, threads and the adapter itself are
//! driven by the caller.
use vstd::prelude::*;

pub mod ftd2xx;
pub mod osc;
pub mod frame;
pub mod timer;
pub mod dmx;
pub mod config;
