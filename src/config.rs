//! Startup configuration of the bridge: its defaults, the bounds it is held
//! to, and the choice of the adapter to open.
use vstd::prelude::*;

verus! {

/// Default number of channels in the universe.
pub const DMX_SIZE: usize = 512;

/// Default line rate of the adapter, in baud.
pub const DMX_BAUDRATE: u32 = 250000;

/// Default break time, in microseconds.
pub const DMX_BREAK_TIME: u64 = 92;

/// Default mark-after-break time, in microseconds.
pub const DMX_MAB_TIME: u64 = 12;

/// Default idle time between frames, in microseconds.
pub const DMX_IDLE_TIME: u64 = 5000;

/// Longest accepted break and mark-after-break time, in microseconds.
pub const MAX_BREAK_TIME: u64 = 1000000;

/// Longest accepted idle time, in microseconds.
pub const MAX_IDLE_TIME: u64 = 10000000000;

/// A startup parameter out of its bounds.
#[derive(Debug, Clone, Copy, PartialEq, Eq, Structural)]
pub enum ConfigError {
    /// The universe size is not within 1 to 512 channels.
    DmxSize,
    /// The break time is not within 1 to 1000000 microseconds.
    BreakTime,
    /// The mark-after-break time is not within 1 to 1000000 microseconds.
    MabTime,
    /// The idle time is not within 1 to 10000000000 microseconds.
    IdleTime,
}

/// The first parameter out of bounds, checked in the order size, break,
/// mark after break, idle; none when all are within.
pub open spec fn config_error(size: usize, break_time: u64, mab_time: u64, idle_time: u64) -> Option<
    ConfigError,
> {
    if size < 1 || size > 512 {
        Some(ConfigError::DmxSize)
    } else if break_time < 1 || break_time > MAX_BREAK_TIME {
        Some(ConfigError::BreakTime)
    } else if mab_time < 1 || mab_time > MAX_BREAK_TIME {
        Some(ConfigError::MabTime)
    } else if idle_time < 1 || idle_time > MAX_IDLE_TIME {
        Some(ConfigError::IdleTime)
    } else {
        None
    }
}

/// Checks the universe size and the three timing parameters against their
/// bounds.
pub fn validate(size: usize, break_time: u64, mab_time: u64, idle_time: u64) -> (r: Result<(), ConfigError>)
    ensures
        r is Ok <==> config_error(size, break_time, mab_time, idle_time) is None,
        r is Err ==> Some(r->Err_0) == config_error(size, break_time, mab_time, idle_time),
{
    if size < 1 || size > 512 {
        Err(ConfigError::DmxSize)
    } else if break_time < 1 || break_time > MAX_BREAK_TIME {
        Err(ConfigError::BreakTime)
    } else if mab_time < 1 || mab_time > MAX_BREAK_TIME {
        Err(ConfigError::MabTime)
    } else if idle_time < 1 || idle_time > MAX_IDLE_TIME {
        Err(ConfigError::IdleTime)
    } else {
        Ok(())
    }
}

/// How the adapter to open is named.
#[derive(Debug, Clone, PartialEq, Eq)]
pub enum DeviceSelector {
    Location(i32),
    Serial(String),
    Description(String),
    Index(i32),
}

/// Picks the adapter from the operator's choices: a location when one is
/// given (not negative), else a serial number when one is given (not
/// empty), else a description when one is given, else the index.
pub fn select_device(index: i32, serial: String, description: String, location: i32) -> (r: DeviceSelector)
    ensures
        location >= 0 ==> r == DeviceSelector::Location(location),
        location < 0 && serial@.len() > 0 ==> r is Serial && r->Serial_0@ == serial@,
        location < 0 && serial@.len() == 0 && description@.len() > 0 ==> r is Description
            && r->Description_0@ == description@,
        location < 0 && serial@.len() == 0 && description@.len() == 0 ==> r == DeviceSelector::Index(
            index,
        ),
{
    if location >= 0 {
        DeviceSelector::Location(location)
    } else if !serial.as_str().is_empty() {
        DeviceSelector::Serial(serial)
    } else if !description.as_str().is_empty() {
        DeviceSelector::Description(description)
    } else {
        DeviceSelector::Index(index)
    }
}

} // verus!
