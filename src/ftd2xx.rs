//! Driver vocabulary of the FTD2XX USB-serial adapter: its status codes and
//! the line settings handed to it.
use vstd::prelude::*;

verus! {

/// A non-zero status code returned by the FTD2XX driver.
#[derive(Debug, Clone, Copy, PartialEq, Eq)]
pub enum FTD2XXError {
    InvalidHandle,
    DeviceNotFound,
    IOError,
    InsufficientResources,
    InvalidParameter,
    InvalidBaudRate,
    DeviceNotOpenedForErase,
    DeviceNotOpenedForWrite,
    FailedToWriteDevice,
    EEPROMReadFailed,
    EEPROMWriteFailed,
    EEPROMEraseFailed,
    EEPROMNotPresent,
    EEPROMNotProgrammed,
    InvalidArgs,
    NotSupported,
    OtherError(i32),
}

/// The error named by a driver status code; codes the driver does not
/// document are kept verbatim.
pub open spec fn fterror_of(i: i32) -> FTD2XXError {
    if i == 1 {
        FTD2XXError::InvalidHandle
    } else if i == 2 {
        FTD2XXError::DeviceNotFound
    } else if i == 3 {
        FTD2XXError::IOError
    } else if i == 4 {
        FTD2XXError::InsufficientResources
    } else if i == 5 {
        FTD2XXError::InvalidParameter
    } else if i == 6 {
        FTD2XXError::InvalidBaudRate
    } else if i == 7 {
        FTD2XXError::DeviceNotOpenedForErase
    } else if i == 8 {
        FTD2XXError::DeviceNotOpenedForWrite
    } else if i == 9 {
        FTD2XXError::FailedToWriteDevice
    } else if i == 10 {
        FTD2XXError::EEPROMReadFailed
    } else if i == 11 {
        FTD2XXError::EEPROMWriteFailed
    } else if i == 12 {
        FTD2XXError::EEPROMEraseFailed
    } else if i == 13 {
        FTD2XXError::EEPROMNotPresent
    } else if i == 14 {
        FTD2XXError::EEPROMNotProgrammed
    } else if i == 15 {
        FTD2XXError::InvalidArgs
    } else if i == 16 {
        FTD2XXError::NotSupported
    } else {
        FTD2XXError::OtherError(i)
    }
}

/// Maps a driver status code to its error.
pub fn get_fterror(i: i32) -> (r: FTD2XXError)
    ensures
        r == fterror_of(i),
{
    match i {
        1 => FTD2XXError::InvalidHandle,
        2 => FTD2XXError::DeviceNotFound,
        3 => FTD2XXError::IOError,
        4 => FTD2XXError::InsufficientResources,
        5 => FTD2XXError::InvalidParameter,
        6 => FTD2XXError::InvalidBaudRate,
        7 => FTD2XXError::DeviceNotOpenedForErase,
        8 => FTD2XXError::DeviceNotOpenedForWrite,
        9 => FTD2XXError::FailedToWriteDevice,
        10 => FTD2XXError::EEPROMReadFailed,
        11 => FTD2XXError::EEPROMWriteFailed,
        12 => FTD2XXError::EEPROMEraseFailed,
        13 => FTD2XXError::EEPROMNotPresent,
        14 => FTD2XXError::EEPROMNotProgrammed,
        15 => FTD2XXError::InvalidArgs,
        16 => FTD2XXError::NotSupported,
        _ => FTD2XXError::OtherError(i),
    }
}

impl From<i32> for FTD2XXError {
    fn from(e: i32) -> (r: Self) {
        get_fterror(e)
    }
}

impl vstd::std_specs::convert::FromSpecImpl<i32> for FTD2XXError {
    open spec fn obeys_from_spec() -> bool {
        true
    }

    open spec fn from_spec(e: i32) -> Self {
        fterror_of(e)
    }
}


/// A failure of an operation on the adapter.
#[derive(Debug, Clone, Copy, PartialEq, Eq)]
pub enum FTError {
    /// The driver returned a non-zero status.
    FTD2XXError(FTD2XXError),
    /// A text argument holds a nul byte, at this byte position.
    InvalidParameter(usize),
    /// The device handle was already released.
    DeviceClosed,
}

impl From<FTD2XXError> for FTError {
    fn from(e: FTD2XXError) -> (r: Self) {
        FTError::FTD2XXError(e)
    }
}

impl vstd::std_specs::convert::FromSpecImpl<FTD2XXError> for FTError {
    open spec fn obeys_from_spec() -> bool {
        true
    }

    open spec fn from_spec(e: FTD2XXError) -> Self {
        FTError::FTD2XXError(e)
    }
}

/// The outcome of a driver call that returned the status code `e`:
/// success exactly when the code is zero.
pub fn status_result(e: i32) -> (r: Result<(), FTError>)
    ensures
        r is Ok <==> e == 0,
        e != 0 ==> r == Err::<(), FTError>(FTError::FTD2XXError(fterror_of(e))),
{
    if e != 0 {
        Err(FTError::FTD2XXError(get_fterror(e)))
    } else {
        Ok(())
    }
}

/// Number of data bits per serial word.
#[derive(Debug, Clone, Copy, PartialEq, Eq)]
pub enum WordLength {
    Bits8,
    Bits7,
}

impl WordLength {
    /// The value the driver expects for this word length.
    pub fn code(&self) -> (r: u8)
        ensures
            r == (match self {
                WordLength::Bits8 => 8u8,
                WordLength::Bits7 => 7u8,
            }),
    {
        match self {
            WordLength::Bits8 => 8,
            WordLength::Bits7 => 7,
        }
    }
}

/// Number of stop bits after each serial word.
#[derive(Debug, Clone, Copy, PartialEq, Eq)]
pub enum StopBits {
    Bits2,
    Bits1,
}

impl StopBits {
    /// The value the driver expects for this stop-bit setting.
    pub fn code(&self) -> (r: u8)
        ensures
            r == (match self {
                StopBits::Bits2 => 2u8,
                StopBits::Bits1 => 0u8,
            }),
    {
        match self {
            StopBits::Bits2 => 2,
            StopBits::Bits1 => 0,
        }
    }
}

/// Parity bit setting.
#[derive(Debug, Clone, Copy, PartialEq, Eq)]
pub enum Parity {
    NoParity,
    Odd,
    Even,
    Mark,
    Space,
}

impl Parity {
    /// The value the driver expects for this parity setting.
    pub fn code(&self) -> (r: u8)
        ensures
            r == (match self {
                Parity::NoParity => 0u8,
                Parity::Odd => 1u8,
                Parity::Even => 2u8,
                Parity::Mark => 3u8,
                Parity::Space => 4u8,
            }),
    {
        match self {
            Parity::NoParity => 0,
            Parity::Odd => 1,
            Parity::Even => 2,
            Parity::Mark => 3,
            Parity::Space => 4,
        }
    }
}

/// Flow control of the serial line; software flow control carries its
/// XON and XOFF characters.
#[derive(Debug, Clone, Copy, PartialEq, Eq)]
pub enum FlowControl {
    NoFlowControl,
    RtsCts,
    DtrDsr,
    XonXoff((u8, u8)),
}

/// The driver's code for a flow control mode.
pub open spec fn flow_control_code(c: FlowControl) -> u16 {
    match c {
        FlowControl::NoFlowControl => 0x0000u16,
        FlowControl::RtsCts => 0x0100u16,
        FlowControl::DtrDsr => 0x0200u16,
        FlowControl::XonXoff(_) => 0x0300u16,
    }
}

impl From<FlowControl> for u16 {
    fn from(c: FlowControl) -> (r: Self) {
        match c {
            FlowControl::NoFlowControl => 0x0000,
            FlowControl::RtsCts => 0x0100,
            FlowControl::DtrDsr => 0x0200,
            FlowControl::XonXoff(_) => 0x0300,
        }
    }
}

impl vstd::std_specs::convert::FromSpecImpl<FlowControl> for u16 {
    open spec fn obeys_from_spec() -> bool {
        true
    }

    open spec fn from_spec(c: FlowControl) -> Self {
        flow_control_code(c)
    }
}

impl FlowControl {
    /// The XON and XOFF characters handed to the driver: those of software
    /// flow control, zero for the other modes.
    pub fn xon_xoff(&self) -> (r: (u8, u8))
        ensures
            r == (match self {
                FlowControl::XonXoff(p) => *p,
                _ => (0u8, 0u8),
            }),
    {
        match self {
            FlowControl::XonXoff(p) => *p,
            _ => (0, 0),
        }
    }
}


/// One record of the driver's device list, as the driver fills it: the two
/// texts are nul-terminated byte buffers.
pub struct RawDeviceInfo {
    pub flags: u32,
    pub device_type: u32,
    pub id: u32,
    pub location_id: u32,
    pub serial_number: [u8; 16],
    pub description: [u8; 64],
}

/// An attached adapter, as listed for the operator.
#[derive(Debug)]
pub struct DeviceListInfoNode {
    pub flags: u32,
    pub device_type: u32,
    pub id: u32,
    pub location_id: u32,
    pub serial_number: String,
    pub description: String,
}

/// Bit of `DeviceListInfoNode::flags`: the device is open.
pub const DEVICE_OPENED: u32 = 1;

/// Bit of `DeviceListInfoNode::flags`: the device is a high-speed one.
pub const DEVICE_HISPEED: u32 = 2;

/// `n` is where the text in `b` ends: at its first nul byte, or at the end
/// of the buffer when it holds none.
pub open spec fn is_text_end(b: Seq<u8>, n: int) -> bool {
    &&& 0 <= n <= b.len()
    &&& forall|i: int| 0 <= i < n ==> b[i] != 0
    &&& n < b.len() ==> b[n] == 0
}

/// The bytes of `b` before its first nul byte.
pub open spec fn nul_terminated(b: Seq<u8>) -> Seq<u8> {
    b.take(choose|n: int| is_text_end(b, n))
}

/// What `String::from_utf8_lossy` makes of a byte sequence.
pub uninterp spec fn lossy_text(b: Seq<u8>) -> Seq<char>;

/// Relies on `String::from_utf8_lossy`: the text the bytes encode, each
/// invalid UTF-8 sequence replaced; ASCII bytes are valid UTF-8 and decode
/// to the characters of the same codes.
#[verifier::external_body]
fn lossy_utf8(b: &[u8]) -> (r: String)
    ensures
        r@ == lossy_text(b@),
        (forall|i: int| 0 <= i < b@.len() ==> b@[i] < 128) ==> r@ == b@.map_values(
            |c: u8| c as char,
        ),
{
    String::from_utf8_lossy(b).into_owned()
}

proof fn lemma_text_end_unique(b: Seq<u8>, n: int, m: int)
    requires
        is_text_end(b, n),
        is_text_end(b, m),
    ensures
        n == m,
{
    if n < m {
        assert(b[n] != 0);
    } else if m < n {
        assert(b[m] != 0);
    }
}

/// The bytes of a nul-terminated buffer up to its first nul byte.
pub fn until_nul(b: &[u8]) -> (r: Vec<u8>)
    ensures
        r@ == nul_terminated(b@),
{
    let mut r: Vec<u8> = Vec::new();
    let mut i: usize = 0;
    while i < b.len() && b[i] != 0
        invariant
            i <= b@.len(),
            r@ == b@.take(i as int),
            forall|j: int| 0 <= j < i ==> b@[j] != 0,
        decreases b@.len() - i,
    {
        r.push(b[i]);
        i = i + 1;
        assert(r@ =~= b@.take(i as int));
    }
    proof {
        assert(is_text_end(b@, i as int));
        let n = choose|n: int| is_text_end(b@, n);
        lemma_text_end_unique(b@, n, i as int);
    }
    r
}

/// The operator's view of one driver record.
pub open spec fn node_matches(node: DeviceListInfoNode, raw: RawDeviceInfo) -> bool {
    &&& node.flags == raw.flags
    &&& node.device_type == raw.device_type
    &&& node.id == raw.id
    &&& node.location_id == raw.location_id
    &&& node.serial_number@ == lossy_text(nul_terminated(raw.serial_number@))
    &&& node.description@ == lossy_text(nul_terminated(raw.description@))
}

impl DeviceListInfoNode {
    /// Reads one driver record: the texts end at their first nul byte.
    pub fn from_raw(raw: &RawDeviceInfo) -> (r: DeviceListInfoNode)
        ensures
            node_matches(r, *raw),
    {
        let serial = until_nul(raw.serial_number.as_slice());
        let description = until_nul(raw.description.as_slice());
        DeviceListInfoNode {
            flags: raw.flags,
            device_type: raw.device_type,
            id: raw.id,
            location_id: raw.location_id,
            serial_number: lossy_utf8(serial.as_slice()),
            description: lossy_utf8(description.as_slice()),
        }
    }
}

/// Reads the driver's device list: `reported` is the count the driver gave
/// when it filled `raw`, which is believed only as far as `raw` reaches.
pub fn device_nodes(raw: &[RawDeviceInfo], reported: usize) -> (r: Vec<DeviceListInfoNode>)
    ensures
        r@.len() == (if reported < raw@.len() { reported as int } else { raw@.len() as int }),
        forall|i: int| 0 <= i < r@.len() ==> node_matches(#[trigger] r@[i], raw@[i]),
{
    let count: usize = if reported < raw.len() {
        reported
    } else {
        raw.len()
    };
    let mut r: Vec<DeviceListInfoNode> = Vec::new();
    let mut i: usize = 0;
    while i < count
        invariant
            count <= raw@.len(),
            i <= count,
            r@.len() == i,
            forall|j: int| 0 <= j < i ==> node_matches(#[trigger] r@[j], raw@[j]),
        decreases count - i,
    {
        r.push(DeviceListInfoNode::from_raw(&raw[i]));
        i = i + 1;
    }
    r
}

} // verus!
