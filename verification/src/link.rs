//! Decisions of the VEXLink radio driver.
//!
//! VEXLink is a point-to-point wireless link between two radios, one on a
//! "manager" robot and one on a "worker" robot. The driver reads the radio's
//! registers and hands what it read to the functions here, which decide what
//! the caller is told.

use vstd::prelude::*;
use vstd::string::StringSliceAdditionalSpecFns;

verus! {

/// Message for a port with nothing plugged in.
pub const PORT_MISSING: &'static str = "Port does not exist.";

/// Message for a port that holds another kind of device.
pub const PORT_IN_USE: &'static str = "Port is in use as another device.";

/// Message for a radio that has no partner.
pub const NOT_LINKED: &'static str = "Radio is not linked!";

/// Message for a failed read.
pub const READ_FAILED: &'static str = "Internal read error occurred.";

/// Message for a failed write.
pub const WRITE_FAILED: &'static str = "Internal write error occurred.";

/// The value with which the radio reports that a transfer failed.
pub const TRANSFER_FAILED: i32 = -1;

/// The kind of device that a smart port holds.
#[derive(Debug, Clone, Copy, PartialEq, Eq, Structural)]
pub enum SmartDeviceType {
    /// A smart motor.
    Motor,
    /// An inertial sensor.
    Imu,
    /// A VEXnet radio.
    Radio,
    /// A port used as a plain serial line.
    GenericSerial,
    /// Any other kind of device, by the number under which the system
    /// knows it.
    Other(u8),
}

/// Errors of a smart port.
#[derive(Debug, Clone, Copy, PartialEq, Eq, Structural)]
pub enum PortError {
    /// Nothing is plugged into the port.
    Disconnected,
    /// The port holds a device of another kind.
    IncorrectDevice,
}

/// The role of this end of a radio link.
#[derive(Debug, Clone, Copy, Eq, PartialEq, Structural)]
pub enum LinkType {
    /// Manager radio: 1040 bytes/sec towards a worker radio.
    Manager,
    /// Worker radio: 520 bytes/sec towards a manager radio.
    Worker,
}

/// Errors that can occur when interacting with a radio link.
#[derive(Debug, Clone, Copy, PartialEq, Eq, Structural)]
pub enum LinkError {
    /// Not linked with another radio.
    NotLinked,
    /// Internal write error occurred.
    WriteFailed,
    /// Internal read error occurred.
    ReadFailed,
    /// The link's name holds a NUL byte.
    NonTerminatingNul,
    /// Generic port related error.
    Port {
        /// The source of the error.
        source: PortError,
    },
}

/// The kind of an I/O failure on the link.
#[derive(Debug, Clone, Copy, PartialEq, Eq, Structural)]
pub enum IoErrorKind {
    /// The port is empty.
    AddrNotAvailable,
    /// The port holds another device.
    AddrInUse,
    /// The radio has no partner.
    NotConnected,
    /// The radio reported a failed read.
    InvalidData,
    /// The radio reported a failed write.
    Other,
}

/// An I/O failure on the link: its kind and the message for the user.
#[derive(Debug, Clone, Copy)]
pub struct IoFailure {
    pub kind: IoErrorKind,
    pub message: &'static str,
}

impl LinkType {
    /// The number by which the radio knows this role: 1 for the manager, 0
    /// for the worker.
    pub open spec fn spec_code(self) -> u8 {
        match self {
            LinkType::Worker => 0,
            LinkType::Manager => 1,
        }
    }

    /// The number by which the radio knows this role.
    pub fn code(self) -> (c: u8)
        ensures
            c == self.spec_code(),
    {
        match self {
            LinkType::Worker => 0,
            LinkType::Manager => 1,
        }
    }
}

/// What `validate_type` answers for a port that holds `plugged` where
/// `expected` is wanted.
pub open spec fn spec_validate_type(
    plugged: Option<SmartDeviceType>,
    expected: SmartDeviceType,
) -> Result<(), PortError> {
    match plugged {
        None => Err(PortError::Disconnected),
        Some(kind) => if kind == expected {
            Ok(())
        } else {
            Err(PortError::IncorrectDevice)
        },
    }
}

/// Checks that a port holds a device of the kind `expected`; `plugged` is
/// what the port reports, `None` for an empty port.
pub fn validate_type(plugged: Option<SmartDeviceType>, expected: SmartDeviceType) -> (r: Result<
    (),
    PortError,
>)
    ensures
        r == spec_validate_type(plugged, expected),
{
    match plugged {
        None => Err(PortError::Disconnected),
        Some(kind) => if kind == expected {
            Ok(())
        } else {
            Err(PortError::IncorrectDevice)
        },
    }
}

/// Whether the bytes `id` hold a NUL byte.
pub open spec fn has_nul(id: Seq<u8>) -> bool {
    exists|i: int| 0 <= i < id.len() && id[i] == 0u8
}

/// What the radio is told when a link is opened, beside the name of the
/// link.
#[derive(Debug, Clone, Copy, PartialEq, Eq, Structural)]
pub struct OpenRequest {
    /// The role of this end, as `LinkType::code` gives it.
    pub role: u8,
    /// Whether other uses of the radio are switched off.
    pub exclusive: bool,
}

/// What opening a link on a port that holds `plugged` comes to.
pub open spec fn spec_open(plugged: Option<SmartDeviceType>, id: Seq<u8>, link_type: LinkType) -> Result<
    OpenRequest,
    LinkError,
> {
    match spec_validate_type(plugged, SmartDeviceType::Radio) {
        Err(source) => Err(LinkError::Port { source }),
        Ok(_) => if has_nul(id) {
            Err(LinkError::NonTerminatingNul)
        } else {
            Ok(OpenRequest { role: link_type.spec_code(), exclusive: true })
        },
    }
}

/// Decides whether a link named `id` can be opened on a port that holds
/// `plugged`, and with what request. The port must hold a radio; that is
/// checked first. The name must be free of NUL bytes.
pub fn open(plugged: Option<SmartDeviceType>, id: &str, link_type: LinkType) -> (r: Result<
    OpenRequest,
    LinkError,
>)
    ensures
        r == spec_open(plugged, id.spec_bytes(), link_type),
{
    match validate_type(plugged, SmartDeviceType::Radio) {
        Err(source) => {
            return Err(LinkError::Port { source });
        },
        Ok(_) => {},
    }
    let bytes = id.as_bytes();
    let n = bytes.len();
    let mut i: usize = 0;
    while i < n
        invariant
            n == bytes@.len(),
            i <= n,
            bytes@ == id.spec_bytes(),
            spec_validate_type(plugged, SmartDeviceType::Radio).is_ok(),
            forall|j: int| 0 <= j < i ==> bytes@[j] != 0u8,
        decreases n - i,
    {
        if bytes[i] == 0 {
            assert(has_nul(bytes@)) by {
                assert(bytes@[i as int] == 0u8);
            }
            return Err(LinkError::NonTerminatingNul);
        }
        i += 1;
    }
    Ok(OpenRequest { role: link_type.code(), exclusive: true })
}

/// The number of bytes that wait in the radio's input buffer, where the
/// port check gave `port` and the radio reports `available`.
pub fn unread_bytes(port: Result<(), PortError>, available: i32) -> (r: Result<usize, LinkError>)
    ensures
        r == match port {
            Err(source) => Err::<usize, LinkError>(LinkError::Port { source }),
            Ok(_) => Ok(available as usize),
        },
{
    match port {
        Err(source) => Err(LinkError::Port { source }),
        Ok(_) => Ok(
            #[verifier::truncate]
            (available as usize),
        ),
    }
}

/// The number of bytes free in the radio's output buffer, where the port
/// check gave `port` and the radio reports `free`; the radio reports a
/// failure as -1.
pub fn available_write_bytes(port: Result<(), PortError>, free: i32) -> (r: Result<
    usize,
    LinkError,
>)
    ensures
        r == match port {
            Err(source) => Err::<usize, LinkError>(LinkError::Port { source }),
            Ok(_) => if free == TRANSFER_FAILED {
                Err(LinkError::ReadFailed)
            } else {
                Ok(free as usize)
            },
        },
{
    match port {
        Err(source) => Err(LinkError::Port { source }),
        Ok(_) => if free == TRANSFER_FAILED {
            Err(LinkError::ReadFailed)
        } else {
            Ok(
                #[verifier::truncate]
                (free as usize),
            )
        },
    }
}

/// Whether a link is established, where the port check gave `port` and the
/// radio reports `linked`.
pub fn is_linked(port: Result<(), PortError>, linked: bool) -> (r: Result<bool, LinkError>)
    ensures
        r == match port {
            Err(source) => Err::<bool, LinkError>(LinkError::Port { source }),
            Ok(_) => Ok(linked),
        },
{
    match port {
        Err(source) => Err(LinkError::Port { source }),
        Ok(_) => Ok(linked),
    }
}

/// The kind and message of the failure that keeps a transfer from
/// starting, if there is one: a port error, or a radio without partner.
pub open spec fn transfer_barrier(status: Result<bool, PortError>) -> Option<
    (IoErrorKind, Seq<char>),
> {
    match status {
        Err(PortError::Disconnected) => Some((IoErrorKind::AddrNotAvailable, PORT_MISSING@)),
        Err(PortError::IncorrectDevice) => Some((IoErrorKind::AddrInUse, PORT_IN_USE@)),
        Ok(false) => Some((IoErrorKind::NotConnected, NOT_LINKED@)),
        Ok(true) => None,
    }
}

/// Decides whether a transfer may start on a link whose status is `status`.
fn check_linked(status: Result<bool, PortError>) -> (r: Result<(), IoFailure>)
    ensures
        r.is_ok() <==> transfer_barrier(status).is_none(),
        r matches Err(e) ==> transfer_barrier(status) == Some((e.kind, e.message@)),
{
    match status {
        Err(PortError::Disconnected) => Err(
            IoFailure { kind: IoErrorKind::AddrNotAvailable, message: PORT_MISSING },
        ),
        Err(PortError::IncorrectDevice) => Err(
            IoFailure { kind: IoErrorKind::AddrInUse, message: PORT_IN_USE },
        ),
        Ok(false) => Err(IoFailure { kind: IoErrorKind::NotConnected, message: NOT_LINKED }),
        Ok(true) => Ok(()),
    }
}

/// The number of bytes that the radio is asked to move for a buffer of
/// `len` bytes: the low 16 bits of the length.
pub fn request_len(len: usize) -> (n: u16)
    ensures
        n == len as u16,
{
    #[verifier::truncate]
    (len as u16)
}

/// What a flush returns, where the link's status is `status`: nothing is
/// buffered on this side, so it succeeds whenever the link is up, and else
/// reports why it is not.
pub fn flush(status: Result<bool, PortError>) -> (r: Result<(), IoFailure>)
    ensures
        r.is_ok() <==> status == Ok::<bool, PortError>(true),
        r matches Err(e) ==> transfer_barrier(status) == Some((e.kind, e.message@)),
{
    check_linked(status)
}

/// What a read returns, where the link's status is `status` and the radio
/// answered the request with `received`: the failure that kept the read
/// from starting, a failed read for -1, and else the number of bytes read.
/// `received` is looked at only where the link is up.
pub fn read(status: Result<bool, PortError>, received: i32) -> (r: Result<usize, IoFailure>)
    ensures
        r.is_ok() <==> status == Ok::<bool, PortError>(true) && received != TRANSFER_FAILED,
        r matches Ok(n) ==> n == received as usize,
        r matches Err(e) ==> if status == Ok::<bool, PortError>(true) {
            e.kind == IoErrorKind::InvalidData && e.message@ == READ_FAILED@
        } else {
            transfer_barrier(status) == Some((e.kind, e.message@))
        },
{
    match check_linked(status) {
        Err(e) => Err(e),
        Ok(_) => if received == TRANSFER_FAILED {
            Err(IoFailure { kind: IoErrorKind::InvalidData, message: READ_FAILED })
        } else {
            Ok(
                #[verifier::truncate]
                (received as usize),
            )
        },
    }
}

/// What a write returns, where the link's status is `status` and the radio
/// answered the request with `written`: the failure that kept the write
/// from starting, a failed write for -1, and else the number of bytes
/// written. `written` is looked at only where the link is up.
pub fn write(status: Result<bool, PortError>, written: i32) -> (r: Result<usize, IoFailure>)
    ensures
        r.is_ok() <==> status == Ok::<bool, PortError>(true) && written != TRANSFER_FAILED,
        r matches Ok(n) ==> n == written as usize,
        r matches Err(e) ==> if status == Ok::<bool, PortError>(true) {
            e.kind == IoErrorKind::Other && e.message@ == WRITE_FAILED@
        } else {
            transfer_barrier(status) == Some((e.kind, e.message@))
        },
{
    match check_linked(status) {
        Err(e) => Err(e),
        Ok(_) => if written == TRANSFER_FAILED {
            Err(IoFailure { kind: IoErrorKind::Other, message: WRITE_FAILED })
        } else {
            Ok(
                #[verifier::truncate]
                (written as usize),
            )
        },
    }
}

/// The kind of device that a port reports once a link is open on it.
pub fn device_type() -> (kind: SmartDeviceType)
    ensures
        kind == SmartDeviceType::GenericSerial,
{
    SmartDeviceType::GenericSerial
}

} // verus!
