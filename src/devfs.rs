use crate::usbtypes::{request_type, request_type_byte, SetupDirection, SetupRecipient, SetupType};
use vstd::prelude::*;

verus! {

/// The kind of a transfer, as the request block's type byte names it.
#[derive(Debug, Copy, Clone, PartialEq, Eq, Structural)]
pub enum UrbType {
    Iso,
    Interrupt,
    Control,
    Bulk,
}

impl UrbType {
    pub open spec fn spec_code(self) -> u8 {
        match self {
            UrbType::Iso => 0,
            UrbType::Interrupt => 1,
            UrbType::Control => 2,
            UrbType::Bulk => 3,
        }
    }

    /// The type byte of a request block of this kind.
    pub fn code(self) -> (r: u8)
        ensures
            r == self.spec_code(),
    {
        match self {
            UrbType::Iso => 0,
            UrbType::Interrupt => 1,
            UrbType::Control => 2,
            UrbType::Bulk => 3,
        }
    }
}

/// Fail a short read instead of accepting it.
pub const URB_SHORT_NOT_OK: u32 = 0x01;

/// Schedule an isochronous request as soon as possible.
pub const URB_ISO_ASAP: u32 = 0x02;

/// A bulk request continues the previous one.
pub const URB_BULK_CONTINUATION: u32 = 0x04;

/// No full-speed bandwidth reclamation.
pub const URB_NO_FSBR: u32 = 0x20;

/// End an OUT request whose length is a multiple of the packet size with a zero-length packet.
pub const URB_ZERO_PACKET: u32 = 0x40;

/// No completion interrupt is needed.
pub const URB_NO_INTERRUPT: u32 = 0x80;

/// Every flag bit that a request block may carry.
pub const URB_ALL_FLAGS: u32 = 0xe7;

/// The flag bits of a request block.
#[derive(Debug, Copy, Clone, PartialEq, Eq, Structural)]
pub struct UrbFlags {
    pub bits: u32,
}

impl UrbFlags {
    /// No flag set.
    pub fn empty() -> (r: UrbFlags)
        ensures
            r.bits == 0,
    {
        UrbFlags { bits: 0 }
    }

    /// The flags among `bits` that a request block knows; other bits are dropped.
    pub fn from_bits_truncate(bits: u32) -> (r: UrbFlags)
        ensures
            r.bits == bits & URB_ALL_FLAGS,
    {
        UrbFlags { bits: bits & URB_ALL_FLAGS }
    }

    /// The raw flag bits.
    pub fn bits(&self) -> (r: u32)
        ensures
            r == self.bits,
    {
        self.bits
    }
}

/// Status of a request block or packet that has not completed yet (-EINVAL).
pub const STATUS_UNSET: i32 = -22;

/// A USB request block, as handed to the kernel.
///
/// The data buffer that the kernel reads or writes is bound when the request is issued;
/// the block carries its length. `status`, `actual_length`, `start_frame` and
/// `error_count` are filled in by the kernel on completion. `usercontext` is the
/// correlation tag that comes back with the completion.
#[derive(Debug, Copy, Clone, PartialEq, Eq, Structural)]
pub struct Urb {
    pub urbtype: u8,
    pub endpoint: u8,
    pub status: i32,
    pub flags: UrbFlags,
    pub buffer_length: i32,
    pub actual_length: i32,
    pub start_frame: i32,
    pub number_of_packets: i32,
    pub error_count: i32,
    pub signr: u32,
    pub usercontext: usize,
}

/// A fresh request block: the given kind, endpoint and flags, status unset, all else zero.
pub open spec fn fresh_urb(urbtype: u8, endpoint: u8, flags: UrbFlags) -> Urb {
    Urb {
        urbtype,
        endpoint,
        status: STATUS_UNSET,
        flags,
        buffer_length: 0,
        actual_length: 0,
        start_frame: 0,
        number_of_packets: 0,
        error_count: 0,
        signr: 0,
        usercontext: 0,
    }
}

impl Urb {
    /// A request block of kind `urbtype` on `endpoint`; its status reads as unset until
    /// the kernel completes it.
    pub fn new(urbtype: UrbType, endpoint: u8, flags: UrbFlags) -> (r: Urb)
        ensures
            r == fresh_urb(urbtype.spec_code(), endpoint, flags),
    {
        Urb {
            urbtype: urbtype.code(),
            endpoint,
            status: STATUS_UNSET,
            flags,
            buffer_length: 0,
            actual_length: 0,
            start_frame: 0,
            number_of_packets: 0,
            error_count: 0,
            signr: 0,
            usercontext: 0,
        }
    }
}

/// The request block after the kernel reported completion `c` for it.
pub open spec fn completed(u: Urb, c: Completion) -> Urb {
    Urb {
        status: c.status,
        actual_length: c.actual_length,
        start_frame: c.start_frame,
        error_count: c.error_count,
        ..u
    }
}

/// The request block bound to a buffer of `len` bytes.
pub open spec fn with_buffer_length(u: Urb, len: int) -> Urb {
    Urb { buffer_length: len as i32, ..u }
}

impl Urb {
    /// Records the status, lengths and error count of a completion.
    pub fn record_completion(&mut self, c: &Completion)
        ensures
            *final(self) == completed(*old(self), *c),
    {
        self.status = c.status;
        self.actual_length = c.actual_length;
        self.start_frame = c.start_frame;
        self.error_count = c.error_count;
    }
}

impl Default for Urb {
    fn default() -> (r: Urb)
        ensures
            r == fresh_urb(UrbType::Control.spec_code(), 0, UrbFlags { bits: 0 }),
    {
        Urb::new(UrbType::Control, 0, UrbFlags::empty())
    }
}

/// One packet of an isochronous request: the length asked for, the length moved, and
/// the packet's status.
#[derive(Debug, Copy, Clone, PartialEq, Eq, Structural)]
pub struct IsoPacketDesc {
    pub length: i32,
    pub actual_length: i32,
    pub status: i32,
}

/// A packet descriptor before use: no length, status unset.
pub open spec fn fresh_packet() -> IsoPacketDesc {
    IsoPacketDesc { length: 0, actual_length: 0, status: STATUS_UNSET }
}

impl Default for IsoPacketDesc {
    fn default() -> (r: IsoPacketDesc)
        ensures
            r == fresh_packet(),
    {
        IsoPacketDesc { length: 0, actual_length: 0, status: STATUS_UNSET }
    }
}

/// What the kernel reports when a request block completes.
#[derive(Debug)]
pub struct Completion {
    pub status: i32,
    pub actual_length: i32,
    pub start_frame: i32,
    pub error_count: i32,
    /// The packet descriptors of an isochronous request, in order; empty for other kinds.
    pub packets: Vec<IsoPacketDesc>,
}

/// A synchronous control request: the setup fields and a timeout in milliseconds.
/// The data stage, `wLength` bytes long, is bound when the request is issued.
#[allow(non_snake_case)]
#[derive(Debug, Copy, Clone, PartialEq, Eq, Structural)]
pub struct CtrlTransfer {
    pub bmRequestType: u8,
    pub bRequest: u8,
    pub wValue: u16,
    pub wIndex: u16,
    pub wLength: u16,
    pub timeout: u32,
}

impl CtrlTransfer {
    /// A control request with a data stage of `data_len` bytes (zero for none).
    pub fn new(
        direction: SetupDirection,
        stype: SetupType,
        recipient: SetupRecipient,
        request: u8,
        value: u16,
        index: u16,
        data_len: usize,
        timeout_ms: u32,
    ) -> (r: CtrlTransfer)
        requires
            data_len <= u16::MAX,
        ensures
            r.bmRequestType == request_type(direction, stype, recipient),
            r.bRequest == request,
            r.wValue == value,
            r.wIndex == index,
            r.wLength == data_len,
            r.timeout == timeout_ms,
    {
        CtrlTransfer {
            bmRequestType: request_type_byte(direction, stype, recipient),
            bRequest: request,
            wValue: value,
            wIndex: index,
            wLength: data_len as u16,
            timeout: timeout_ms,
        }
    }
}

/// Selects alternate setting `altsetting` of interface `interface`.
#[derive(Debug, Copy, Clone, PartialEq, Eq, Structural)]
pub struct SetInterface {
    pub interface: u32,
    pub altsetting: u32,
}

#[verifier::external_type_specification]
#[verifier::external_body]
pub struct ExErrno(nix::errno::Errno);

/// The errno number for a value too large for its destination.
pub const EOVERFLOW: i32 = 75;

/// The error that nix names by errno number `code`.
pub uninterp spec fn errno_of(code: i32) -> nix::errno::Errno;

/// Relies on nix::errno::Errno::from_i32: the error named by an errno number, which
/// depends on the number alone.
#[verifier::external_body]
pub(crate) fn errno_from_code(code: i32) -> (r: nix::errno::Errno)
    ensures
        r == errno_of(code),
{
    nix::errno::Errno::from_i32(code)
}

/// The errno number of a negative completion status; a status that has no negation
/// in `i32` names no errno and maps to 0.
pub open spec fn status_errno(status: i32) -> i32 {
    if status == i32::MIN {
        0
    } else {
        (-status) as i32
    }
}

/// A completion status as a result: success when it is not negative, else the error
/// whose errno number is its negation.
pub fn status_to_nixresult(status: i32) -> (r: Result<(), nix::errno::Errno>)
    ensures
        status >= 0 ==> r == Ok::<(), nix::errno::Errno>(()),
        status < 0 ==> r == Err::<(), nix::errno::Errno>(errno_of(status_errno(status))),
{
    if status >= 0 {
        Ok(())
    } else if status == i32::MIN {
        Err(errno_from_code(0))
    } else {
        Err(errno_from_code(-status))
    }
}

} // verus!
