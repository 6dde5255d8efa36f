use crate::asyncdevice::Transfer;
use crate::devfs::{completed, fresh_urb, with_buffer_length, Completion, IsoPacketDesc, Urb, UrbFlags, UrbType};
use crate::usbtypes::{
    request_type, setup_bytes, write_setup_struct, BusEndian, Setup, SetupDirection,
    SetupRecipient, SetupType,
};
use vstd::prelude::*;

verus! {

/// Whether a buffer of `len` bytes can be bound to a request block.
pub open spec fn fits_urb(len: int) -> bool {
    len <= i32::MAX
}

/// Whether `endpoint` is an OUT endpoint (bit 7 clear).
pub open spec fn is_out_endpoint(endpoint: u8) -> bool {
    endpoint & 0x80 == 0
}

/// Control transfer on a buffer that is both read and written. The first eight bytes of
/// the buffer hold the setup packet, written when the transfer is wired; the payload
/// follows.
pub struct ControlTransferMut {
    pub urb: Urb,
    pub setup: Setup<BusEndian>,
    pub buf: Vec<u8>,
}

impl ControlTransferMut {
    /// A control request whose payload length is taken from the buffer when it is wired.
    pub fn new(
        direction: SetupDirection,
        stype: SetupType,
        recipient: SetupRecipient,
        request: u8,
        value: u16,
        index: u16,
        flags: UrbFlags,
        buf: Vec<u8>,
    ) -> (r: ControlTransferMut)
        ensures
            r.urb == fresh_urb(UrbType::Control.spec_code(), 0, flags),
            r.setup.bmRequestType == request_type(direction, stype, recipient),
            r.setup.bRequest == request,
            r.setup.wValue == value,
            r.setup.wIndex == index,
            r.setup.wLength == 0,
            r.buf == buf,
    {
        let setup: Setup<BusEndian> = Setup::new(
            direction,
            stype,
            recipient,
            request,
            value,
            index,
            0,
        ).into();
        let urb = Urb::new(UrbType::Control, 0, flags);
        ControlTransferMut { urb, setup, buf }
    }

    /// The part of the buffer after the setup packet.
    pub fn payload(&self) -> (r: &[u8])
        requires
            self.buf@.len() >= 8,
        ensures
            r@ == self.buf@.subrange(8, self.buf@.len() as int),
    {
        let (_, tail) = self.buf.as_slice().split_at(8);
        tail
    }

    /// The part of the buffer after the setup packet, to write into.
    pub fn payload_mut(&mut self) -> (r: &mut [u8])
        requires
            old(self).buf@.len() >= 8,
        ensures
            r@ == old(self).buf@.subrange(8, old(self).buf@.len() as int),
            final(self).buf@ == old(self).buf@.subrange(0, 8) + final(r)@,
            final(self).urb == old(self).urb,
            final(self).setup == old(self).setup,
    {
        let (_, tail) = self.buf.as_mut_slice().split_at_mut(8);
        tail
    }
}

impl Transfer for ControlTransferMut {
    open spec fn wire_ready(&self) -> bool {
        &&& self.buf@.len() >= 8
        &&& self.buf@.len() - 8 <= u16::MAX
    }

    open spec fn wire_post(before: Self, after: Self, urb: Urb) -> bool {
        let len = before.buf@.len();
        &&& after.setup == Setup::<BusEndian> { wLength: (len - 8) as u16, ..before.setup }
        &&& after.buf@ == setup_bytes(after.setup) + before.buf@.subrange(8, len as int)
        &&& after.urb == with_buffer_length(before.urb, len as int)
        &&& urb == after.urb
    }

    open spec fn complete_post(before: Self, c: Completion, after: Self) -> bool {
        &&& after == ControlTransferMut { urb: completed(before.urb, c), buf: after.buf, ..before }
        &&& after.buf@.len() == before.buf@.len()
    }

    open spec fn packets(&self) -> Seq<IsoPacketDesc> {
        Seq::empty()
    }

    open spec fn buffer(&self) -> Vec<u8> {
        self.buf
    }

    open spec fn with_buffer(self, b: Vec<u8>) -> Self {
        ControlTransferMut { buf: b, ..self }
    }

    fn is_wire_ready(&self) -> (r: bool) {
        self.buf.len() >= 8 && self.buf.len() - 8 <= 0xffff
    }

    fn wire_urb(&mut self) -> (r: Urb) {
        let len = self.buf.len();
        self.setup.wLength = (len - 8) as u16;
        write_setup_struct(&self.setup, &mut self.buf);
        self.urb.buffer_length = len as i32;
        self.urb
    }

    fn packet_descs(&self) -> Vec<IsoPacketDesc> {
        Vec::new()
    }

    fn buffer_mut(&mut self) -> &mut Vec<u8> {
        &mut self.buf
    }

    fn complete(&mut self, c: &Completion) {
        self.urb.record_completion(c);
    }
}


/// Bulk transfer on a buffer that is only read: OUT endpoints only.
pub struct BulkTransfer {
    pub urb: Urb,
    pub buf: Vec<u8>,
}

impl BulkTransfer {
    /// A bulk transfer to OUT endpoint `endpoint`.
    pub fn new(endpoint: u8, flags: UrbFlags, buf: Vec<u8>) -> (r: BulkTransfer)
        requires
            is_out_endpoint(endpoint),
        ensures
            r.urb == fresh_urb(UrbType::Bulk.spec_code(), endpoint, flags),
            r.buf == buf,
    {
        BulkTransfer { urb: Urb::new(UrbType::Bulk, endpoint, flags), buf }
    }
}

impl Transfer for BulkTransfer {
    open spec fn wire_ready(&self) -> bool {
        fits_urb(self.buf@.len() as int)
    }

    open spec fn wire_post(before: Self, after: Self, urb: Urb) -> bool {
        &&& after.buf == before.buf
        &&& after.urb == with_buffer_length(before.urb, before.buf@.len() as int)
        &&& urb == after.urb
    }

    open spec fn complete_post(before: Self, c: Completion, after: Self) -> bool {
        &&& after == BulkTransfer { urb: completed(before.urb, c), buf: after.buf, ..before }
        &&& after.buf@.len() == before.buf@.len()
    }

    open spec fn packets(&self) -> Seq<IsoPacketDesc> {
        Seq::empty()
    }

    open spec fn buffer(&self) -> Vec<u8> {
        self.buf
    }

    open spec fn with_buffer(self, b: Vec<u8>) -> Self {
        BulkTransfer { buf: b, ..self }
    }

    fn is_wire_ready(&self) -> (r: bool) {
        self.buf.len() <= 0x7fff_ffff
    }

    fn wire_urb(&mut self) -> (r: Urb) {
        self.urb.buffer_length = self.buf.len() as i32;
        self.urb
    }

    fn packet_descs(&self) -> Vec<IsoPacketDesc> {
        Vec::new()
    }

    fn buffer_mut(&mut self) -> &mut Vec<u8> {
        &mut self.buf
    }

    fn complete(&mut self, c: &Completion) {
        self.urb.record_completion(c);
    }
}

/// Bulk transfer on a buffer that is read or written: IN and OUT endpoints.
pub struct BulkTransferMut {
    pub urb: Urb,
    pub buf: Vec<u8>,
}

impl BulkTransferMut {
    /// A bulk transfer on `endpoint`.
    pub fn new(endpoint: u8, flags: UrbFlags, buf: Vec<u8>) -> (r: BulkTransferMut)
        ensures
            r.urb == fresh_urb(UrbType::Bulk.spec_code(), endpoint, flags),
            r.buf == buf,
    {
        BulkTransferMut { urb: Urb::new(UrbType::Bulk, endpoint, flags), buf }
    }
}

impl Transfer for BulkTransferMut {
    open spec fn wire_ready(&self) -> bool {
        fits_urb(self.buf@.len() as int)
    }

    open spec fn wire_post(before: Self, after: Self, urb: Urb) -> bool {
        &&& after.buf == before.buf
        &&& after.urb == with_buffer_length(before.urb, before.buf@.len() as int)
        &&& urb == after.urb
    }

    open spec fn complete_post(before: Self, c: Completion, after: Self) -> bool {
        &&& after == BulkTransferMut { urb: completed(before.urb, c), buf: after.buf, ..before }
        &&& after.buf@.len() == before.buf@.len()
    }

    open spec fn packets(&self) -> Seq<IsoPacketDesc> {
        Seq::empty()
    }

    open spec fn buffer(&self) -> Vec<u8> {
        self.buf
    }

    open spec fn with_buffer(self, b: Vec<u8>) -> Self {
        BulkTransferMut { buf: b, ..self }
    }

    fn is_wire_ready(&self) -> (r: bool) {
        self.buf.len() <= 0x7fff_ffff
    }

    fn wire_urb(&mut self) -> (r: Urb) {
        self.urb.buffer_length = self.buf.len() as i32;
        self.urb
    }

    fn packet_descs(&self) -> Vec<IsoPacketDesc> {
        Vec::new()
    }

    fn buffer_mut(&mut self) -> &mut Vec<u8> {
        &mut self.buf
    }

    fn complete(&mut self, c: &Completion) {
        self.urb.record_completion(c);
    }
}

/// Interrupt transfer on a buffer that is only read: OUT endpoints only.
pub struct InterruptTransfer {
    pub urb: Urb,
    pub buf: Vec<u8>,
}

impl InterruptTransfer {
    /// An interrupt transfer to OUT endpoint `endpoint`.
    pub fn new(endpoint: u8, flags: UrbFlags, buf: Vec<u8>) -> (r: InterruptTransfer)
        requires
            is_out_endpoint(endpoint),
        ensures
            r.urb == fresh_urb(UrbType::Interrupt.spec_code(), endpoint, flags),
            r.buf == buf,
    {
        InterruptTransfer { urb: Urb::new(UrbType::Interrupt, endpoint, flags), buf }
    }
}

impl Transfer for InterruptTransfer {
    open spec fn wire_ready(&self) -> bool {
        fits_urb(self.buf@.len() as int)
    }

    open spec fn wire_post(before: Self, after: Self, urb: Urb) -> bool {
        &&& after.buf == before.buf
        &&& after.urb == with_buffer_length(before.urb, before.buf@.len() as int)
        &&& urb == after.urb
    }

    open spec fn complete_post(before: Self, c: Completion, after: Self) -> bool {
        &&& after == InterruptTransfer { urb: completed(before.urb, c), buf: after.buf, ..before }
        &&& after.buf@.len() == before.buf@.len()
    }

    open spec fn packets(&self) -> Seq<IsoPacketDesc> {
        Seq::empty()
    }

    open spec fn buffer(&self) -> Vec<u8> {
        self.buf
    }

    open spec fn with_buffer(self, b: Vec<u8>) -> Self {
        InterruptTransfer { buf: b, ..self }
    }

    fn is_wire_ready(&self) -> (r: bool) {
        self.buf.len() <= 0x7fff_ffff
    }

    fn wire_urb(&mut self) -> (r: Urb) {
        self.urb.buffer_length = self.buf.len() as i32;
        self.urb
    }

    fn packet_descs(&self) -> Vec<IsoPacketDesc> {
        Vec::new()
    }

    fn buffer_mut(&mut self) -> &mut Vec<u8> {
        &mut self.buf
    }

    fn complete(&mut self, c: &Completion) {
        self.urb.record_completion(c);
    }
}

/// Interrupt transfer on a buffer that is read or written: IN and OUT endpoints.
pub struct InterruptTransferMut {
    pub urb: Urb,
    pub buf: Vec<u8>,
}

impl InterruptTransferMut {
    /// An interrupt transfer on `endpoint`.
    pub fn new(endpoint: u8, flags: UrbFlags, buf: Vec<u8>) -> (r: InterruptTransferMut)
        ensures
            r.urb == fresh_urb(UrbType::Interrupt.spec_code(), endpoint, flags),
            r.buf == buf,
    {
        InterruptTransferMut { urb: Urb::new(UrbType::Interrupt, endpoint, flags), buf }
    }
}

impl Transfer for InterruptTransferMut {
    open spec fn wire_ready(&self) -> bool {
        fits_urb(self.buf@.len() as int)
    }

    open spec fn wire_post(before: Self, after: Self, urb: Urb) -> bool {
        &&& after.buf == before.buf
        &&& after.urb == with_buffer_length(before.urb, before.buf@.len() as int)
        &&& urb == after.urb
    }

    open spec fn complete_post(before: Self, c: Completion, after: Self) -> bool {
        &&& after == InterruptTransferMut { urb: completed(before.urb, c), buf: after.buf, ..before }
        &&& after.buf@.len() == before.buf@.len()
    }

    open spec fn packets(&self) -> Seq<IsoPacketDesc> {
        Seq::empty()
    }

    open spec fn buffer(&self) -> Vec<u8> {
        self.buf
    }

    open spec fn with_buffer(self, b: Vec<u8>) -> Self {
        InterruptTransferMut { buf: b, ..self }
    }

    fn is_wire_ready(&self) -> (r: bool) {
        self.buf.len() <= 0x7fff_ffff
    }

    fn wire_urb(&mut self) -> (r: Urb) {
        self.urb.buffer_length = self.buf.len() as i32;
        self.urb
    }

    fn packet_descs(&self) -> Vec<IsoPacketDesc> {
        Vec::new()
    }

    fn buffer_mut(&mut self) -> &mut Vec<u8> {
        &mut self.buf
    }

    fn complete(&mut self, c: &Completion) {
        self.urb.record_completion(c);
    }
}

} // verus!
