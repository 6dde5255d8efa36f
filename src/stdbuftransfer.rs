use crate::asyncdevice::Transfer;
use crate::devfs::{
    errno_from_code, EOVERFLOW, completed, errno_of, fresh_packet, fresh_urb, status_errno, status_to_nixresult,
    with_buffer_length, Completion, IsoPacketDesc, Urb, UrbFlags, UrbType,
};
use crate::usbtypes::{
    hi_byte, lo_byte, to_le_bytes16, request_type, setup_bytes, write_setup_struct, BusEndian, Setup, SetupDirection,
    SetupRecipient, SetupType,
};
use std::marker::PhantomData;
use vstd::prelude::*;

verus! {

/// A transfer of any of the four kinds on one buffer. A control transfer keeps its setup
/// packet in the first eight bytes of the buffer; an isochronous one moves the whole
/// buffer as a single packet.
#[derive(Debug)]
pub struct StdBufTransfer {
    pub urb: Urb,
    pub iso_packet: IsoPacketDesc,
    pub buf: Vec<u8>,
}

/// The bus-endian setup packet of a control request.
pub open spec fn control_setup(
    direction: SetupDirection,
    stype: SetupType,
    recipient: SetupRecipient,
    request: u8,
    value: u16,
    index: u16,
    length: u16,
) -> Setup<BusEndian> {
    Setup {
        bmRequestType: request_type(direction, stype, recipient),
        bRequest: request,
        wValue: value,
        wIndex: index,
        wLength: length,
        endian: PhantomData,
    }
}

impl StdBufTransfer {
    pub open spec fn is_control(&self) -> bool {
        self.urb.urbtype == UrbType::Control.spec_code()
    }

    pub open spec fn is_iso(&self) -> bool {
        self.urb.urbtype == UrbType::Iso.spec_code()
    }

    /// A control transfer: the setup packet, with the payload length `buf.len() - 8`, is
    /// written at the head of `buf`. The request goes to endpoint 0 in the request's direction.
    pub fn control(
        direction: SetupDirection,
        stype: SetupType,
        recipient: SetupRecipient,
        request: u8,
        value: u16,
        index: u16,
        flags: UrbFlags,
        buf: Vec<u8>,
    ) -> (r: StdBufTransfer)
        requires
            buf@.len() >= 8,
            buf@.len() - 8 <= u16::MAX,
        ensures
            r.urb == fresh_urb(UrbType::Control.spec_code(), direction.spec_bits(), flags),
            r.iso_packet == fresh_packet(),
            r.buf@ == setup_bytes(
                control_setup(
                    direction,
                    stype,
                    recipient,
                    request,
                    value,
                    index,
                    (buf@.len() - 8) as u16,
                ),
            ) + buf@.subrange(8, buf@.len() as int),
    {
        let mut xfer = StdBufTransfer {
            urb: Urb::new(UrbType::Control, direction.bits(), flags),
            iso_packet: IsoPacketDesc::default(),
            buf,
        };
        let length = (xfer.buf.len() - 8) as u16;
        let setup: Setup<BusEndian> = Setup::new(
            direction,
            stype,
            recipient,
            request,
            value,
            index,
            length,
        ).into();
        write_setup_struct(&setup, &mut xfer.buf);
        xfer
    }

    /// A bulk transfer on `endpoint`.
    pub fn bulk(endpoint: u8, flags: UrbFlags, buf: Vec<u8>) -> (r: StdBufTransfer)
        ensures
            r.urb == fresh_urb(UrbType::Bulk.spec_code(), endpoint, flags),
            r.iso_packet == fresh_packet(),
            r.buf == buf,
    {
        StdBufTransfer {
            urb: Urb::new(UrbType::Bulk, endpoint, flags),
            iso_packet: IsoPacketDesc::default(),
            buf,
        }
    }

    /// An interrupt transfer on `endpoint`.
    pub fn interrupt(endpoint: u8, flags: UrbFlags, buf: Vec<u8>) -> (r: StdBufTransfer)
        ensures
            r.urb == fresh_urb(UrbType::Interrupt.spec_code(), endpoint, flags),
            r.iso_packet == fresh_packet(),
            r.buf == buf,
    {
        StdBufTransfer {
            urb: Urb::new(UrbType::Interrupt, endpoint, flags),
            iso_packet: IsoPacketDesc::default(),
            buf,
        }
    }

    /// An isochronous transfer on `endpoint` that moves the whole buffer as one packet.
    pub fn isochronous(endpoint: u8, flags: UrbFlags, buf: Vec<u8>) -> (r: StdBufTransfer)
        ensures
            r.urb == (Urb {
                number_of_packets: 1,
                ..fresh_urb(UrbType::Iso.spec_code(), endpoint, flags)
            }),
            r.iso_packet == fresh_packet(),
            r.buf == buf,
    {
        let mut urb = Urb::new(UrbType::Iso, endpoint, flags);
        urb.number_of_packets = 1;
        StdBufTransfer { urb, iso_packet: IsoPacketDesc::default(), buf }
    }

    /// The data part of the buffer: after the setup packet for a control transfer, the
    /// whole buffer otherwise.
    pub fn data_mut(&mut self) -> (r: &mut [u8])
        requires
            old(self).is_control() ==> old(self).buf@.len() >= 8,
        ensures
            final(self).urb == old(self).urb,
            final(self).iso_packet == old(self).iso_packet,
            old(self).is_control() ==> {
                &&& r@ == old(self).buf@.subrange(8, old(self).buf@.len() as int)
                &&& final(self).buf@ == old(self).buf@.subrange(0, 8) + final(r)@
            },
            !old(self).is_control() ==> {
                &&& r@ == old(self).buf@
                &&& final(self).buf@ == final(r)@
            },
    {
        if self.urb.urbtype == UrbType::Control.code() {
            let (_, tail) = self.buf.as_mut_slice().split_at_mut(8);
            tail
        } else {
            self.buf.as_mut_slice()
        }
    }

    /// The length of the data part of the buffer.
    pub open spec fn data_len(&self) -> int {
        if self.is_control() {
            self.buf@.len() - 8
        } else {
            self.buf@.len() as int
        }
    }

    /// The data part of the buffer.
    pub open spec fn data(&self) -> Seq<u8> {
        if self.is_control() {
            self.buf@.subrange(8, self.buf@.len() as int)
        } else {
            self.buf@
        }
    }

    /// The data that the last completion moved: the first `result_length` bytes of the data
    /// part. Fails with the completion's error, or with `EOVERFLOW` when the reported length
    /// exceeds the data part.
    pub fn result_data_mut(&mut self) -> (r: Result<&mut [u8], nix::errno::Errno>)
        requires
            old(self).is_control() ==> old(self).buf@.len() >= 8,
        ensures
            final(self).urb == old(self).urb,
            final(self).iso_packet == old(self).iso_packet,
            old(self).result_fields().0 < 0 ==> r == Err::<&mut [u8], nix::errno::Errno>(
                errno_of(status_errno(old(self).result_fields().0)),
            ),
            old(self).result_fields().0 >= 0 && old(self).result_fields().1 as usize
                > old(self).data_len() ==> r == Err::<&mut [u8], nix::errno::Errno>(
                errno_of(EOVERFLOW),
            ),
            old(self).result_fields().0 >= 0 && old(self).result_fields().1 as usize
                <= old(self).data_len() ==> r is Ok && r->Ok_0@ == old(self).data().subrange(
                0,
                old(self).result_fields().1 as usize as int,
            ),
            r is Err ==> final(self).buf == old(self).buf,
            r is Ok ==> final(self).buf@ == old(self).buf@.subrange(
                0,
                old(self).buf@.len() - old(self).data_len(),
            ) + final(r->Ok_0)@ + old(self).data().subrange(
                old(self).result_fields().1 as usize as int,
                old(self).data_len(),
            ),
    {
        let n = match self.result_length() {
            Ok(n) => n,
            Err(e) => return Err(e),
        };
        let data_len = if self.urb.urbtype == UrbType::Control.code() {
            self.buf.len() - 8
        } else {
            self.buf.len()
        };
        if n > data_len {
            return Err(errno_from_code(EOVERFLOW));
        }
        let data = self.data_mut();
        let (head, _) = data.split_at_mut(n);
        Ok(head)
    }

    /// The status and the moved length that the last completion reported: those of the
    /// packet for an isochronous transfer, those of the request block otherwise.
    pub open spec fn result_fields(&self) -> (i32, i32) {
        if self.is_iso() {
            (self.iso_packet.status, self.iso_packet.actual_length)
        } else {
            (self.urb.status, self.urb.actual_length)
        }
    }

    /// The number of bytes the last completion moved, or the error it reported.
    pub fn result_length(&self) -> (r: Result<usize, nix::errno::Errno>)
        ensures
            self.result_fields().0 >= 0 ==> r == Ok::<usize, nix::errno::Errno>(
                self.result_fields().1 as usize,
            ),
            self.result_fields().0 < 0 ==> r == Err::<usize, nix::errno::Errno>(
                errno_of(status_errno(self.result_fields().0)),
            ),
    {
        let (status, length) = if self.urb.urbtype == UrbType::Iso.code() {
            (self.iso_packet.status, self.iso_packet.actual_length)
        } else {
            (self.urb.status, self.urb.actual_length)
        };
        match status_to_nixresult(status) {
            Ok(()) => Ok(length as usize),
            Err(e) => Err(e),
        }
    }
}

impl Transfer for StdBufTransfer {
    open spec fn wire_ready(&self) -> bool {
        &&& self.buf@.len() <= i32::MAX
        &&& self.is_control() ==> 8 <= self.buf@.len() && self.buf@.len() - 8 <= u16::MAX
    }

    open spec fn wire_post(before: Self, after: Self, urb: Urb) -> bool {
        let len = before.buf@.len() as int;
        &&& before.is_control() ==> after.buf@ == before.buf@.subrange(0, 6) + seq![
            lo_byte((len - 8) as u16),
            hi_byte((len - 8) as u16),
        ] + before.buf@.subrange(8, len)
        &&& !before.is_control() ==> after.buf == before.buf
        &&& before.is_iso() ==> after.urb == before.urb && after.iso_packet == IsoPacketDesc {
            length: len as i32,
            ..before.iso_packet
        }
        &&& !before.is_iso() ==> after.urb == with_buffer_length(before.urb, len)
            && after.iso_packet == before.iso_packet
        &&& urb == after.urb
    }

    open spec fn complete_post(before: Self, c: Completion, after: Self) -> bool {
        &&& after.urb == completed(before.urb, c)
        &&& after.buf@.len() == before.buf@.len()
        &&& after.iso_packet == if c.packets@.len() > 0 {
            IsoPacketDesc {
                actual_length: c.packets@[0].actual_length,
                status: c.packets@[0].status,
                ..before.iso_packet
            }
        } else {
            before.iso_packet
        }
    }

    open spec fn packets(&self) -> Seq<IsoPacketDesc> {
        if self.is_iso() {
            seq![self.iso_packet]
        } else {
            Seq::empty()
        }
    }

    open spec fn buffer(&self) -> Vec<u8> {
        self.buf
    }

    open spec fn with_buffer(self, b: Vec<u8>) -> Self {
        StdBufTransfer { buf: b, ..self }
    }

    fn is_wire_ready(&self) -> (r: bool) {
        self.buf.len() <= 0x7fff_ffff && (self.urb.urbtype != UrbType::Control.code() || (
        self.buf.len() >= 8 && self.buf.len() - 8 <= 0xffff))
    }

    fn wire_urb(&mut self) -> (r: Urb) {
        if self.urb.urbtype == UrbType::Iso.code() {
            self.iso_packet.length = self.buf.len() as i32;
        } else {
            if self.urb.urbtype == UrbType::Control.code() {
                let ghost before = self.buf@;
                let len = self.buf.len();
                let (lo, hi) = to_le_bytes16((len - 8) as u16);
                self.buf[6] = lo;
                self.buf[7] = hi;
                assert(self.buf@ =~= before.subrange(0, 6) + seq![lo, hi] + before.subrange(
                    8,
                    len as int,
                ));
            }
            self.urb.buffer_length = self.buf.len() as i32;
        }
        self.urb
    }

    fn packet_descs(&self) -> Vec<IsoPacketDesc> {
        let mut r: Vec<IsoPacketDesc> = Vec::new();
        if self.urb.urbtype == UrbType::Iso.code() {
            r.push(self.iso_packet);
            assert(r@ =~= seq![self.iso_packet]);
        }
        r
    }

    fn buffer_mut(&mut self) -> &mut Vec<u8> {
        &mut self.buf
    }

    fn complete(&mut self, c: &Completion) {
        self.urb.record_completion(c);
        if c.packets.len() > 0 {
            self.iso_packet.actual_length = c.packets[0].actual_length;
            self.iso_packet.status = c.packets[0].status;
        }
    }
}

} // verus!
