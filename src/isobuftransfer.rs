use crate::asyncdevice::Transfer;
use crate::devfs::{
    completed, fresh_packet, fresh_urb, Completion, IsoPacketDesc, Urb, UrbFlags, UrbType,
    STATUS_UNSET,
};
use vstd::prelude::*;

verus! {

/// The number of packets that a buffer of `len` bytes is cut into, at most `plen` bytes
/// each, when `cap` descriptors are available: `ceil(len / plen)`, but no more than `cap`.
/// Bytes beyond `cap * plen` are not transferred.
pub open spec fn packet_count(len: int, plen: int, cap: int) -> int {
    let needed = (len + plen - 1) / plen;
    if needed < cap {
        needed
    } else {
        cap
    }
}

/// The length of packet `k`: a whole `plen`, or what is left of the buffer.
pub open spec fn packet_len(len: int, plen: int, k: int) -> int {
    if len - k * plen < plen {
        len - k * plen
    } else {
        plen
    }
}

/// A packet descriptor asking for `length` bytes, with nothing moved yet and status unset.
pub open spec fn unset_packet(length: int) -> IsoPacketDesc {
    IsoPacketDesc { length: length as i32, actual_length: 0, status: STATUS_UNSET }
}

/// A descriptor after the kernel reported `p` for its packet.
pub open spec fn completed_packet(d: IsoPacketDesc, p: IsoPacketDesc) -> IsoPacketDesc {
    IsoPacketDesc { actual_length: p.actual_length, status: p.status, ..d }
}

proof fn lemma_ceil_div_exact(len: int, plen: int, c: int)
    requires
        plen > 0,
        c >= 1,
        (c - 1) * plen < len,
        len <= c * plen,
    ensures
        (len + plen - 1) / plen == c,
{
    let q = (len + plen - 1) / plen;
    vstd::arithmetic::div_mod::lemma_fundamental_div_mod(len + plen - 1, plen);
    let r = (len + plen - 1) % plen;
    assert(0 <= r < plen) by {
        vstd::arithmetic::div_mod::lemma_mod_bound(len + plen - 1, plen);
    }
    assert(len + plen - 1 == plen * q + r);
    assert(q == c) by (nonlinear_arith)
        requires
            len + plen - 1 == plen * q + r,
            0 <= r < plen,
            (c - 1) * plen < len,
            len <= c * plen,
            plen > 0,
    ;
}

proof fn lemma_ceil_div_exceeds(len: int, plen: int, c: int)
    requires
        plen > 0,
        c >= 0,
        c * plen < len,
    ensures
        (len + plen - 1) / plen > c,
{
    let q = (len + plen - 1) / plen;
    vstd::arithmetic::div_mod::lemma_fundamental_div_mod(len + plen - 1, plen);
    let r = (len + plen - 1) % plen;
    assert(0 <= r < plen) by {
        vstd::arithmetic::div_mod::lemma_mod_bound(len + plen - 1, plen);
    }
    assert(q > c) by (nonlinear_arith)
        requires
            len + plen - 1 == plen * q + r,
            0 <= r < plen,
            c * plen < len,
            plen > 0,
    ;
}

/// Isochronous transfer whose buffer is cut into packets of `packet_length` bytes, with
/// `N` packet descriptors available.
pub struct IsoBufTransfer<const N: usize> {
    pub urb: Urb,
    pub iso_packets: Vec<IsoPacketDesc>,
    pub buf: Vec<u8>,
    pub packet_length: usize,
}

impl<const N: usize> IsoBufTransfer<N> {
    /// An isochronous transfer on `endpoint`, with `N` unused packet descriptors.
    pub fn isochronous(endpoint: u8, flags: UrbFlags, buf: Vec<u8>, packet_length: usize) -> (r:
        IsoBufTransfer<N>)
        ensures
            r.urb == fresh_urb(UrbType::Iso.spec_code(), endpoint, flags),
            r.iso_packets@ == Seq::new(N as nat, |i: int| fresh_packet()),
            r.buf == buf,
            r.packet_length == packet_length,
    {
        let mut iso_packets: Vec<IsoPacketDesc> = Vec::new();
        let mut i: usize = 0;
        while i < N
            invariant
                i <= N,
                iso_packets@ == Seq::new(i as nat, |j: int| fresh_packet()),
            decreases N - i,
        {
            iso_packets.push(IsoPacketDesc::default());
            i = i + 1;
            assert(iso_packets@ =~= Seq::new(i as nat, |j: int| fresh_packet()));
        }
        IsoBufTransfer {
            urb: Urb::new(UrbType::Iso, endpoint, flags),
            iso_packets,
            buf,
            packet_length,
        }
    }

    /// The number of bytes at the end of the buffer that lie beyond the `N` packets, and
    /// that a submission therefore leaves out.
    pub fn untransferred_len(&self) -> (r: usize)
        ensures
            r == (if self.buf@.len() > N * self.packet_length {
                self.buf@.len() - N * self.packet_length
            } else {
                0
            }),
    {
        let n = N as u128;
        let p = self.packet_length as u128;
        assert(n * p <= 0xffff_ffff_ffff_ffff_u128 * 0xffff_ffff_ffff_ffff_u128) by (nonlinear_arith)
            requires
                n <= 0xffff_ffff_ffff_ffff_u128,
                p <= 0xffff_ffff_ffff_ffff_u128,
        ;
        let cap = n * p;
        let len = self.buf.len() as u128;
        if len > cap {
            (len - cap) as usize
        } else {
            0
        }
    }

    /// The request block.
    pub fn get_urb(&self) -> (r: &Urb)
        ensures
            *r == self.urb,
    {
        &self.urb
    }

    /// The descriptors of the packets of the last submission.
    pub fn status(&self) -> (r: &[IsoPacketDesc])
        requires
            0 <= self.urb.number_of_packets <= self.iso_packets@.len(),
        ensures
            r@ == self.iso_packets@.subrange(0, self.urb.number_of_packets as int),
    {
        let (head, _) = self.iso_packets.as_slice().split_at(self.urb.number_of_packets as usize);
        head
    }
}

impl<const N: usize> Transfer for IsoBufTransfer<N> {
    open spec fn wire_ready(&self) -> bool {
        &&& self.iso_packets@.len() == N
        &&& N <= i32::MAX
        &&& 0 < self.packet_length <= i32::MAX
    }

    open spec fn wire_post(before: Self, after: Self, urb: Urb) -> bool {
        let len = before.buf@.len() as int;
        let plen = before.packet_length as int;
        let n = packet_count(len, plen, N as int);
        &&& after.buf == before.buf
        &&& after.packet_length == before.packet_length
        &&& after.urb == Urb { number_of_packets: n as i32, ..before.urb }
        &&& after.iso_packets@.len() == before.iso_packets@.len()
        &&& forall|k: int|
            0 <= k < n ==> #[trigger] after.iso_packets@[k] == unset_packet(packet_len(len, plen, k))
        &&& forall|k: int|
            n <= k < before.iso_packets@.len() ==> #[trigger] after.iso_packets@[k]
                == before.iso_packets@[k]
        &&& urb == after.urb
    }

    open spec fn complete_post(before: Self, c: Completion, after: Self) -> bool {
        &&& after.urb == completed(before.urb, c)
        &&& after.buf@.len() == before.buf@.len()
        &&& after.packet_length == before.packet_length
        &&& after.iso_packets@.len() == before.iso_packets@.len()
        &&& forall|k: int|
            0 <= k < before.iso_packets@.len() ==> #[trigger] after.iso_packets@[k] == if k
                < c.packets@.len() {
                completed_packet(before.iso_packets@[k], c.packets@[k])
            } else {
                before.iso_packets@[k]
            }
    }

    open spec fn packets(&self) -> Seq<IsoPacketDesc> {
        let n = self.urb.number_of_packets as int;
        if n < 0 {
            Seq::empty()
        } else if n < self.iso_packets@.len() {
            self.iso_packets@.subrange(0, n)
        } else {
            self.iso_packets@
        }
    }

    open spec fn buffer(&self) -> Vec<u8> {
        self.buf
    }

    open spec fn with_buffer(self, b: Vec<u8>) -> Self {
        IsoBufTransfer { buf: b, ..self }
    }

    fn is_wire_ready(&self) -> (r: bool) {
        self.iso_packets.len() == N && N <= 0x7fff_ffff && 0 < self.packet_length
            && self.packet_length <= 0x7fff_ffff
    }

    fn wire_urb(&mut self) -> (r: Urb) {
        let ghost old_packets = self.iso_packets@;
        let len = self.buf.len();
        let plen = self.packet_length;
        let mut remaining: usize = len;
        let mut done: usize = 0;
        let mut count: usize = 0;
        while count < self.iso_packets.len() && remaining > 0
            invariant
                self.iso_packets@.len() == N,
                old_packets.len() == N,
                self.urb == old(self).urb,
                self.buf == old(self).buf,
                self.packet_length == old(self).packet_length,
                N <= i32::MAX,
                0 < plen <= i32::MAX,
                len == self.buf@.len(),
                count <= N,
                remaining + done == len,
                done <= count * plen,
                remaining > 0 ==> done == count * plen,
                count > 0 ==> (count - 1) * plen < len,
                forall|k: int|
                    0 <= k < count ==> #[trigger] self.iso_packets@[k] == unset_packet(
                        packet_len(len as int, plen as int, k),
                    ),
                forall|k: int|
                    count <= k < N ==> #[trigger] self.iso_packets@[k] == old_packets[k],
            decreases N - count,
        {
            let this_len = if remaining < plen {
                remaining
            } else {
                plen
            };
            assert(this_len == packet_len(len as int, plen as int, count as int));
            self.iso_packets[count] = IsoPacketDesc {
                length: this_len as i32,
                actual_length: 0,
                status: STATUS_UNSET,
            };
            assert(count * plen + plen == (count + 1) * plen) by (nonlinear_arith);
            done = done + this_len;
            remaining = remaining - this_len;
            count = count + 1;
        }
        proof {
            let n = packet_count(len as int, plen as int, N as int);
            if remaining == 0 {
                if count > 0 {
                    lemma_ceil_div_exact(len as int, plen as int, count as int);
                } else {
                    assert((len as int + plen - 1) / (plen as int) == 0) by (nonlinear_arith)
                        requires
                            len == 0,
                            plen > 0,
                    ;
                }
            } else {
                lemma_ceil_div_exceeds(len as int, plen as int, count as int);
            }
            assert(count == n);
        }
        self.urb.number_of_packets = count as i32;
        self.urb
    }

    fn packet_descs(&self) -> Vec<IsoPacketDesc> {
        let mut r: Vec<IsoPacketDesc> = Vec::new();
        let mut i: usize = 0;
        while i < self.iso_packets.len() && (i as i64) < (self.urb.number_of_packets as i64)
            invariant
                i <= self.iso_packets@.len(),
                i as int <= self.urb.number_of_packets || i == 0,
                r@ == self.iso_packets@.subrange(0, i as int),
            decreases self.iso_packets@.len() - i,
        {
            r.push(self.iso_packets[i]);
            i = i + 1;
            assert(r@ =~= self.iso_packets@.subrange(0, i as int));
        }
        assert(r@ =~= self.packets());
        r
    }

    fn buffer_mut(&mut self) -> &mut Vec<u8> {
        &mut self.buf
    }

    fn complete(&mut self, c: &Completion) {
        let ghost before = self.iso_packets@;
        self.urb.record_completion(c);
        let mut i: usize = 0;
        while i < self.iso_packets.len() && i < c.packets.len()
            invariant
                i <= self.iso_packets@.len(),
                i <= c.packets@.len(),
                self.iso_packets@.len() == before.len(),
                self.urb == completed(old(self).urb, *c),
                self.buf == old(self).buf,
                self.packet_length == old(self).packet_length,
                forall|k: int|
                    0 <= k < i ==> #[trigger] self.iso_packets@[k] == completed_packet(
                        before[k],
                        c.packets@[k],
                    ),
                forall|k: int| i <= k < before.len() ==> #[trigger] self.iso_packets@[k] == before[k],
            decreases self.iso_packets@.len() - i,
        {
            let p = c.packets[i];
            let d = self.iso_packets[i];
            self.iso_packets[i] = IsoPacketDesc {
                actual_length: p.actual_length,
                status: p.status,
                ..d
            };
            i = i + 1;
        }
        assert forall|k: int| 0 <= k < before.len() implies #[trigger] self.iso_packets@[k] == if k
            < c.packets@.len() {
            completed_packet(before[k], c.packets@[k])
        } else {
            before[k]
        } by {
            if k < i {
            } else {
                assert(k >= c.packets@.len());
            }
        }
    }
}

} // verus!
