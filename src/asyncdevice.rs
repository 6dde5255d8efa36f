use crate::devfs::{Completion, IsoPacketDesc, Urb};
use vstd::prelude::*;

verus! {

/// A buffer-owning object that can render itself into a request block ready for the kernel.
///
/// `wire_urb` must be called before every submission: it refreshes the block from the
/// buffer as it stands. The buffer's storage must stay where it is from then until the
/// request is reaped, since the kernel holds its address.
pub trait Transfer: Sized {
    /// Whether the transfer can be wired (a control transfer needs room for its setup packet).
    spec fn wire_ready(&self) -> bool;

    /// How wiring changes the transfer (`before` to `after`) and which block it hands out.
    spec fn wire_post(before: Self, after: Self, urb: Urb) -> bool;

    /// How a completion reported by the kernel is recorded in the transfer. The kernel
    /// reads and writes the buffer in place while the request is in flight, so of the
    /// buffer only its length is known to be kept; its contents are whatever the kernel
    /// left there.
    spec fn complete_post(before: Self, c: Completion, after: Self) -> bool;

    /// The packet descriptors that go with the request block.
    spec fn packets(&self) -> Seq<IsoPacketDesc>;

    /// The buffer.
    spec fn buffer(&self) -> Vec<u8>;

    /// The transfer with its buffer replaced by `b`.
    spec fn with_buffer(self, b: Vec<u8>) -> Self;

    /// Tells whether `wire_urb` may be called.
    fn is_wire_ready(&self) -> (r: bool)
        ensures
            r == self.wire_ready(),
    ;

    /// Prepares the request block for submission and returns it.
    fn wire_urb(&mut self) -> (r: Urb)
        requires
            old(self).wire_ready(),
        ensures
            Self::wire_post(*old(self), *final(self), r),
    ;

    /// The packet descriptors that go with the request block (isochronous transfers only).
    fn packet_descs(&self) -> (r: Vec<IsoPacketDesc>)
        ensures
            r@ == self.packets(),
    ;

    /// The storage that the kernel reads from or writes to; nothing else of the transfer
    /// changes through it.
    fn buffer_mut(&mut self) -> (r: &mut Vec<u8>)
        ensures
            *r == old(self).buffer(),
            *final(self) == old(self).with_buffer(*final(r)),
    ;

    /// Records a completion that the kernel reported for this transfer's request block.
    fn complete(&mut self, c: &Completion)
        ensures
            Self::complete_post(*old(self), *c, *final(self)),
    ;
}

/// `i` is the slot that a new transfer goes into: the first empty one, or one past the end.
pub open spec fn is_first_free<T>(s: Seq<Option<T>>, i: int) -> bool {
    &&& 0 <= i <= s.len()
    &&& i < s.len() ==> s[i] is None
    &&& forall|j: int| 0 <= j < i ==> #[trigger] s[j] is Some
}

/// The table with `t` put into slot `i` (a new slot when `i` is one past the end).
pub open spec fn placed<T>(s: Seq<Option<T>>, i: int, t: T) -> Seq<Option<T>> {
    if i < s.len() {
        s.update(i, Some(t))
    } else {
        s.push(Some(t))
    }
}

/// Whether slot `i` holds an in-flight transfer.
pub open spec fn occupied<T>(s: Seq<Option<T>>, i: int) -> bool {
    0 <= i < s.len() && s[i] is Some
}

/// The slots that hold in-flight transfers.
pub open spec fn occupied_slots<T>(s: Seq<Option<T>>) -> Set<int> {
    Set::new(|i: int| occupied(s, i))
}

/// What taking slot `i` out of the table hands back.
pub open spec fn taken<T>(s: Seq<Option<T>>, i: int) -> Option<T> {
    if 0 <= i < s.len() {
        s[i]
    } else {
        None
    }
}

/// The table after slot `i` is emptied.
pub open spec fn emptied<T>(s: Seq<Option<T>>, i: int) -> Seq<Option<T>> {
    if 0 <= i < s.len() {
        s.update(i, None)
    } else {
        s
    }
}

/// The request block stamped with correlation tag `slot`.
pub open spec fn tagged(urb: Urb, slot: usize) -> Urb {
    Urb { usercontext: slot, ..urb }
}

/// The table of in-flight transfers.
///
/// A slot holds exactly one transfer from its submission until it is reaped. The slot's
/// index is the correlation tag of the transfer's request block, so a completion maps back
/// to its transfer directly. A new transfer takes the first empty slot before the table grows.
pub struct TransferSlots<T> {
    transfers: Vec<Option<T>>,
}

impl<T: Transfer> TransferSlots<T> {
    pub closed spec fn view(&self) -> Seq<Option<T>> {
        self.transfers@
    }

    /// An empty table.
    pub fn new() -> (r: TransferSlots<T>)
        ensures
            r@ == Seq::<Option<T>>::empty(),
    {
        TransferSlots { transfers: Vec::new() }
    }

    /// The number of slots, empty ones included.
    pub fn len(&self) -> (r: usize)
        ensures
            r == self@.len(),
    {
        self.transfers.len()
    }

    /// Whether slot `slot` holds an in-flight transfer.
    pub fn is_occupied(&self, slot: usize) -> (r: bool)
        ensures
            r == occupied(self@, slot as int),
    {
        slot < self.transfers.len() && self.transfers[slot].is_some()
    }

    /// Puts `transfer` into the first empty slot, or into a new one, and returns its index.
    pub fn insert_transfer(&mut self, transfer: T) -> (slot: usize)
        requires
            old(self)@.len() < usize::MAX,
        ensures
            is_first_free(old(self)@, slot as int),
            slot == first_free(old(self)@),
            final(self)@ == placed(old(self)@, slot as int, transfer),
    {
        proof {
            lemma_first_free_unique(self@, 0);
        }
        let mut i: usize = 0;
        while i < self.transfers.len()
            invariant
                0 <= i <= self.transfers@.len(),
                self.transfers@ == old(self).transfers@,
                forall|j: int| 0 <= j < i ==> #[trigger] self.transfers@[j] is Some,
            decreases self.transfers@.len() - i,
        {
            if self.transfers[i].is_none() {
                self.transfers[i] = Some(transfer);
                return i;
            }
            i = i + 1;
        }
        self.transfers.push(Some(transfer));
        i
    }

    /// Takes the transfer out of slot `slot`, leaving the slot empty.
    pub fn take_transfer(&mut self, slot: usize) -> (r: Option<T>)
        ensures
            r == taken(old(self)@, slot as int),
            final(self)@ == emptied(old(self)@, slot as int),
    {
        if slot < self.transfers.len() {
            let mut r: Option<T> = None;
            std::mem::swap(&mut r, &mut self.transfers[slot]);
            r
        } else {
            None
        }
    }

    /// Wires `transfer`, puts it into the first empty slot (or a new one), and returns the
    /// slot together with the request block stamped with the slot as its correlation tag,
    /// and the packet descriptors that go with it.
    /// The transfer stays in the table until it is reaped or given back.
    pub fn submit(&mut self, transfer: T) -> (r: (usize, Urb, Vec<IsoPacketDesc>))
        requires
            old(self)@.len() < usize::MAX,
            transfer.wire_ready(),
        ensures
            is_first_free(old(self)@, r.0 as int),
            r.0 == first_free(old(self)@),
            occupied(final(self)@, r.0 as int),
            final(self)@ == placed(old(self)@, r.0 as int, final(self)@[r.0 as int]->Some_0),
            r.2@ == final(self)@[r.0 as int]->Some_0.packets(),
            exists|u: Urb|
                T::wire_post(transfer, final(self)@[r.0 as int]->Some_0, u) && r.1 == tagged(
                    u,
                    r.0,
                ),
    {
        let ghost given = transfer;
        let mut transfer = transfer;
        let urb = transfer.wire_urb();
        let ghost wired = transfer;
        let packets = transfer.packet_descs();
        let slot = self.insert_transfer(transfer);
        assert(final(self)@[slot as int]->Some_0 == wired);
        assert(T::wire_post(given, wired, urb));
        let stamped = Urb { usercontext: slot, ..urb };
        assert(stamped == tagged(urb, slot));
        (slot, stamped, packets)
    }

    /// Hands back the transfer of a submission that the kernel refused, together with the
    /// error; its slot is empty afterwards.
    pub fn give_back<E>(&mut self, slot: usize, err: E) -> (r: (E, T))
        requires
            occupied(old(self)@, slot as int),
        ensures
            r.0 == err,
            old(self)@[slot as int] == Some(r.1),
            final(self)@ == old(self)@.update(slot as int, None),
    {
        let t = self.take_transfer(slot);
        (err, t.unwrap())
    }

    /// Settles a submission once the kernel has answered: the slot when it accepted the
    /// request (the transfer stays in flight), or the error together with the transfer,
    /// taken back out of its slot, when it refused it.
    pub fn submit_result<E>(&mut self, slot: usize, outcome: Result<(), E>) -> (r: Result<
        usize,
        (E, T),
    >)
        requires
            occupied(old(self)@, slot as int),
        ensures
            match outcome {
                Ok(()) => {
                    &&& r == Ok::<usize, (E, T)>(slot)
                    &&& final(self)@ == old(self)@
                },
                Err(e) => {
                    &&& r is Err
                    &&& r->Err_0.0 == e
                    &&& old(self)@[slot as int] == Some(r->Err_0.1)
                    &&& final(self)@ == old(self)@.update(slot as int, None)
                },
            },
    {
        match outcome {
            Ok(()) => Ok(slot),
            Err(e) => Err(self.give_back(slot, e)),
        }
    }

    /// Records a completion that the kernel reported for tag `tag`, and hands the transfer
    /// of that slot back to the caller; the slot is empty afterwards.
    pub fn reap(&mut self, tag: usize, c: &Completion) -> (r: T)
        requires
            occupied(old(self)@, tag as int),
        ensures
            T::complete_post(old(self)@[tag as int]->Some_0, *c, r),
            final(self)@ == old(self)@.update(tag as int, None),
    {
        let mut t = self.take_transfer(tag).unwrap();
        t.complete(c);
        t
    }

    /// Maps the outcome of a reap call to the transfer it completed, or to the reason that
    /// none came back.
    pub fn reap_result(&mut self, outcome: Result<(usize, Completion), i32>) -> (r: Result<
        T,
        ReapError,
    >)
        requires
            outcome is Ok ==> occupied(old(self)@, outcome->Ok_0.0 as int),
        ensures
            match outcome {
                Ok((tag, c)) => {
                    &&& r is Ok
                    &&& T::complete_post(old(self)@[tag as int]->Some_0, c, r->Ok_0)
                    &&& final(self)@ == old(self)@.update(tag as int, None)
                },
                Err(errno) => {
                    &&& r == Err::<T, ReapError>(reap_error_of(errno))
                    &&& final(self)@ == old(self)@
                },
            },
    {
        match outcome {
            Ok((tag, c)) => Ok(self.reap(tag, &c)),
            Err(errno) => Err(reap_error(errno)),
        }
    }
}

/// A slot that holds an in-flight transfer is never the one a new submission takes.
pub proof fn lemma_occupied_slot_not_reused<T>(s: Seq<Option<T>>, i: int, j: int)
    requires
        occupied(s, i),
        is_first_free(s, j),
    ensures
        j != i,
{
    if j == i {
        assert(s[i] is Some);
    }
}

/// An in-flight transfer stays in its slot, unchanged, while other transfers are submitted
/// and while other slots are reaped.
pub proof fn lemma_in_flight_slot_stable<T>(s: Seq<Option<T>>, i: int, j: int, k: int, t: T)
    requires
        occupied(s, i),
        is_first_free(s, j),
        k != i,
    ensures
        placed(s, j, t)[i] == s[i],
        occupied(placed(s, j, t), i),
        emptied(s, k)[i] == s[i],
        occupied(emptied(s, k), i),
{
    lemma_occupied_slot_not_reused(s, i, j);
}

/// A transfer accepted into slot `i` is what a reap of tag `i` hands back, and a second
/// reap of the same tag hands back nothing.
pub proof fn lemma_submitted_transfer_reaped_once<T>(s: Seq<Option<T>>, i: int, t: T)
    requires
        is_first_free(s, i),
    ensures
        occupied(placed(s, i, t), i),
        taken(placed(s, i, t), i) == Some(t),
        !occupied(emptied(placed(s, i, t), i), i),
        taken(emptied(placed(s, i, t), i), i) == None::<T>,
{
}

/// A submission that the kernel refuses hands back the very transfer that was placed,
/// and leaves the same slots occupied as before it.
pub proof fn lemma_refused_submission_leaves_no_slot<T>(s: Seq<Option<T>>, i: int, t: T)
    requires
        is_first_free(s, i),
    ensures
        taken(placed(s, i, t), i) == Some(t),
        occupied_slots(emptied(placed(s, i, t), i)) == occupied_slots(s),
{
    let after = emptied(placed(s, i, t), i);
    assert forall|k: int| occupied(after, k) <==> occupied(s, k) by {
        if k != i && 0 <= k < s.len() {
            assert(after[k] == s[k]);
        }
    }
    assert(occupied_slots(after) =~= occupied_slots(s));
}

/// The slot that a new transfer goes into.
pub open spec fn first_free<T>(s: Seq<Option<T>>) -> int {
    choose|i: int| is_first_free(s, i)
}

/// Every table has exactly one slot that a new transfer goes into.
pub proof fn lemma_first_free_unique<T>(s: Seq<Option<T>>, i: int)
    ensures
        is_first_free(s, first_free(s)),
        is_first_free(s, i) ==> i == first_free(s),
    decreases s.len(),
{
    if s.len() == 0 {
        assert(is_first_free(s, 0));
    } else {
        let prefix = s.drop_last();
        lemma_first_free_unique(prefix, 0);
        let j = first_free(prefix);
        assert forall|k: int| 0 <= k < prefix.len() implies #[trigger] prefix[k] == s[k] by {}
        assert forall|k: int| 0 <= k < j implies #[trigger] s[k] is Some by {
            assert(prefix[k] is Some);
        }
        if j < prefix.len() {
            assert(is_first_free(s, j));
        } else if s.last() is None {
            assert(is_first_free(s, s.len() - 1));
        } else {
            assert(is_first_free(s, s.len() as int));
        }
    }
    let f = first_free(s);
    if is_first_free(s, i) && i != f {
        if i < f {
            assert(s[i] is Some);
        } else {
            assert(s[f] is Some);
        }
    }
}

/// One step of work on the table: a submission of a transfer, or a reap of a tag.
pub enum SlotOp<T> {
    Submit(T),
    Reap(int),
}

/// The table after `op`.
pub open spec fn apply_op<T>(s: Seq<Option<T>>, op: SlotOp<T>) -> Seq<Option<T>> {
    match op {
        SlotOp::Submit(t) => placed(s, first_free(s), t),
        SlotOp::Reap(k) => emptied(s, k),
    }
}

/// The table after `ops`, in order.
pub open spec fn apply_ops<T>(s: Seq<Option<T>>, ops: Seq<SlotOp<T>>) -> Seq<Option<T>>
    decreases ops.len(),
{
    if ops.len() == 0 {
        s
    } else {
        apply_ops(apply_op(s, ops[0]), ops.drop_first())
    }
}

/// Over any sequence of submissions and reaps that does not reap tag `i`, the transfer in
/// slot `i` stays there unchanged; the reap of tag `i` that follows hands back exactly that
/// transfer, and leaves the slot empty so that no later reap of that tag hands it back again.
pub proof fn lemma_transfer_returned_by_its_reap<T>(s: Seq<Option<T>>, i: int, ops: Seq<SlotOp<T>>)
    requires
        occupied(s, i),
        forall|k: int| 0 <= k < ops.len() ==> ops[k] != SlotOp::<T>::Reap(i),
    ensures
        occupied(apply_ops(s, ops), i),
        apply_ops(s, ops)[i] == s[i],
        taken(apply_ops(s, ops), i) == s[i],
        !occupied(emptied(apply_ops(s, ops), i), i),
    decreases ops.len(),
{
    if ops.len() > 0 {
        let next = apply_op(s, ops[0]);
        match ops[0] {
            SlotOp::Submit(t) => {
                lemma_first_free_unique(s, 0);
                lemma_in_flight_slot_stable(s, i, first_free(s), i + 1, t);
            },
            SlotOp::Reap(k) => {
                lemma_first_free_unique(s, 0);
                lemma_in_flight_slot_stable(s, i, first_free(s), k, s[i]->Some_0);
            },
        }
        assert forall|k: int| 0 <= k < ops.drop_first().len() implies ops.drop_first()[k]
            != SlotOp::<T>::Reap(i) by {
            assert(ops.drop_first()[k] == ops[k + 1]);
        }
        lemma_transfer_returned_by_its_reap(next, i, ops.drop_first());
    }
}

/// The errno number that the kernel gives when a non-blocking reap finds nothing completed.
pub const EAGAIN: i32 = 11;

/// Why a reap call handed back no transfer.
#[derive(Debug, Copy, Clone, PartialEq, Eq, Structural)]
pub enum ReapError {
    /// Nothing has completed yet; try again later.
    WouldBlock,
    /// The call failed with this errno number (the device may be gone).
    Failed(i32),
}

pub open spec fn reap_error_of(errno: i32) -> ReapError {
    if errno == EAGAIN {
        ReapError::WouldBlock
    } else {
        ReapError::Failed(errno)
    }
}

/// Classifies the errno number of a failed reap call.
pub fn reap_error(errno: i32) -> (r: ReapError)
    ensures
        r == reap_error_of(errno),
{
    if errno == EAGAIN {
        ReapError::WouldBlock
    } else {
        ReapError::Failed(errno)
    }
}

} // verus!
