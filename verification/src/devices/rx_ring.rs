use vstd::prelude::*;

use crate::devices::RxBufDesc;

verus! {

/// Number of packet buffers in the receive ring of the loopback device.
pub const LOOPBACK_DEVICE_NR_BUFS: usize = 64;

/// Size of a packet buffer: the longest IP datagram.
pub const IP_PAYLOAD_SIZE_MAX: usize = 65535;

/// Distance from `a` forward to `b` around a ring of `n` slots, in `0..n`.
pub open spec fn ring_dist(a: int, b: int, n: int) -> int {
    if a <= b {
        b - a
    } else {
        b + n - a
    }
}

/// The slot `k` places after `a` around a ring of `n` slots.
pub open spec fn ring_add(a: int, k: int, n: int) -> int {
    if a + k < n {
        a + k
    } else {
        a + k - n
    }
}

#[derive(Debug)]
pub struct LoPacketBuf {
    buf: Option<Vec<u8>>,
    written_size: usize,
}

impl LoPacketBuf {
    pub fn new() -> (b: LoPacketBuf)
        ensures
            b.data() == Seq::<u8>::empty(),
            !b.has_buf(),
    {
        LoPacketBuf { buf: None, written_size: 0 }
    }

    /// The packet held in this buffer.
    pub closed spec fn data(&self) -> Seq<u8> {
        match self.buf {
            Some(b) => b@.take(self.written_size as int),
            None => Seq::empty(),
        }
    }

    /// Whether a buffer was allocated for this slot.
    pub closed spec fn has_buf(&self) -> bool {
        self.buf is Some
    }

    pub closed spec fn holds_packet(&self) -> bool {
        &&& self.buf is Some
        &&& self.written_size <= self.buf->0@.len()
    }
}

/// The receive ring of the loopback device, in the manner of a NIC's DMA ring.
///
/// `next_to_write`, `end_of_writable` and `next_to_clean` are indices of buffers. In a cyclical
/// sense, next_to_write <= end_of_writable < next_to_clean <= next_to_write: the buffers from
/// `next_to_clean` up to `next_to_write` hold received packets, those from `next_to_write` up to
/// `end_of_writable` can be written, and the buffer at `end_of_writable`, just before
/// `next_to_clean`, is the one that is never written, so that a full ring is told from an empty
/// one.
#[derive(Debug)]
pub struct LoRxRing {
    next_to_write: usize,
    end_of_writable: usize,
    next_to_clean: usize,
    packet_bufs: Vec<LoPacketBuf>,
}

/// A buffer handed out by `buf_to_write`; `commit` gives it back to the ring as a received
/// packet.
pub struct LoRxRingWriteBuf {
    buf: Vec<u8>,
    slot: usize,
}

impl LoRxRingWriteBuf {
    /// The ring slot this buffer belongs to.
    pub closed spec fn slot(&self) -> int {
        self.slot as int
    }

    /// The bytes of the buffer.
    pub closed spec fn bytes(&self) -> Seq<u8> {
        self.buf@
    }

    /// Copies `data` to the start of the buffer.
    pub fn copy_from_slice(&mut self, data: &[u8])
        requires
            data@.len() <= old(self).bytes().len(),
        ensures
            final(self).slot() == old(self).slot(),
            final(self).bytes().len() == old(self).bytes().len(),
            final(self).bytes().take(data@.len() as int) == data@,
    {
        let mut i: usize = 0;
        while i < data.len()
            invariant
                i <= data@.len(),
                data@.len() <= self.buf@.len(),
                self.buf@.len() == old(self).buf@.len(),
                self.slot == old(self).slot,
                forall|j: int| 0 <= j < i ==> self.buf@[j] == data@[j],
            decreases data@.len() - i,
        {
            self.buf.set(i, data[i]);
            i = i + 1;
        }
        assert(self.buf@.take(data@.len() as int) =~= data@);
    }
}

impl LoRxRing {
    pub closed spec fn next_to_write(&self) -> int {
        self.next_to_write as int
    }

    pub closed spec fn end_of_writable(&self) -> int {
        self.end_of_writable as int
    }

    pub closed spec fn next_to_clean(&self) -> int {
        self.next_to_clean as int
    }

    /// Number of buffers that can still be written.
    pub open spec fn free_slots(&self) -> int {
        ring_dist(self.next_to_write(), self.end_of_writable(), LOOPBACK_DEVICE_NR_BUFS as int)
    }

    /// The packets received and not yet freed, oldest first.
    pub closed spec fn pending(&self) -> Seq<Seq<u8>> {
        Seq::new(
            ring_dist(self.next_to_clean as int, self.next_to_write as int, LOOPBACK_DEVICE_NR_BUFS as int) as nat,
            |k: int|
                self.packet_bufs@[ring_add(self.next_to_clean as int, k, LOOPBACK_DEVICE_NR_BUFS as int)].data(),
        )
    }

    pub closed spec fn wf(&self) -> bool {
        let n = LOOPBACK_DEVICE_NR_BUFS as int;
        let ntw = self.next_to_write as int;
        let eow = self.end_of_writable as int;
        let ntc = self.next_to_clean as int;
        &&& self.packet_bufs@.len() == n
        &&& ntw < n
        &&& eow < n
        &&& ntc < n
        &&& ring_add(eow, 1, n) == ntc
        &&& ring_dist(ntc, ntw, n) + ring_dist(ntw, eow, n) == n - 1
        &&& forall|k: int|
            0 <= k < ring_dist(ntc, ntw, n) ==> #[trigger] self.packet_bufs@[ring_add(
                ntc,
                k,
                n,
            )].holds_packet()
        &&& forall|i: int|
            0 <= i < n && (#[trigger] self.packet_bufs@[i]).buf is Some ==> self.packet_bufs@[i].buf->0@.len()
                == IP_PAYLOAD_SIZE_MAX
    }

    /// Every buffer but one either holds a received packet or can be written; the indices lie in
    /// the ring; the ring is empty when nothing is left to clean, and full when nothing is left
    /// to write.
    pub proof fn lemma_wf_counts(&self)
        requires
            self.wf(),
        ensures
            0 <= self.free_slots(),
            self.pending().len() + self.free_slots() == LOOPBACK_DEVICE_NR_BUFS - 1,
            0 <= self.next_to_write() < LOOPBACK_DEVICE_NR_BUFS,
            0 <= self.next_to_clean() < LOOPBACK_DEVICE_NR_BUFS,
            0 <= self.end_of_writable() < LOOPBACK_DEVICE_NR_BUFS,
            self.pending().len() == 0 <==> self.next_to_clean() == self.next_to_write(),
            self.free_slots() == 0 <==> self.next_to_write() == self.end_of_writable(),
    {
    }

    pub fn new() -> (ring: LoRxRing)
        ensures
            ring.wf(),
            ring.pending() == Seq::<Seq<u8>>::empty(),
            ring.next_to_write() == 1,
            ring.end_of_writable() == 0,
            ring.next_to_clean() == 1,
            ring.free_slots() == LOOPBACK_DEVICE_NR_BUFS - 1,
    {
        let mut bufs: Vec<LoPacketBuf> = Vec::new();
        let mut i: usize = 0;
        while i < LOOPBACK_DEVICE_NR_BUFS
            invariant
                i <= LOOPBACK_DEVICE_NR_BUFS,
                bufs@.len() == i,
                forall|j: int| 0 <= j < i ==> !(#[trigger] bufs@[j]).has_buf(),
            decreases LOOPBACK_DEVICE_NR_BUFS - i,
        {
            bufs.push(LoPacketBuf::new());
            i = i + 1;
        }
        let ring = LoRxRing { next_to_write: 1, end_of_writable: 0, next_to_clean: 1, packet_bufs: bufs };
        assert(ring.pending() =~= Seq::<Seq<u8>>::empty());
        ring
    }

    /// The oldest received packet and its descriptor, if any packet was received; nothing
    /// advances. `free_buf(desc)` must follow once the packet is handled.
    pub fn buf_to_clean(&self) -> (res: Option<(RxBufDesc, &[u8])>)
        requires
            self.wf(),
        ensures
            res is None <==> self.pending().len() == 0,
            res matches Some((desc, data)) ==> desc.value() == self.next_to_clean() && data@
                == self.pending()[0],
    {
        if self.next_to_clean == self.next_to_write {
            None
        } else {
            let ghost n = LOOPBACK_DEVICE_NR_BUFS as int;
            assert(ring_add(self.next_to_clean as int, 0, n) == self.next_to_clean);
            assert(self.packet_bufs@[ring_add(self.next_to_clean as int, 0, n)].holds_packet());
            let pk = &self.packet_bufs[self.next_to_clean];
            match &pk.buf {
                Some(b) => {
                    let data = vstd::slice::slice_subrange(b.as_slice(), 0, pk.written_size);
                    assert(data@ =~= self.pending()[0]);
                    Some((RxBufDesc::new(self.next_to_clean), data))
                },
                None => None,
            }
        }
    }

    /// Frees the buffer of `desc`, the oldest received packet: `next_to_clean` advances, and
    /// the buffers are freed by `desc` from `end_of_writable`: `end_of_writable` moves to `desc`,
    /// so one more buffer can be written.
    pub fn free_buf(&mut self, desc: RxBufDesc)
        requires
            old(self).wf(),
            old(self).pending().len() > 0,
            desc.value() == old(self).next_to_clean(),
        ensures
            final(self).wf(),
            final(self).pending() == old(self).pending().drop_first(),
            final(self).next_to_write() == old(self).next_to_write(),
            final(self).next_to_clean() == ring_add(
                old(self).next_to_clean(),
                1,
                LOOPBACK_DEVICE_NR_BUFS as int,
            ),
            final(self).end_of_writable() == desc.value(),
            final(self).free_slots() == old(self).free_slots() + 1,
    {
        let ghost n = LOOPBACK_DEVICE_NR_BUFS as int;
        let ghost old_pending = self.pending();
        let ntc = self.next_to_clean;
        self.next_to_clean = if ntc + 1 == LOOPBACK_DEVICE_NR_BUFS {
            0
        } else {
            ntc + 1
        };
        let next_to_write = self.next_to_write;
        let end_of_writable = self.end_of_writable;
        let d = desc.value();
        if next_to_write == end_of_writable || next_to_write < end_of_writable && (end_of_writable
            <= d || d <= next_to_write) || end_of_writable <= d && d <= next_to_write {
            self.end_of_writable = d;
        }
        assert(self.end_of_writable == d);
        assert forall|k: int| 0 <= k < ring_dist(self.next_to_clean as int, self.next_to_write as int, n)
            implies #[trigger] self.packet_bufs@[ring_add(self.next_to_clean as int, k, n)].holds_packet() by {
            assert(ring_add(self.next_to_clean as int, k, n) == ring_add(ntc as int, k + 1, n));
        }
        assert(self.pending() =~= old_pending.drop_first()) by {
            assert forall|k: int| 0 <= k < self.pending().len() implies self.pending()[k] == old_pending.drop_first()[k] by {
                assert(ring_add(self.next_to_clean as int, k, n) == ring_add(ntc as int, k + 1, n));
            }
        }
    }

    /// A buffer to write a received packet into, unless the ring is full.
    pub fn buf_to_write(&mut self) -> (res: Option<LoRxRingWriteBuf>)
        requires
            old(self).wf(),
        ensures
            final(self).wf(),
            final(self).pending() == old(self).pending(),
            final(self).next_to_write() == old(self).next_to_write(),
            final(self).end_of_writable() == old(self).end_of_writable(),
            final(self).next_to_clean() == old(self).next_to_clean(),
            res is None <==> old(self).free_slots() == 0,
            res is Some <==> old(self).free_slots() > 0,
            res matches Some(wb) ==> wb.slot() == old(self).next_to_write() && wb.bytes().len()
                == IP_PAYLOAD_SIZE_MAX,
    {
        if self.next_to_write == self.end_of_writable {
            None
        } else {
            let ghost n = LOOPBACK_DEVICE_NR_BUFS as int;
            let ghost old_pending = self.pending();
            let ghost old_bufs = self.packet_bufs@;
            let slot = self.next_to_write;
            let mut pk = LoPacketBuf::new();
            std::mem::swap(&mut pk, &mut self.packet_bufs[slot]);
            assert(old_bufs[slot as int].buf is Some ==> old_bufs[slot as int].buf->0@.len()
                == IP_PAYLOAD_SIZE_MAX);
            let buf = match pk.buf {
                Some(b) => b,
                None => vec![0u8; IP_PAYLOAD_SIZE_MAX],
            };
            assert forall|k: int| 0 <= k < ring_dist(self.next_to_clean as int, self.next_to_write as int, n)
                implies ring_add(self.next_to_clean as int, k, n) != slot by {}
            assert forall|k: int| 0 <= k < ring_dist(self.next_to_clean as int, self.next_to_write as int, n)
                implies #[trigger] self.packet_bufs@[ring_add(self.next_to_clean as int, k, n)].holds_packet() by {
                assert(old_bufs[ring_add(self.next_to_clean as int, k, n)].holds_packet());
            }
            assert(self.pending() =~= old_pending);
            assert forall|i: int|
                0 <= i < n && (#[trigger] self.packet_bufs@[i]).buf is Some implies self.packet_bufs@[i].buf->0@.len()
                    == IP_PAYLOAD_SIZE_MAX by {
                if i != slot {
                    assert(self.packet_bufs@[i] == old_bufs[i]);
                }
            }
            Some(LoRxRingWriteBuf { buf: buf, slot: slot })
        }
    }
}

impl LoRxRingWriteBuf {
    /// Gives the buffer back to `ring` as a received packet of its first `size` bytes;
    /// `next_to_write` advances.
    pub fn commit(self, ring: &mut LoRxRing, size: usize)
        requires
            old(ring).wf(),
            old(ring).free_slots() > 0,
            self.slot() == old(ring).next_to_write(),
            self.bytes().len() == IP_PAYLOAD_SIZE_MAX,
            size <= self.bytes().len(),
        ensures
            final(ring).wf(),
            final(ring).pending() == old(ring).pending().push(self.bytes().take(size as int)),
            final(ring).next_to_write() == ring_add(
                old(ring).next_to_write(),
                1,
                LOOPBACK_DEVICE_NR_BUFS as int,
            ),
            final(ring).end_of_writable() == old(ring).end_of_writable(),
            final(ring).next_to_clean() == old(ring).next_to_clean(),
            final(ring).free_slots() == old(ring).free_slots() - 1,
    {
        let ghost n = LOOPBACK_DEVICE_NR_BUFS as int;
        let ghost old_pending = ring.pending();
        let ghost old_bufs = ring.packet_bufs@;
        let ghost data = self.buf@.take(size as int);
        let slot = self.slot;
        let mut pk = LoPacketBuf { buf: Some(self.buf), written_size: size };
        std::mem::swap(&mut pk, &mut ring.packet_bufs[slot]);
        let ntw = ring.next_to_write;
        ring.next_to_write = if ntw + 1 == LOOPBACK_DEVICE_NR_BUFS {
            0
        } else {
            ntw + 1
        };
        assert(ring.packet_bufs@[slot as int].data() == data);
        assert forall|k: int| 0 <= k < ring_dist(ring.next_to_clean as int, ring.next_to_write as int, n)
            implies #[trigger] ring.packet_bufs@[ring_add(ring.next_to_clean as int, k, n)].holds_packet() by {
            if k < ring_dist(ring.next_to_clean as int, ntw as int, n) {
                assert(ring_add(ring.next_to_clean as int, k, n) != slot);
                assert(old_bufs[ring_add(ring.next_to_clean as int, k, n)].holds_packet());
            } else {
                assert(ring_add(ring.next_to_clean as int, k, n) == slot);
            }
        }
        assert(ring.pending() =~= old_pending.push(data)) by {
            assert forall|k: int| 0 <= k < ring.pending().len() implies ring.pending()[k] == old_pending.push(data)[k] by {
                if k < old_pending.len() {
                    assert(ring_add(ring.next_to_clean as int, k, n) != slot);
                } else {
                    assert(ring_add(ring.next_to_clean as int, k, n) == slot);
                }
            }
        }
    }
}

} // verus!
