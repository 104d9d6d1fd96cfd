//! Capture export: the record built for a classified frame and the bounded
//! buffer it is enqueued into.
//!
//! The buffer is a FIFO queue shared with an out-of-band consumer. Producers
//! never block: when the buffer already holds `capacity` records, the new
//! record is discarded and a loss counter increments, so data loss stays
//! observable without ever affecting the frame's verdict.

use vstd::prelude::*;

verus! {

/// The addresses and ports of a classified request, copied out of the
/// decoded headers. Addresses and ports are big-endian values of their
/// octets on the wire.
#[derive(Clone, Copy, PartialEq, Eq, Structural, Debug)]
pub struct RequestInfo {
    /// IPv4 source address.
    pub saddr: u32,
    /// IPv4 destination address.
    pub daddr: u32,
    /// Source transport port.
    pub sport: u16,
    /// Destination transport port.
    pub dport: u16,
}

/// One exported capture: the request's metadata plus its own copy of the
/// frame's transport payload. The consumer owns the copy once enqueued.
pub struct CaptureRecord {
    /// Addresses and ports of the classified request.
    pub info: RequestInfo,
    /// Copy of the frame's transport payload.
    pub payload: Vec<u8>,
}

/// Mathematical model of one capture record.
#[verifier::ext_equal]
pub ghost struct RecordModel {
    /// Addresses and ports of the classified request.
    pub info: RequestInfo,
    /// The payload octets.
    pub payload: Seq<u8>,
}

impl View for CaptureRecord {
    type V = RecordModel;

    open spec fn view(&self) -> RecordModel {
        RecordModel { info: self.info, payload: self.payload@ }
    }
}

/// Mathematical model of the capture buffer: the queued records in FIFO
/// order, the loss counter, and the fixed capacity.
#[verifier::ext_equal]
pub ghost struct BufferModel {
    /// Queued records, oldest first.
    pub records: Seq<RecordModel>,
    /// How many records were discarded for want of capacity.
    pub lost: u64,
    /// Most records the buffer ever holds at once.
    pub cap: nat,
}

/// The loss counter after one more discarded record: it sticks at the
/// largest representable count rather than wrap.
pub open spec fn spec_count_loss(n: u64) -> u64 {
    if n < u64::MAX {
        (n + 1) as u64
    } else {
        n
    }
}

/// How an export changes the buffer: the record is appended while capacity
/// remains, and otherwise discarded with the loss counted.
pub open spec fn spec_buffer_after_export(b: BufferModel, r: RecordModel) -> BufferModel {
    if b.records.len() < b.cap {
        BufferModel { records: b.records.push(r), lost: b.lost, cap: b.cap }
    } else {
        BufferModel { records: b.records, lost: spec_count_loss(b.lost), cap: b.cap }
    }
}

/// Bounded FIFO buffer of capture records with a non-blocking producer side.
pub struct RingBuffer {
    records: Vec<CaptureRecord>,
    capacity: usize,
    lost: u64,
}

impl View for RingBuffer {
    type V = BufferModel;

    closed spec fn view(&self) -> BufferModel {
        BufferModel {
            records: self.records@.map(|i: int, r: CaptureRecord| r@),
            lost: self.lost,
            cap: self.capacity as nat,
        }
    }
}

impl RingBuffer {
    /// The buffer never holds more records than its capacity.
    #[verifier::type_invariant]
    spec fn bounded(self) -> bool {
        self.records@.len() <= self.capacity as nat
    }

    /// An empty buffer that will hold at most `capacity` records at once.
    pub fn new(capacity: usize) -> (r: RingBuffer)
        ensures
            r@.records == Seq::<RecordModel>::empty(),
            r@.lost == 0,
            r@.cap == capacity as nat,
    {
        let r = RingBuffer { records: Vec::new(), capacity, lost: 0 };
        proof {
            assert(r@.records =~= Seq::<RecordModel>::empty());
        }
        r
    }

    /// Enqueues one record without blocking: appended while capacity
    /// remains, otherwise discarded with the loss counted.
    pub fn push(&mut self, rec: CaptureRecord)
        ensures
            final(self)@ == spec_buffer_after_export(old(self)@, rec@),
    {
        proof {
            use_type_invariant(&*self);
        }
        // Vec::push may unwind, so the queue is swapped out of the field,
        // grown, and swapped back: the type invariant is then checked only
        // at the no-unwind swaps.
        let mut queue: Vec<CaptureRecord> = Vec::new();
        core::mem::swap(&mut queue, &mut self.records);
        if queue.len() < self.capacity {
            queue.push(rec);
        } else {
            if self.lost < u64::MAX {
                self.lost = self.lost + 1;
            }
        }
        core::mem::swap(&mut queue, &mut self.records);
        proof {
            if old(self)@.records.len() < old(self)@.cap {
                assert(self@.records =~= old(self)@.records.push(rec@));
            } else {
                assert(self@.records =~= old(self)@.records);
            }
            assert(self@ =~= spec_buffer_after_export(old(self)@, rec@));
        }
    }

    /// Dequeues the oldest record, in enqueue order, or returns `None` on an
    /// empty buffer.
    pub fn pop_front(&mut self) -> (r: Option<CaptureRecord>)
        ensures
            old(self)@.records.len() == 0 ==> r is None && final(self)@ == old(self)@,
            old(self)@.records.len() > 0 ==> {
                &&& r is Some
                &&& r.unwrap()@ == old(self)@.records[0]
                &&& final(self)@.records == old(self)@.records.skip(1)
                &&& final(self)@.lost == old(self)@.lost
                &&& final(self)@.cap == old(self)@.cap
            },
    {
        proof {
            use_type_invariant(&*self);
        }
        if self.records.len() == 0 {
            None
        } else {
            // Vec::remove may unwind, so the queue is swapped out of the
            // field, shortened, and swapped back, as in `push`.
            let mut queue: Vec<CaptureRecord> = Vec::new();
            core::mem::swap(&mut queue, &mut self.records);
            let rec = queue.remove(0);
            core::mem::swap(&mut queue, &mut self.records);
            proof {
                assert(self@.records =~= old(self)@.records.skip(1));
            }
            Some(rec)
        }
    }

    /// How many records are queued now: never more than the capacity, since
    /// the buffer is bounded.
    pub fn len(&self) -> (n: usize)
        ensures
            n == self@.records.len(),
            n <= self@.cap,
    {
        proof {
            use_type_invariant(&*self);
        }
        self.records.len()
    }

    /// How many records were discarded for want of capacity.
    pub fn lost_count(&self) -> (n: u64)
        ensures
            n == self@.lost,
    {
        self.lost
    }

    /// The most records the buffer ever holds at once.
    pub fn capacity(&self) -> (n: usize)
        ensures
            n == self@.cap,
    {
        self.capacity
    }
}

} // verus!
