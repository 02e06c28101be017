//! Fixed-capacity circular byte buffers shared between the receive interrupt
//! and the tasks that consume console input.
use vstd::prelude::*;

verus! {

/// Number of bytes a ring can hold.
pub const BUFFER_SIZE: usize = 128;

/// Contents after pushing `b`: the byte is appended unless the ring is full,
/// in which case it is dropped.
pub open spec fn after_push(q: Seq<u8>, b: u8) -> Seq<u8> {
    if q.len() < BUFFER_SIZE {
        q.push(b)
    } else {
        q
    }
}

/// Contents after pushing every byte of `s`, in order.
pub open spec fn push_all(q: Seq<u8>, s: Seq<u8>) -> Seq<u8>
    decreases s.len(),
{
    if s.len() == 0 {
        q
    } else {
        after_push(push_all(q, s.drop_last()), s.last())
    }
}

/// Byte that a pop hands out: the oldest one, if any.
pub open spec fn front(q: Seq<u8>) -> Option<u8> {
    if q.len() == 0 {
        None
    } else {
        Some(q[0])
    }
}

/// Contents after a pop.
pub open spec fn after_pop(q: Seq<u8>) -> Seq<u8> {
    if q.len() == 0 {
        q
    } else {
        q.drop_first()
    }
}

/// Receive ring filled by the interrupt handler.
pub struct AxRxRingBuffer {
    buffer: [u8; BUFFER_SIZE],
    head: usize,
    tail: usize,
    empty: bool,
}

impl AxRxRingBuffer {
    /// Index of the next byte to be read.
    pub closed spec fn head_index(&self) -> nat {
        self.head as nat
    }

    /// Index of the next slot to be written.
    pub closed spec fn tail_index(&self) -> nat {
        self.tail as nat
    }

    /// The explicit empty marker that tells a full ring from an empty one.
    pub closed spec fn empty_flag(&self) -> bool {
        self.empty
    }

    /// Number of stored bytes.
    pub closed spec fn count(&self) -> nat {
        if self.empty {
            0
        } else if self.head < self.tail {
            (self.tail - self.head) as nat
        } else {
            (self.tail + BUFFER_SIZE - self.head) as nat
        }
    }

    /// Both indices lie in the backing array; an empty ring has equal
    /// indices, and equal indices mean empty or full.
    pub closed spec fn wf(&self) -> bool {
        &&& self.head < BUFFER_SIZE
        &&& self.tail < BUFFER_SIZE
        &&& self.empty ==> self.head == self.tail
    }

    /// The stored bytes, oldest first.
    pub closed spec fn view(&self) -> Seq<u8> {
        Seq::new(self.count(), |i: int| self.buffer@[(self.head + i) % (BUFFER_SIZE as int)])
    }

    /// An empty ring.
    pub fn new() -> (r: Self)
        ensures
            r.wf(),
            r.view() == Seq::<u8>::empty(),
            r.head_index() == 0,
            r.tail_index() == 0,
            r.empty_flag(),
    {
        let r = AxRxRingBuffer { buffer: [0u8; BUFFER_SIZE], head: 0, tail: 0, empty: true };
        assert(r.view() =~= Seq::<u8>::empty());
        r
    }

    /// Stores `n` behind the bytes already held; a full ring drops it.
    pub fn push(&mut self, n: u8)
        requires
            old(self).wf(),
        ensures
            final(self).wf(),
            final(self).view() == after_push(old(self).view(), n),
            final(self).head_index() == old(self).head_index(),
            old(self).view().len() < BUFFER_SIZE ==> {
                &&& final(self).tail_index() == (old(self).tail_index() + 1) % (BUFFER_SIZE as nat)
                &&& !final(self).empty_flag()
            },
            old(self).view().len() >= BUFFER_SIZE ==> *final(self) == *old(self),
    {
        if self.tail != self.head || self.empty {
            let ghost q = self.view();
            self.buffer[self.tail] = n;
            self.tail = (self.tail + 1) % BUFFER_SIZE;
            self.empty = false;
            assert(self.view() =~= q.push(n));
        } else {
            assert(self.count() == BUFFER_SIZE);
        }
    }

    /// Takes out the oldest byte, or `None` when the ring is empty.
    pub fn pop(&mut self) -> (r: Option<u8>)
        requires
            old(self).wf(),
        ensures
            final(self).wf(),
            r == front(old(self).view()),
            final(self).view() == after_pop(old(self).view()),
            final(self).tail_index() == old(self).tail_index(),
            old(self).view().len() > 0 ==> {
                &&& final(self).head_index() == (old(self).head_index() + 1) % (BUFFER_SIZE as nat)
                &&& final(self).empty_flag() == (final(self).view().len() == 0)
            },
            old(self).view().len() == 0 ==> *final(self) == *old(self),
    {
        if self.empty {
            None
        } else {
            let ghost q = self.view();
            let ret = self.buffer[self.head];
            self.head = (self.head + 1) % BUFFER_SIZE;
            if self.head == self.tail {
                self.empty = true;
            }
            assert(self.view() =~= q.drop_first());
            Some(ret)
        }
    }

    /// Whether no byte is stored.
    pub fn is_empty(&self) -> (r: bool)
        requires
            self.wf(),
        ensures
            r == (self.view().len() == 0),
    {
        self.empty
    }

    /// Whether the ring holds `BUFFER_SIZE` bytes, so that a push is dropped.
    pub fn is_full(&self) -> (r: bool)
        requires
            self.wf(),
        ensures
            r == (self.view().len() >= BUFFER_SIZE),
    {
        self.tail == self.head && !self.empty
    }
}

/// Whether pushing `n` marks a line as ready: a line feed or a horizontal tab.
pub open spec fn releases_line(n: u8) -> bool {
    n == 10 || n == 9
}

/// Line marker after pushing `n` onto contents `q`: a stored line feed or
/// tab sets it, any other byte leaves it as it was, and so does a dropped
/// byte.
pub open spec fn ready_after_push(q: Seq<u8>, ready: bool, n: u8) -> bool {
    if q.len() < BUFFER_SIZE {
        ready || releases_line(n)
    } else {
        ready
    }
}

/// Line marker after a pop from contents `q`: kept until the ring drains.
pub open spec fn ready_after_pop(q: Seq<u8>, ready: bool) -> bool {
    ready && after_pop(q).len() > 0
}

/// Ring of canonical input bytes that also remembers whether a line feed or
/// tab was stored since it was last empty, so that a whole line can be
/// handed out at once.
pub struct StdioRingBuffer {
    ring: AxRxRingBuffer,
    get_enter: bool,
}

impl StdioRingBuffer {
    /// The inner ring is well formed, and an empty ring holds no marker.
    pub closed spec fn wf(&self) -> bool {
        &&& self.ring.wf()
        &&& self.ring.view().len() == 0 ==> !self.get_enter
    }

    /// Index of the next byte to be read.
    pub closed spec fn head_index(&self) -> nat {
        self.ring.head_index()
    }

    /// Index of the next slot to be written.
    pub closed spec fn tail_index(&self) -> nat {
        self.ring.tail_index()
    }

    /// The empty marker of the inner ring.
    pub closed spec fn empty_flag(&self) -> bool {
        self.ring.empty_flag()
    }

    /// The stored line marker.
    pub closed spec fn marker(&self) -> bool {
        self.get_enter
    }

    /// The stored bytes, oldest first.
    pub closed spec fn view(&self) -> Seq<u8> {
        self.ring.view()
    }

    /// A line (or a flush request) is waiting in the ring.
    pub closed spec fn line_ready(&self) -> bool {
        self.ring.view().len() > 0 && self.get_enter
    }

    /// An empty ring with no line ready.
    pub fn new() -> (r: Self)
        ensures
            r.wf(),
            r.view() == Seq::<u8>::empty(),
            !r.line_ready(),
            !r.marker(),
            r.empty_flag(),
            r.head_index() == 0,
            r.tail_index() == 0,
    {
        StdioRingBuffer { ring: AxRxRingBuffer::new(), get_enter: false }
    }

    /// Stores `n` unless the ring is full; a stored line feed or tab marks a
    /// line as ready.
    pub fn push(&mut self, n: u8)
        requires
            old(self).wf(),
        ensures
            final(self).wf(),
            final(self).view() == after_push(old(self).view(), n),
            final(self).line_ready() == ready_after_push(old(self).view(), old(self).line_ready(), n),
            final(self).head_index() == old(self).head_index(),
            old(self).view().len() < BUFFER_SIZE ==> {
                &&& final(self).tail_index() == (old(self).tail_index() + 1) % (BUFFER_SIZE as nat)
                &&& !final(self).empty_flag()
            },
            old(self).view().len() >= BUFFER_SIZE ==> *final(self) == *old(self),
    {
        if !self.ring.is_full() {
            self.ring.push(n);
            self.get_enter = self.get_enter || n == 10 || n == 9;
        }
    }

    /// Takes out the oldest byte; draining the ring clears the line marker.
    pub fn pop(&mut self) -> (r: Option<u8>)
        requires
            old(self).wf(),
        ensures
            final(self).wf(),
            r == front(old(self).view()),
            final(self).view() == after_pop(old(self).view()),
            final(self).line_ready() == ready_after_pop(old(self).view(), old(self).line_ready()),
            final(self).tail_index() == old(self).tail_index(),
            old(self).view().len() > 0 ==> {
                &&& final(self).head_index() == (old(self).head_index() + 1) % (BUFFER_SIZE as nat)
                &&& final(self).empty_flag() == (final(self).view().len() == 0)
            },
            old(self).view().len() == 0 ==> *final(self) == *old(self),
    {
        let r = self.ring.pop();
        if self.ring.is_empty() {
            self.get_enter = false;
        }
        r
    }

    /// Whether a line is ready to be handed out.
    pub fn is_release(&self) -> (r: bool)
        requires
            self.wf(),
        ensures
            r == self.line_ready(),
            r ==> self.view().len() > 0,
    {
        !self.ring.is_empty() && self.get_enter
    }

    /// Whether no byte is stored.
    pub fn is_empty(&self) -> (r: bool)
        requires
            self.wf(),
        ensures
            r == (self.view().len() == 0),
    {
        self.ring.is_empty()
    }
}

/// One operation on a ring: store a byte, or take the oldest one out.
pub enum RingOp {
    Push(u8),
    Pop,
}

/// Contents and popped bytes after running `ops` on a ring holding `q`.
pub open spec fn replay(q: Seq<u8>, ops: Seq<RingOp>) -> (Seq<u8>, Seq<u8>)
    decreases ops.len(),
{
    if ops.len() == 0 {
        (q, Seq::empty())
    } else {
        let (c, popped) = replay(q, ops.drop_last());
        match ops.last() {
            RingOp::Push(b) => (after_push(c, b), popped),
            RingOp::Pop => match front(c) {
                Some(b) => (after_pop(c), popped.push(b)),
                None => (c, popped),
            },
        }
    }
}

/// Bytes pushed by `ops`, in order.
pub open spec fn pushed(ops: Seq<RingOp>) -> Seq<u8>
    decreases ops.len(),
{
    if ops.len() == 0 {
        Seq::empty()
    } else {
        match ops.last() {
            RingOp::Push(b) => pushed(ops.drop_last()).push(b),
            RingOp::Pop => pushed(ops.drop_last()),
        }
    }
}

/// No push of `ops`, run from contents `q`, meets a full ring.
pub open spec fn within_capacity(q: Seq<u8>, ops: Seq<RingOp>) -> bool
    decreases ops.len(),
{
    if ops.len() == 0 {
        true
    } else {
        &&& within_capacity(q, ops.drop_last())
        &&& match ops.last() {
            RingOp::Push(_) => replay(q, ops.drop_last()).0.len() < BUFFER_SIZE,
            RingOp::Pop => true,
        }
    }
}

/// First in, first out: while no push meets a full ring, the bytes popped
/// followed by the bytes still held are exactly the bytes held at the start
/// followed by the bytes pushed.
pub proof fn lemma_fifo(q: Seq<u8>, ops: Seq<RingOp>)
    requires
        within_capacity(q, ops),
    ensures
        replay(q, ops).1 + replay(q, ops).0 == q + pushed(ops),
    decreases ops.len(),
{
    if ops.len() > 0 {
        let prev = ops.drop_last();
        lemma_fifo(q, prev);
        let (c, popped) = replay(q, prev);
        match ops.last() {
            RingOp::Push(b) => {
                assert(popped + c.push(b) =~= (popped + c).push(b));
                assert(q + pushed(prev).push(b) =~= (q + pushed(prev)).push(b));
            },
            RingOp::Pop => {
                if c.len() > 0 {
                    assert(popped.push(c[0]) + c.drop_first() =~= popped + c);
                }
            },
        }
    }
}

/// Every byte pushed into an empty ring comes out, in order, when no push
/// meets a full ring.
pub proof fn lemma_fifo_from_empty(ops: Seq<RingOp>)
    requires
        within_capacity(Seq::empty(), ops),
    ensures
        replay(Seq::empty(), ops).1 + replay(Seq::empty(), ops).0 == pushed(ops),
{
    lemma_fifo(Seq::empty(), ops);
    assert(Seq::<u8>::empty() + pushed(ops) =~= pushed(ops));
}

/// Pushing any bytes into an empty ring keeps exactly the first
/// `BUFFER_SIZE` of them; the rest are dropped.
pub proof fn lemma_push_all_keeps_first(s: Seq<u8>)
    ensures
        push_all(Seq::empty(), s) == s.take(
            if s.len() < BUFFER_SIZE {
                s.len() as int
            } else {
                BUFFER_SIZE as int
            },
        ),
    decreases s.len(),
{
    if s.len() == 0 {
        assert(s.take(0) =~= Seq::<u8>::empty());
    } else {
        let p = s.drop_last();
        lemma_push_all_keeps_first(p);
        if p.len() < BUFFER_SIZE {
            assert(p.take(p.len() as int).push(s.last()) =~= s.take(s.len() as int));
        } else {
            assert(p.take(BUFFER_SIZE as int) =~= s.take(BUFFER_SIZE as int));
        }
    }
}

/// A push into a full ring leaves what it holds unchanged.
pub proof fn lemma_drop_on_full(q: Seq<u8>, b: u8)
    requires
        q.len() == BUFFER_SIZE,
    ensures
        after_push(q, b) == q,
{
}

/// Filling an empty ring with `BUFFER_SIZE` bytes and pushing one more keeps
/// exactly the first `BUFFER_SIZE` bytes.
pub proof fn lemma_fill_then_push(s: Seq<u8>, b: u8)
    requires
        s.len() == BUFFER_SIZE,
    ensures
        ({
            let ops = Seq::new(s.len(), |i: int| RingOp::Push(s[i])).push(RingOp::Push(b));
            replay(Seq::empty(), ops).0 == s
        }),
{
    let fill = Seq::new(s.len(), |i: int| RingOp::Push(s[i]));
    lemma_replay_pushes(s, s.len() as int);
    assert(fill.subrange(0, s.len() as int) =~= fill);
    assert(s.subrange(0, s.len() as int) =~= s);
    let ops = fill.push(RingOp::Push(b));
    assert(ops.drop_last() =~= fill);
}

/// Pushing the first `k` bytes of `s` into an empty ring, with `s` no longer
/// than the ring, stores exactly them.
proof fn lemma_replay_pushes(s: Seq<u8>, k: int)
    requires
        s.len() <= BUFFER_SIZE,
        0 <= k <= s.len(),
    ensures
        replay(Seq::empty(), Seq::new(s.len(), |i: int| RingOp::Push(s[i])).subrange(0, k)).0
            == s.subrange(0, k),
    decreases k,
{
    let fill = Seq::new(s.len(), |i: int| RingOp::Push(s[i]));
    if k == 0 {
        assert(s.subrange(0, 0) =~= Seq::<u8>::empty());
    } else {
        lemma_replay_pushes(s, k - 1);
        assert(fill.subrange(0, k).drop_last() =~= fill.subrange(0, k - 1));
        assert(s.subrange(0, k) =~= s.subrange(0, k - 1).push(s[k - 1]));
    }
}

/// Line marker after `k` pops from contents `q`.
pub open spec fn ready_after_pops(q: Seq<u8>, ready: bool, k: nat) -> bool
    decreases k,
{
    if k == 0 {
        ready
    } else {
        ready_after_pop(after_pops(q, (k - 1) as nat), ready_after_pops(q, ready, (k - 1) as nat))
    }
}

/// Contents after `k` pops from `q`.
pub open spec fn after_pops(q: Seq<u8>, k: nat) -> Seq<u8>
    decreases k,
{
    if k == 0 {
        q
    } else {
        after_pop(after_pops(q, (k - 1) as nat))
    }
}

/// A stored line feed or tab makes a line ready, and pops keep it ready
/// exactly until the ring is drained.
pub proof fn lemma_line_ready(q: Seq<u8>, ready: bool, n: u8, k: nat)
    requires
        q.len() < BUFFER_SIZE,
        releases_line(n),
    ensures
        ready_after_push(q, ready, n),
        ready_after_pops(after_push(q, n), true, k) == (after_pops(after_push(q, n), k).len() > 0),
    decreases k,
{
    if k > 0 {
        lemma_line_ready(q, ready, n, (k - 1) as nat);
        let c = after_pops(after_push(q, n), (k - 1) as nat);
        if c.len() == 0 {
            assert(after_pop(c).len() == 0);
        }
    }
}

/// Once a line is ready, a push of any byte keeps it ready, and a pop
/// keeps it ready exactly while bytes remain.
pub proof fn lemma_marker_sticky(q: Seq<u8>, m: u8)
    ensures
        ready_after_push(q, true, m),
        ready_after_pop(q, true) == (after_pop(q).len() > 0),
{
}

/// A drained ring never reports a ready line.
pub proof fn lemma_drained_not_ready(r: StdioRingBuffer)
    requires
        r.wf(),
    ensures
        r.view().len() == 0 ==> !r.line_ready(),
{
}

/// The indices of a well-formed ring stay inside the backing array, and the
/// empty marker agrees with equal indices except when the ring is full.
pub proof fn lemma_ring_indices(r: AxRxRingBuffer)
    requires
        r.wf(),
    ensures
        r.head_index() < BUFFER_SIZE,
        r.tail_index() < BUFFER_SIZE,
        r.view().len() <= BUFFER_SIZE,
        r.view().len() < BUFFER_SIZE ==> (r.empty_flag() == (r.head_index() == r.tail_index())),
        r.empty_flag() == (r.view().len() == 0),
{
}

/// The same holds of the ring under a line ring, whose marker is never set
/// while it is empty.
pub proof fn lemma_line_ring_indices(r: StdioRingBuffer)
    requires
        r.wf(),
    ensures
        r.head_index() < BUFFER_SIZE,
        r.tail_index() < BUFFER_SIZE,
        r.view().len() <= BUFFER_SIZE,
        r.view().len() < BUFFER_SIZE ==> (r.empty_flag() == (r.head_index() == r.tail_index())),
        r.empty_flag() == (r.view().len() == 0),
        r.view().len() == 0 ==> !r.marker(),
        r.line_ready() == r.marker(),
{
    lemma_ring_indices(r.ring);
}

} // verus!
