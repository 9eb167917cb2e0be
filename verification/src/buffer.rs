//! The IO buffer of a transport: a byte queue of fixed capacity

use vstd::prelude::*;

verus! {

/// Byte queue over a storage of fixed size
///
/// Bytes come out in the order in which they went in. Its view is the bytes
/// that are there to be read.
pub struct Buffer {
    storage: Vec<u8>,
    /// Position of the first byte to read
    rpos: usize,
    /// Position behind the last byte to read
    wpos: usize,
}

impl View for Buffer {
    type V = Seq<u8>;

    closed spec fn view(&self) -> Seq<u8> {
        self.storage@.subrange(self.rpos as int, self.wpos as int)
    }
}

impl Buffer {
    pub closed spec fn wf(self) -> bool {
        self.rpos <= self.wpos <= self.storage.len()
    }

    /// How many bytes the queue can hold
    pub closed spec fn capacity(self) -> nat {
        self.storage.len() as nat
    }

    /// A queue never holds more bytes than its capacity.
    pub proof fn fits_capacity(self)
        requires
            self.wf(),
        ensures
            self@.len() <= self.capacity() <= usize::MAX,
    {
    }

    /// An empty queue over `storage`
    pub fn new(storage: Vec<u8>) -> (buffer: Buffer)
        ensures
            buffer.wf(),
            buffer@ == Seq::<u8>::empty(),
            buffer.capacity() == storage@.len(),
    {
        let buffer = Buffer { storage, rpos: 0, wpos: 0 };
        assert(buffer@ =~= Seq::empty());
        buffer
    }

    /// How many bytes there are to read
    pub fn available_read(&self) -> (n: usize)
        requires
            self.wf(),
        ensures
            n == self@.len(),
    {
        self.wpos - self.rpos
    }

    /// How many bytes there is room for
    pub fn available_write(&self) -> (n: usize)
        requires
            self.wf(),
        ensures
            n == self.capacity() - self@.len(),
    {
        self.storage.len() - (self.wpos - self.rpos)
    }

    /// Moves the bytes to the start of the storage
    fn shift(&mut self)
        requires
            old(self).wf(),
        ensures
            final(self).wf(),
            final(self)@ == old(self)@,
            final(self).capacity() == old(self).capacity(),
            final(self).rpos == 0,
    {
        let ghost before = self.storage@;
        let rpos: usize = self.rpos;
        let len: usize = self.wpos - self.rpos;
        let mut i: usize = 0;
        while i < len
            invariant
                i <= len,
                len + rpos <= before.len(),
                self.storage.len() == before.len(),
                forall|j: int| 0 <= j < i ==> self.storage@[j] == before[rpos + j],
                forall|j: int| i <= j < before.len() ==> self.storage@[j] == before[j],
            decreases len - i,
        {
            self.storage[i] = self.storage[rpos + i];
            i = i + 1;
        }
        self.rpos = 0;
        self.wpos = len;
        assert(self@ =~= old(self)@);
    }

    /// Appends as much of `src` as there is room for and returns how much that was
    pub fn write(&mut self, src: &[u8]) -> (n: usize)
        requires
            old(self).wf(),
        ensures
            final(self).wf(),
            final(self).capacity() == old(self).capacity(),
            n == (if src@.len() <= old(self).capacity() - old(self)@.len() {
                src@.len() as int
            } else {
                old(self).capacity() - old(self)@.len()
            }),
            final(self)@ == old(self)@ + src@.take(n as int),
    {
        let room: usize = self.available_write();
        let n: usize = if src.len() <= room {
            src.len()
        } else {
            room
        };
        if n > self.storage.len() - self.wpos {
            self.shift();
        }
        let ghost before = self.storage@;
        let ghost rpos = self.rpos;
        let wpos: usize = self.wpos;
        let mut i: usize = 0;
        while i < n
            invariant
                i <= n <= src@.len(),
                wpos + n <= before.len(),
                self.storage.len() == before.len(),
                forall|j: int| 0 <= j < wpos ==> self.storage@[j] == before[j],
                forall|j: int| 0 <= j < i ==> self.storage@[wpos + j] == src@[j],
                self.wpos == wpos,
                self.rpos == rpos,
            decreases n - i,
        {
            self.storage[wpos + i] = src[i];
            i = i + 1;
        }
        self.wpos = wpos + n;
        assert forall|j: int| 0 <= j < self@.len() implies self@[j] == (old(self)@ + src@.take(
            n as int,
        ))[j] by {
            let k = j + self.rpos - wpos;
            if k >= 0 {
                assert(self.storage@[wpos + k] == src@[k]);
            }
        }
        assert(self@ =~= old(self)@ + src@.take(n as int));
        n
    }

    /// The first `n` bytes, or all of them if there are fewer
    pub fn peek(&self, n: usize) -> (bytes: Vec<u8>)
        requires
            self.wf(),
        ensures
            bytes@ == prefix(self@, n as nat),
    {
        let len: usize = if n <= self.available_read() {
            n
        } else {
            self.available_read()
        };
        let mut bytes: Vec<u8> = Vec::new();
        let mut i: usize = 0;
        while i < len
            invariant
                i <= len,
                self.rpos + len <= self.storage.len(),
                bytes@.len() == i,
                forall|j: int| 0 <= j < i ==> bytes@[j] == self.storage@[self.rpos + j],
            decreases len - i,
        {
            bytes.push(self.storage[self.rpos + i]);
            i = i + 1;
        }
        assert(bytes@ =~= prefix(self@, n as nat));
        bytes
    }

    /// Drops the first `n` bytes
    pub fn consume(&mut self, n: usize)
        requires
            old(self).wf(),
            n <= old(self)@.len(),
        ensures
            final(self).wf(),
            final(self).capacity() == old(self).capacity(),
            final(self)@ == old(self)@.skip(n as int),
    {
        self.rpos = self.rpos + n;
        assert(self@ =~= old(self)@.skip(n as int));
    }

    /// Moves bytes to the start of `dst`, as many as there are and fit, and
    /// returns how many
    pub fn read(&mut self, dst: &mut [u8]) -> (n: usize)
        requires
            old(self).wf(),
        ensures
            final(self).wf(),
            final(self).capacity() == old(self).capacity(),
            n == prefix(old(self)@, old(dst)@.len()).len(),
            final(self)@ == old(self)@.skip(n as int),
            final(dst)@ == old(self)@.take(n as int) + old(dst)@.skip(n as int),
    {
        let n: usize = if dst.len() <= self.available_read() {
            dst.len()
        } else {
            self.available_read()
        };
        let ghost target = dst@;
        let ghost source = self@;
        let mut i: usize = 0;
        while i < n
            invariant
                i <= n <= target.len(),
                n <= source.len(),
                self.wf(),
                source == self@,
                dst@.len() == target.len(),
                forall|j: int| 0 <= j < i ==> dst@[j] == source[j],
                forall|j: int| i <= j < target.len() ==> dst@[j] == target[j],
            decreases n - i,
        {
            dst[i] = self.storage[self.rpos + i];
            i = i + 1;
        }
        assert(dst@ =~= source.take(n as int) + target.skip(n as int));
        self.consume(n);
        n
    }

    /// Drops all bytes
    pub fn clean(&mut self)
        ensures
            final(self).wf(),
            final(self).capacity() == old(self).capacity(),
            final(self)@ == Seq::<u8>::empty(),
    {
        self.rpos = 0;
        self.wpos = 0;
        assert(self@ =~= Seq::empty());
    }
}

/// The first `n` elements of `s`, or all of them if there are fewer
pub open spec fn prefix(s: Seq<u8>, n: nat) -> Seq<u8> {
    if n <= s.len() {
        s.take(n as int)
    } else {
        s
    }
}

/// Bytes come out as they went in: what a write takes is the start of the source, as much
/// as there is room for, and comes behind what is there; what a read gives is the start of
/// what is there, and the rest stays.
pub proof fn bytes_come_out_as_they_went_in(
    w: &mut Buffer,
    src: &[u8],
    taken: usize,
    r: &mut Buffer,
    dst: &mut [u8],
    given: usize,
)
    requires
        call_ensures(Buffer::write, (w, src), taken),
        call_ensures(Buffer::read, (r, dst), given),
        old(w)@.len() <= old(w).capacity(),
    ensures
        ({
            let before = old(w)@;
            let after = final(w)@;
            &&& taken <= src@.len() && before.len() + taken <= old(w).capacity()
            &&& taken == src@.len() || before.len() + taken == old(w).capacity()
            &&& after.len() == before.len() + taken
            &&& forall|i: int| 0 <= i < before.len() ==> after[i] == before[i]
            &&& forall|i: int| 0 <= i < taken ==> after[before.len() + i] == src@[i]
            &&& final(w).capacity() == old(w).capacity()
        }),
        ({
            let before = old(r)@;
            let after = final(r)@;
            &&& given <= old(dst)@.len() && given <= before.len()
            &&& given == old(dst)@.len() || given == before.len()
            &&& after.len() == before.len() - given
            &&& forall|i: int| 0 <= i < after.len() ==> after[i] == before[given + i]
            &&& final(dst)@.len() == old(dst)@.len()
            &&& forall|i: int| 0 <= i < given ==> final(dst)@[i] == before[i]
            &&& forall|i: int| given <= i < old(dst)@.len() ==> final(dst)@[i] == old(dst)@[i]
            &&& final(r).capacity() == old(r).capacity()
        }),
{
}

/// Looking at the first bytes gives as many of them as there are, consuming drops as many
/// as asked for, and cleaning drops all. A new queue is empty and as large as its storage.
pub proof fn other_operations_on_the_queue(
    b: &Buffer,
    n: usize,
    peeked: Vec<u8>,
    readable: usize,
    free: usize,
    c: &mut Buffer,
    k: usize,
    d: &mut Buffer,
    storage: Vec<u8>,
    fresh: Buffer,
)
    requires
        call_ensures(Buffer::peek, (b, n), peeked),
        call_ensures(Buffer::available_read, (b,), readable),
        call_ensures(Buffer::available_write, (b,), free),
        call_ensures(Buffer::consume, (c, k), ()),
        k <= old(c)@.len(),
        call_ensures(Buffer::clean, (d,), ()),
        call_ensures(Buffer::new, (storage,), fresh),
    ensures
        peeked@.len() == if n <= b@.len() {
            n as nat
        } else {
            b@.len()
        },
        forall|i: int| 0 <= i < peeked@.len() ==> peeked@[i] == b@[i],
        readable == b@.len(),
        readable + free == b.capacity(),
        final(c)@.len() == old(c)@.len() - k,
        forall|i: int| 0 <= i < final(c)@.len() ==> final(c)@[i] == old(c)@[k + i],
        final(c).capacity() == old(c).capacity(),
        final(d)@.len() == 0,
        final(d).capacity() == old(d).capacity(),
        fresh.wf(),
        fresh@.len() == 0,
        fresh.capacity() == storage@.len(),
{
}

} // verus!
