use std::collections::VecDeque;
use vstd::prelude::*;

verus! {

/// A first-in first-out queue of bytes.
///
/// Besides the bytes it holds, a queue keeps as ghost state every byte that was
/// ever appended to it and how many of those have been drained from its head.
/// Its well-formedness says that what it holds is exactly the part of that
/// history that has not been drained yet, in the order it was appended.
pub struct ByteQueue {
    bytes: VecDeque<u8>,
    history: Ghost<Seq<u8>>,
    drained: Ghost<nat>,
}

impl View for ByteQueue {
    type V = Seq<u8>;

    closed spec fn view(&self) -> Seq<u8> {
        self.bytes@
    }
}

impl ByteQueue {
    /// Every byte ever appended, in order.
    pub closed spec fn history(&self) -> Seq<u8> {
        self.history@
    }

    /// How many bytes were ever appended.
    pub open spec fn total_appended(&self) -> nat {
        self.history().len()
    }

    /// How many bytes were ever drained.
    pub closed spec fn total_drained(&self) -> nat {
        self.drained@
    }

    pub closed spec fn wf(&self) -> bool {
        &&& self.drained@ <= self.history@.len()
        &&& self.bytes@ == self.history@.skip(self.drained@ as int)
    }

    /// An empty queue with an empty history.
    pub fn new() -> (q: Self)
        ensures
            q.wf(),
            q@ == Seq::<u8>::empty(),
            q.history() == Seq::<u8>::empty(),
            q.total_drained() == 0,
    {
        let q = ByteQueue {
            bytes: VecDeque::new(),
            history: Ghost(Seq::empty()),
            drained: Ghost(0),
        };
        assert(q.history@.skip(0) =~= q.bytes@);
        q
    }

    /// The number of bytes held.
    pub fn len(&self) -> (n: usize)
        ensures
            n == self@.len(),
    {
        self.bytes.len()
    }

    /// Adds `chunk` at the tail.
    pub fn append(&mut self, chunk: &[u8])
        requires
            old(self).wf(),
        ensures
            final(self).wf(),
            final(self)@ == old(self)@ + chunk@,
            final(self).history() == old(self).history() + chunk@,
            final(self).total_drained() == old(self).total_drained(),
    {
        let ghost start = self.bytes@;
        let n = chunk.len();
        let mut i: usize = 0;
        while i < n
            invariant
                n == chunk@.len(),
                i <= n,
                self.bytes@ == start + chunk@.take(i as int),
                self.drained@ <= self.history@.len(),
                start == self.history@.skip(self.drained@ as int),
                self.history@ == old(self).history@,
                self.drained@ == old(self).drained@,
            decreases n - i,
        {
            self.bytes.push_back(chunk[i]);
            proof {
                assert(chunk@.take(i + 1) =~= chunk@.take(i as int).push(chunk@[i as int]));
            }
            i = i + 1;
        }
        proof {
            assert(chunk@.take(n as int) =~= chunk@);
            let ghost h = self.history@;
            self.history = Ghost(h + chunk@);
            assert((h + chunk@).skip(self.drained@ as int) =~= h.skip(self.drained@ as int)
                + chunk@);
        }
    }

    /// Moves bytes from the head of the queue into `dest`, as many as fit and
    /// as many as there are, and returns how many were moved. Never waits: an
    /// empty queue gives 0 at once.
    pub fn drain_into(&mut self, dest: &mut [u8]) -> (n: usize)
        requires
            old(self).wf(),
        ensures
            final(self).wf(),
            n == if old(dest)@.len() < old(self)@.len() {
                old(dest)@.len()
            } else {
                old(self)@.len()
            },
            final(dest)@ == old(self)@.take(n as int) + old(dest)@.skip(n as int),
            final(self)@ == old(self)@.skip(n as int),
            final(self).history() == old(self).history(),
            final(self).total_drained() == old(self).total_drained() + n,
    {
        let ghost start = self.bytes@;
        let ghost dest0 = dest@;
        let want = dest.len();
        let mut i: usize = 0;
        while i < want && self.bytes.len() > 0
            invariant
                want == dest0.len(),
                dest@.len() == want,
                i <= want,
                i <= start.len(),
                self.bytes@ == start.skip(i as int),
                dest@ == start.take(i as int) + dest0.skip(i as int),
                self.drained@ <= self.history@.len(),
                start == self.history@.skip(self.drained@ as int),
                self.history@ == old(self).history@,
                self.drained@ == old(self).drained@,
            decreases want - i,
        {
            let b = self.bytes.pop_front();
            match b {
                Some(x) => {
                    dest[i] = x;
                    proof {
                        assert(start.skip(i + 1) =~= start.skip(i as int).skip(1));
                        assert(start.take(i + 1) + dest0.skip(i + 1) =~= (start.take(i as int)
                            + dest0.skip(i as int)).update(i as int, x));
                    }
                    i = i + 1;
                },
                None => {},
            }
        }
        proof {
            let ghost d = self.drained@;
            self.drained = Ghost((d + i) as nat);
            assert(self.history@.skip(d + i) =~= self.history@.skip(d as int).skip(i as int));
        }
        i
    }

    /// The queue's length is what was ever appended less what was ever
    /// drained, and never less than zero.
    pub proof fn lemma_length_accounts(&self)
        requires
            self.wf(),
        ensures
            self.total_drained() <= self.total_appended(),
            self@.len() == self.total_appended() - self.total_drained(),
    {
    }

    /// The queue holds exactly the bytes appended and not yet drained, in the
    /// order they were appended.
    pub proof fn lemma_order_kept(&self)
        requires
            self.wf(),
        ensures
            self@ == self.history().skip(self.total_drained() as int),
    {
    }
}


/// The bytes of `chunks`, one chunk after another.
pub open spec fn concat(chunks: Seq<Seq<u8>>) -> Seq<u8>
    decreases chunks.len(),
{
    if chunks.len() == 0 {
        Seq::empty()
    } else {
        concat(chunks.drop_last()) + chunks.last()
    }
}

/// The sum of the chunks' sizes.
pub open spec fn total_size(chunks: Seq<Seq<u8>>) -> nat
    decreases chunks.len(),
{
    if chunks.len() == 0 {
        0
    } else {
        total_size(chunks.drop_last()) + chunks.last().len()
    }
}

pub proof fn lemma_concat_len(chunks: Seq<Seq<u8>>)
    ensures
        concat(chunks).len() == total_size(chunks),
    decreases chunks.len(),
{
    if chunks.len() > 0 {
        lemma_concat_len(chunks.drop_last());
    }
}

/// Appending one more chunk extends the concatenation by that chunk.
pub proof fn lemma_concat_push(chunks: Seq<Seq<u8>>, c: Seq<u8>)
    ensures
        concat(chunks.push(c)) == concat(chunks) + c,
        total_size(chunks.push(c)) == total_size(chunks) + c.len(),
{
    assert(chunks.push(c).drop_last() =~= chunks);
}

/// After a new queue has been given the chunks `s1 .. sn` to append (in
/// between, any drains), its length is the sum of their sizes less what was
/// drained, and what was drained is never more than that sum.
pub proof fn lemma_appended_chunks(q: ByteQueue, chunks: Seq<Seq<u8>>)
    requires
        q.wf(),
        q.history() == concat(chunks),
    ensures
        q.total_drained() <= total_size(chunks),
        q@.len() == total_size(chunks) - q.total_drained(),
{
    lemma_concat_len(chunks);
    q.lemma_length_accounts();
}

} // verus!
