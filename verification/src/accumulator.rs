//! Per-connection, per-direction reassembly buffer.  Chunks of arbitrary
//! size go in; only complete frames come out; incomplete trailing bytes are
//! retained for the next call.  No byte is ever lost, duplicated or
//! reordered: the bytes released so far followed by the retained residue
//! always equal the bytes fed so far.

use vstd::prelude::*;

use crate::custom_coding::u16_of_be;

verus! {

/// Reassembly buffer preserving byte-stream semantics across chunk
/// boundaries.
pub struct Accumulator {
    buffer: Vec<u8>,
    fed: Ghost<Seq<u8>>,
    emitted: Ghost<Seq<u8>>,
}

impl Accumulator {
    /// Concatenation of every chunk ever fed.
    pub closed spec fn fed(&self) -> Seq<u8> {
        self.fed@
    }

    /// Concatenation of every frame ever released.
    pub closed spec fn emitted(&self) -> Seq<u8> {
        self.emitted@
    }

    /// The incomplete trailing bytes currently retained.
    pub closed spec fn residue(&self) -> Seq<u8> {
        self.buffer@
    }

    /// The accumulator never loses, duplicates or reorders bytes: what came
    /// out, followed by what is retained, is exactly what went in.
    pub open spec fn wf(&self) -> bool {
        self.emitted() + self.residue() == self.fed()
    }

    /// An empty accumulator.
    pub fn new() -> (r: Accumulator)
        ensures
            r.wf(),
            r.fed() =~= Seq::<u8>::empty(),
            r.emitted() =~= Seq::<u8>::empty(),
            r.residue() =~= Seq::<u8>::empty(),
    {
        let r = Accumulator {
            buffer: Vec::new(),
            fed: Ghost(Seq::empty()),
            emitted: Ghost(Seq::empty()),
        };
        proof {
            assert(r.emitted() + r.residue() =~= r.fed());
        }
        r
    }

    /// Accept one chunk of arbitrary, possibly zero, length.  Never fails.
    pub fn feed(&mut self, chunk: &[u8])
        requires
            old(self).wf(),
        ensures
            final(self).wf(),
            final(self).fed() == old(self).fed() + chunk@,
            final(self).emitted() == old(self).emitted(),
            final(self).residue() == old(self).residue() + chunk@,
    {
        let n = chunk.len();
        for i in 0..n
            invariant
                n == chunk@.len(),
                self.buffer@ =~= old(self).buffer@ + chunk@.subrange(0, i as int),
                self.fed == old(self).fed,
                self.emitted == old(self).emitted,
        {
            self.buffer.push(chunk[i]);
        }
        proof {
            self.fed@ = self.fed@ + chunk@;
            assert(self.buffer@ =~= old(self).buffer@ + chunk@);
            assert(self.emitted() + self.residue() =~= self.fed());
        }
    }

    /// How many bytes are currently retained.
    pub fn available(&self) -> (r: usize)
        ensures
            r == self.residue().len(),
    {
        self.buffer.len()
    }

    /// Look at one retained byte without releasing it.
    pub fn peek(&self, i: usize) -> (r: u8)
        requires
            i < self.residue().len(),
        ensures
            r == self.residue()[i as int],
    {
        self.buffer[i]
    }

    /// Release the first `n` retained bytes as one complete frame, or
    /// nothing when fewer than `n` are retained.
    pub fn take(&mut self, n: usize) -> (r: Option<Vec<u8>>)
        requires
            old(self).wf(),
        ensures
            final(self).wf(),
            final(self).fed() == old(self).fed(),
            r is Some <==> n <= old(self).residue().len(),
            r matches Some(f) ==> {
                &&& f@ == old(self).residue().take(n as int)
                &&& final(self).residue() == old(self).residue().skip(n as int)
                &&& final(self).emitted() == old(self).emitted() + f@
            },
            r is None ==> *final(self) == *old(self),
    {
        if n > self.buffer.len() {
            return None;
        }
        let len = self.buffer.len();
        let mut frame: Vec<u8> = Vec::new();
        for i in 0..n
            invariant
                n <= len == self.buffer@.len(),
                frame@ =~= self.buffer@.subrange(0, i as int),
                *self == *old(self),
        {
            frame.push(self.buffer[i]);
        }
        let mut rest: Vec<u8> = Vec::new();
        for i in n..len
            invariant
                n <= len == self.buffer@.len(),
                rest@ =~= self.buffer@.subrange(n as int, i as int),
                *self == *old(self),
        {
            rest.push(self.buffer[i]);
        }
        self.buffer = rest;
        proof {
            self.emitted@ = self.emitted@ + frame@;
            assert(frame@ =~= old(self).buffer@.take(n as int));
            assert(self.buffer@ =~= old(self).buffer@.skip(n as int));
            assert(self.emitted() + self.residue() =~= self.fed());
        }
        Some(frame)
    }

    /// Release one length-prefixed frame: a 2-byte big-endian length `L`
    /// followed by `L` payload bytes, returned whole, prefix included.
    /// Nothing is released while the frame is still incomplete.
    pub fn take_frame_len16(&mut self) -> (r: Option<Vec<u8>>)
        requires
            old(self).wf(),
        ensures
            final(self).wf(),
            final(self).fed() == old(self).fed(),
            ({
                let res = old(self).residue();
                &&& r is Some <==> (res.len() >= 2 && res.len() >= 2 + u16_of_be(
                    res.take(2),
                ))
                &&& r matches Some(f) ==> {
                    let flen = 2 + u16_of_be(res.take(2)) as int;
                    &&& f@ == res.take(flen)
                    &&& final(self).residue() == res.skip(flen)
                    &&& final(self).emitted() == old(self).emitted() + f@
                }
                &&& r is None ==> *final(self) == *old(self)
            }),
    {
        if self.buffer.len() < 2 {
            return None;
        }
        let l = ((self.buffer[0] as u16) << 8) | (self.buffer[1] as u16);
        proof {
            assert(self.residue().take(2)[0] == self.residue()[0]);
            assert(self.residue().take(2)[1] == self.residue()[1]);
        }
        if self.buffer.len() - 2 < l as usize {
            return None;
        }
        self.take(2 + l as usize)
    }

    /// Byte conservation, stated on its own: for any sequence of feeds and
    /// takes, the concatenation of the released frames followed by the
    /// retained residue equals the concatenation of the fed chunks, in
    /// order.
    pub proof fn lemma_conservation(&self)
        requires
            self.wf(),
        ensures
            self.emitted() + self.residue() == self.fed(),
    {
    }
}

} // verus!
