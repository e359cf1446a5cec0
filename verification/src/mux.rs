//! Frame-oriented stream demultiplexer.  Each frame carries an on-wire
//! stream identifier and a flag; on an open frame a fresh stream identity
//! and a dense per-direction ordinal are assigned, data frames are routed
//! to the stream they belong to, and close or reset tears the stream down.

use vstd::prelude::*;

use crate::types::{META_RAW_CODE, StreamId, StreamMeta};
use crate::FlowDirection;

verus! {

/// What a frame announces.
#[derive(Clone, Copy, PartialEq, Eq, Structural, Debug)]
pub enum MuxFlag {
    Open,
    Data,
    Close,
    Reset,
}

/// A framing fault local to one frame.
#[derive(Clone, Copy, PartialEq, Eq, Structural, Debug)]
pub enum MuxError {
    /// An open frame re-used a live on-wire identifier.
    DuplicateStream,
    /// A data, close or reset frame named an unknown identifier.
    UnknownStream,
    /// The ordinal space of this direction is used up.
    Exhausted,
}

/// One stream the demultiplexer has seen: its on-wire identifier, its
/// assigned classification, and whether it is still live.
#[derive(Clone, Copy, PartialEq, Eq, Structural, Debug)]
pub struct StreamEntry {
    pub wire_id: u64,
    pub meta: StreamMeta,
    pub live: bool,
}

/// The demultiplexer's stream table.  Entries are never removed: a closed
/// stream keeps its record, so ordinals are never reused.
pub struct Multiplexer {
    entries: Vec<StreamEntry>,
    fwd_count: u64,
    bwd_count: u64,
    fwd_index: Ghost<Seq<int>>,
    bwd_index: Ghost<Seq<int>>,
}

impl Multiplexer {
    /// The streams seen so far, in order of opening.
    pub closed spec fn streams(&self) -> Seq<StreamEntry> {
        self.entries@
    }

    /// How many forward streams were opened.
    pub closed spec fn fwd(&self) -> int {
        self.fwd_count as int
    }

    /// How many backward streams were opened.
    pub closed spec fn bwd(&self) -> int {
        self.bwd_count as int
    }

    /// The stream table is consistent: every assigned ordinal is below its
    /// direction's counter, each ordinal is assigned to exactly one stream,
    /// every ordinal below the counter is assigned, and live streams have
    /// distinct on-wire identifiers.
    pub closed spec fn wf(&self) -> bool {
        &&& self.fwd_index@.len() == self.fwd_count
        &&& self.bwd_index@.len() == self.bwd_count
        &&& self.fwd_count < META_RAW_CODE
        &&& self.bwd_count < META_RAW_CODE
        &&& forall|k: int|
            0 <= k < self.fwd_count ==> 0 <= #[trigger] self.fwd_index@[k] < self.entries@.len()
                && self.entries@[self.fwd_index@[k]].meta == StreamMeta::Forward(k as u64)
        &&& forall|k: int|
            0 <= k < self.bwd_count ==> 0 <= #[trigger] self.bwd_index@[k] < self.entries@.len()
                && self.entries@[self.bwd_index@[k]].meta == StreamMeta::Backward(k as u64)
        &&& forall|i: int|
            0 <= i < self.entries@.len() ==> match (#[trigger] self.entries@[i]).meta {
                StreamMeta::Forward(k) => k < self.fwd_count && self.fwd_index@[k as int] == i,
                StreamMeta::Backward(k) => k < self.bwd_count && self.bwd_index@[k as int] == i,
                _ => false,
            }
    }

    /// An empty stream table.
    pub fn new() -> (r: Multiplexer)
        ensures
            r.wf(),
            r.streams() =~= Seq::<StreamEntry>::empty(),
            r.fwd() == 0,
            r.bwd() == 0,
    {
        Multiplexer {
            entries: Vec::new(),
            fwd_count: 0,
            bwd_count: 0,
            fwd_index: Ghost(Seq::empty()),
            bwd_index: Ghost(Seq::empty()),
        }
    }

    /// The position of the live stream with this on-wire identifier.
    fn find_live(&self, wire_id: u64) -> (r: Option<usize>)
        ensures
            r matches Some(i) ==> i < self.streams().len() && self.streams()[i as int].live
                && self.streams()[i as int].wire_id == wire_id,
            r is None ==> forall|i: int|
                0 <= i < self.streams().len() ==> !((#[trigger] self.streams()[i]).live
                    && self.streams()[i].wire_id == wire_id),
    {
        let n = self.entries.len();
        for i in 0..n
            invariant
                n == self.entries@.len(),
                forall|j: int|
                    0 <= j < i ==> !((#[trigger] self.entries@[j]).live && self.entries@[j].wire_id
                        == wire_id),
        {
            let e = self.entries[i];
            if e.live && e.wire_id == wire_id {
                return Some(i);
            }
        }
        None
    }

    /// Handle an open frame: assign the next dense ordinal of the frame's
    /// direction to a fresh stream.  Re-using a live identifier is a
    /// framing fault and changes nothing.
    pub fn on_open(&mut self, direction: FlowDirection, wire_id: u64) -> (r: Result<
        (StreamId, StreamMeta),
        MuxError,
    >)
        requires
            old(self).wf(),
        ensures
            final(self).wf(),
            r is Err ==> *final(self) == *old(self),
            r matches Ok((id, meta)) ==> {
                &&& match direction {
                    FlowDirection::Forward => {
                        &&& meta == StreamMeta::Forward(old(self).fwd() as u64)
                        &&& id == StreamId::Forward(old(self).fwd() as u64)
                        &&& final(self).fwd() == old(self).fwd() + 1
                        &&& final(self).bwd() == old(self).bwd()
                    },
                    FlowDirection::Backward => {
                        &&& meta == StreamMeta::Backward(old(self).bwd() as u64)
                        &&& id == StreamId::Backward(old(self).bwd() as u64)
                        &&& final(self).bwd() == old(self).bwd() + 1
                        &&& final(self).fwd() == old(self).fwd()
                    },
                }
                &&& final(self).streams() == old(self).streams().push(
                    StreamEntry { wire_id, meta, live: true },
                )
            },
            r is Err <==> (exists|i: int|
                0 <= i < old(self).streams().len() && (#[trigger] old(self).streams()[i]).live
                    && old(self).streams()[i].wire_id == wire_id) || match direction {
                FlowDirection::Forward => old(self).fwd() + 1 >= META_RAW_CODE,
                FlowDirection::Backward => old(self).bwd() + 1 >= META_RAW_CODE,
            },
    {
        match self.find_live(wire_id) {
            Some(_) => Err(MuxError::DuplicateStream),
            None => {
                match direction {
                    FlowDirection::Forward => {
                        if self.fwd_count + 1 >= META_RAW_CODE {
                            return Err(MuxError::Exhausted);
                        }
                        let ordinal = self.fwd_count;
                        let meta = StreamMeta::Forward(ordinal);
                        let ghost pos = self.entries@.len() as int;
                        self.entries.push(StreamEntry { wire_id, meta, live: true });
                        self.fwd_count = ordinal + 1;
                        proof {
                            self.fwd_index@ = self.fwd_index@.push(pos);
                        }
                        Ok((StreamId::Forward(ordinal), meta))
                    },
                    FlowDirection::Backward => {
                        if self.bwd_count + 1 >= META_RAW_CODE {
                            return Err(MuxError::Exhausted);
                        }
                        let ordinal = self.bwd_count;
                        let meta = StreamMeta::Backward(ordinal);
                        let ghost pos = self.entries@.len() as int;
                        self.entries.push(StreamEntry { wire_id, meta, live: true });
                        self.bwd_count = ordinal + 1;
                        proof {
                            self.bwd_index@ = self.bwd_index@.push(pos);
                        }
                        Ok((StreamId::Backward(ordinal), meta))
                    },
                }
            },
        }
    }

    /// Route a data frame: the classification of the live stream with this
    /// identifier, or a framing fault local to the frame.
    pub fn on_data(&self, wire_id: u64) -> (r: Result<StreamMeta, MuxError>)
        requires
            self.wf(),
        ensures
            r matches Ok(meta) ==> exists|i: int|
                0 <= i < self.streams().len() && (#[trigger] self.streams()[i]).live
                    && self.streams()[i].wire_id == wire_id && self.streams()[i].meta == meta,
            r is Err <==> forall|i: int|
                0 <= i < self.streams().len() ==> !((#[trigger] self.streams()[i]).live
                    && self.streams()[i].wire_id == wire_id),
    {
        match self.find_live(wire_id) {
            Some(i) => Ok(self.entries[i].meta),
            None => Err(MuxError::UnknownStream),
        }
    }

    /// Handle a close or reset frame: the stream stops being live; its
    /// record and ordinal remain.  An unknown identifier is a framing fault
    /// local to the frame and changes nothing.
    pub fn on_close(&mut self, wire_id: u64) -> (r: Result<StreamMeta, MuxError>)
        requires
            old(self).wf(),
        ensures
            final(self).wf(),
            final(self).fwd() == old(self).fwd(),
            final(self).bwd() == old(self).bwd(),
            r is Err ==> *final(self) == *old(self),
            r matches Ok(meta) ==> exists|i: int|
                {
                    &&& 0 <= i < old(self).streams().len()
                    &&& (#[trigger] old(self).streams()[i]).live
                    &&& old(self).streams()[i].wire_id == wire_id
                    &&& old(self).streams()[i].meta == meta
                    &&& final(self).streams() =~= old(self).streams().update(
                        i,
                        StreamEntry { wire_id, meta, live: false },
                    )
                },
            r is Err <==> forall|i: int|
                0 <= i < old(self).streams().len() ==> !((#[trigger] old(self).streams()[i]).live
                    && old(self).streams()[i].wire_id == wire_id),
    {
        match self.find_live(wire_id) {
            Some(i) => {
                let meta = self.entries[i].meta;
                let ghost before = self.entries@;
                self.entries.set(i, StreamEntry { wire_id, meta, live: false });
                proof {
                    assert forall|k: int| 0 <= k < self.fwd_count implies 0
                        <= #[trigger] self.fwd_index@[k] < self.entries@.len()
                        && self.entries@[self.fwd_index@[k]].meta == StreamMeta::Forward(
                        k as u64,
                    ) by {
                        assert(before[self.fwd_index@[k]].meta == StreamMeta::Forward(k as u64));
                    }
                    assert forall|k: int| 0 <= k < self.bwd_count implies 0
                        <= #[trigger] self.bwd_index@[k] < self.entries@.len()
                        && self.entries@[self.bwd_index@[k]].meta == StreamMeta::Backward(
                        k as u64,
                    ) by {
                        assert(before[self.bwd_index@[k]].meta == StreamMeta::Backward(k as u64));
                    }
                }
                Ok(meta)
            },
            None => Err(MuxError::UnknownStream),
        }
    }

    /// The position of the stream that carries forward ordinal `k`.
    pub closed spec fn fwd_slot(&self, k: int) -> int {
        self.fwd_index@[k]
    }

    /// The position of the stream that carries backward ordinal `k`.
    pub closed spec fn bwd_slot(&self, k: int) -> int {
        self.bwd_index@[k]
    }

    /// The assignments are exactly the dense ordinals: after any sequence
    /// of opens, data frames and closes with N forward and M backward
    /// opens, every ordinal below N or M is assigned to exactly one
    /// stream, and no other ordinal or classification appears.
    pub proof fn lemma_ordinals_dense(&self)
        requires
            self.wf(),
        ensures
            forall|k: int|
                0 <= k < self.fwd() ==> 0 <= #[trigger] self.fwd_slot(k) < self.streams().len()
                    && self.streams()[self.fwd_slot(k)].meta == StreamMeta::Forward(k as u64),
            forall|k: int|
                0 <= k < self.bwd() ==> 0 <= #[trigger] self.bwd_slot(k) < self.streams().len()
                    && self.streams()[self.bwd_slot(k)].meta == StreamMeta::Backward(k as u64),
            forall|i: int, j: int|
                0 <= i < self.streams().len() && 0 <= j < self.streams().len() && i != j
                    ==> (#[trigger] self.streams()[i]).meta != (#[trigger] self.streams()[j]).meta,
            forall|i: int|
                0 <= i < self.streams().len() ==> match (#[trigger] self.streams()[i]).meta {
                    StreamMeta::Forward(k) => k < self.fwd(),
                    StreamMeta::Backward(k) => k < self.bwd(),
                    _ => false,
                },
    {
    }
}

} // verus!
