//! Ledger-hash extraction from snark work.  A completed work carries one
//! or two statements; each statement names source and target ledgers by
//! 32-byte hashes, of which the 31 low bytes are recorded for correlation.

use vstd::prelude::*;

verus! {

/// One completed snark work, reduced to the ledger hashes its statements
/// name.
#[derive(Clone, Copy, Debug)]
pub enum SnarkWorkSummary {
    /// A single statement: source and target ledger.
    One { source: [u8; 32], target: [u8; 32] },
    /// A merge of two statements: first source, shared middle, second
    /// target.
    Two { first_source: [u8; 32], middle: [u8; 32], second_target: [u8; 32] },
}

/// A snark-pool change, reduced to what hash extraction reads.
#[derive(Clone, Copy, Debug)]
pub enum SnarkPoolDiffSummary {
    /// A solved work was added to the pool.
    AddSolvedWork(SnarkWorkSummary),
    /// Any other change.
    Empty,
}

/// A block, reduced to the completed works of its staged ledger diff.
pub struct BlockSummary {
    pub first_works: Vec<SnarkWorkSummary>,
    pub second_works: Option<Vec<SnarkWorkSummary>>,
}

/// A snark work presented by its ledger hashes alone.
#[derive(Clone, Copy, Debug)]
pub enum SnarkWithHash {
    /// A single statement: its two ledger hashes.
    Leaf { hashes: [[u8; 32]; 2] },
    /// A merge: its three ledger hashes.
    Merge { hashes: [[u8; 32]; 3] },
}

/// Which position in a statement a recorded ledger hash came from.
#[derive(Clone, Copy, PartialEq, Eq, Structural, Debug)]
pub enum LedgerHashKind {
    Source,
    Target,
    FirstSource,
    Middle,
    SecondTarget,
}

/// One recorded ledger hash: its position and its 31 recorded bytes.
#[derive(Clone, Copy, Debug)]
pub struct LedgerHash {
    pub kind: LedgerHashKind,
    pub hash: [u8; 31],
}

/// Whether a snark-with-hashes presents a work.
pub open spec fn snark_matches(r: SnarkWithHash, w: SnarkWorkSummary) -> bool {
    match w {
        SnarkWorkSummary::One { source, target } => r matches SnarkWithHash::Leaf { hashes }
            && hashes@[0]@ == source@ && hashes@[1]@ == target@,
        SnarkWorkSummary::Two { first_source, middle, second_target } => r matches SnarkWithHash::Merge { hashes }
            && hashes@[0]@ == first_source@ && hashes@[1]@ == middle@ && hashes@[2]@
            == second_target@,
    }
}

impl SnarkWithHash {
    /// The hashes of the work a pool change adds, when it adds one.
    pub fn try_from_inner(inner: &SnarkPoolDiffSummary) -> (r: Option<SnarkWithHash>)
        ensures
            match inner {
                SnarkPoolDiffSummary::AddSolvedWork(w) => r matches Some(s) && snark_matches(
                    s,
                    *w,
                ),
                SnarkPoolDiffSummary::Empty => r is None,
            },
    {
        match inner {
            SnarkPoolDiffSummary::AddSolvedWork(w) => Some(Self::of_work(w)),
            SnarkPoolDiffSummary::Empty => None,
        }
    }

    /// The hashes of one completed work.
    pub fn of_work(w: &SnarkWorkSummary) -> (r: SnarkWithHash)
        ensures
            snark_matches(r, *w),
    {
        match w {
            SnarkWorkSummary::One { source, target } => SnarkWithHash::Leaf {
                hashes: [*source, *target],
            },
            SnarkWorkSummary::Two { first_source, middle, second_target } => SnarkWithHash::Merge {
                hashes: [*first_source, *middle, *second_target],
            },
        }
    }

    /// The hashes of every completed work of a block, first diff part then
    /// the second, in order.
    pub fn try_from_block(block: &BlockSummary) -> (r: Vec<SnarkWithHash>)
        ensures
            ({
                let works = block.first_works@ + (match block.second_works {
                    None => Seq::empty(),
                    Some(sw) => sw@,
                });
                &&& r@.len() == works.len()
                &&& forall|j: int|
                    0 <= j < works.len() ==> snark_matches(#[trigger] r@[j], works[j])
            }),
    {
        let ghost works = block.first_works@ + (match &block.second_works {
            None => Seq::<SnarkWorkSummary>::empty(),
            Some(sw) => sw@,
        });
        let mut r: Vec<SnarkWithHash> = Vec::new();
        let n1 = block.first_works.len();
        for i in 0..n1
            invariant
                n1 == block.first_works@.len(),
                works == block.first_works@ + (match block.second_works {
                    None => Seq::<SnarkWorkSummary>::empty(),
                    Some(sw) => sw@,
                }),
                r@.len() == i,
                forall|j: int| 0 <= j < i ==> snark_matches(#[trigger] r@[j], works[j]),
        {
            let w = block.first_works[i];
            r.push(Self::of_work(&w));
        }
        match &block.second_works {
            None => {},
            Some(sw) => {
                let n2 = sw.len();
                for i in 0..n2
                    invariant
                        n1 == block.first_works@.len(),
                        n2 == sw@.len(),
                        works == block.first_works@ + sw@,
                        r@.len() == n1 + i,
                        forall|j: int| 0 <= j < n1 + i ==> snark_matches(#[trigger] r@[j], works[j]),
                {
                    let w = sw[i];
                    r.push(Self::of_work(&w));
                }
            },
        }
        r
    }
}

/// The positions and full hashes that one work records, in order.
pub open spec fn spec_hashes_of_work(w: SnarkWorkSummary) -> Seq<(LedgerHashKind, Seq<u8>)> {
    match w {
        SnarkWorkSummary::One { source, target } => seq![
            (LedgerHashKind::Source, source@),
            (LedgerHashKind::Target, target@),
        ],
        SnarkWorkSummary::Two { first_source, middle, second_target } => seq![
            (LedgerHashKind::FirstSource, first_source@),
            (LedgerHashKind::Middle, middle@),
            (LedgerHashKind::SecondTarget, second_target@),
        ],
    }
}

/// The positions and full hashes that a list of works records, in order.
pub open spec fn spec_hashes_of_works(ws: Seq<SnarkWorkSummary>) -> Seq<(LedgerHashKind, Seq<u8>)>
    decreases ws.len(),
{
    if ws.len() == 0 {
        Seq::empty()
    } else {
        spec_hashes_of_works(ws.drop_last()) + spec_hashes_of_work(ws.last())
    }
}

/// Whether one recorded ledger hash is the given position with the 31 low
/// bytes of the given full hash.
pub open spec fn ledger_hash_matches(l: LedgerHash, kind: LedgerHashKind, full: Seq<u8>) -> bool {
    l.kind == kind && l.hash@ == full.skip(1)
}

/// Record the 31 low bytes of one full hash under a position.
fn truncated(kind: LedgerHashKind, full: &[u8; 32]) -> (r: LedgerHash)
    ensures
        ledger_hash_matches(r, kind, full@),
{
    let mut hash: [u8; 31] = [0; 31];
    for i in 0..31
        invariant
            forall|j: int| 0 <= j < i ==> hash@[j] == full@[j + 1],
    {
        hash[i] = full[i + 1];
    }
    proof {
        assert(hash@ =~= full@.skip(1));
    }
    LedgerHash { kind, hash }
}

/// Extract the recorded ledger hashes of a list of completed works, in
/// order.
pub fn ledger_hashes_of_works(ws: &Vec<SnarkWorkSummary>) -> (r: Vec<LedgerHash>)
    ensures
        r@.len() == spec_hashes_of_works(ws@).len(),
        forall|j: int|
            0 <= j < r@.len() ==> ledger_hash_matches(
                #[trigger] r@[j],
                spec_hashes_of_works(ws@)[j].0,
                spec_hashes_of_works(ws@)[j].1,
            ),
{
    let mut r: Vec<LedgerHash> = Vec::new();
    let n = ws.len();
    for i in 0..n
        invariant
            n == ws@.len(),
            r@.len() == spec_hashes_of_works(ws@.take(i as int)).len(),
            forall|j: int|
                0 <= j < r@.len() ==> ledger_hash_matches(
                    #[trigger] r@[j],
                    spec_hashes_of_works(ws@.take(i as int))[j].0,
                    spec_hashes_of_works(ws@.take(i as int))[j].1,
                ),
    {
        proof {
            assert(ws@.take(i + 1).drop_last() =~= ws@.take(i as int));
            assert(ws@.take(i + 1).last() == ws@[i as int]);
        }
        let w = ws[i];
        match w {
            SnarkWorkSummary::One { source, target } => {
                r.push(truncated(LedgerHashKind::Source, &source));
                r.push(truncated(LedgerHashKind::Target, &target));
            },
            SnarkWorkSummary::Two { first_source, middle, second_target } => {
                r.push(truncated(LedgerHashKind::FirstSource, &first_source));
                r.push(truncated(LedgerHashKind::Middle, &middle));
                r.push(truncated(LedgerHashKind::SecondTarget, &second_target));
            },
        }
    }
    proof {
        assert(ws@.take(n as int) =~= ws@);
    }
    r
}

/// Everything known about one ledger hash across observed snark works: the
/// works that name it at each statement position, each with the time it
/// was seen.
pub struct SnarkByHash {
    /// Works naming it as the source of a single statement.
    pub source: Vec<(SnarkWithHash, crate::types::TimePoint)>,
    /// Works naming it as the target of a single statement.
    pub target: Vec<(SnarkWithHash, crate::types::TimePoint)>,
    /// Works naming it as the first source of a merge.
    pub first_source: Vec<(SnarkWithHash, crate::types::TimePoint)>,
    /// Works naming it as the middle of a merge.
    pub middle: Vec<(SnarkWithHash, crate::types::TimePoint)>,
    /// Works naming it as the second target of a merge.
    pub second_target: Vec<(SnarkWithHash, crate::types::TimePoint)>,
}

} // verus!
