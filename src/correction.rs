use vstd::prelude::*;

use crate::transform::Record;

verus! {

/// A record whose interval the corrector reads: it is written (it has a code)
/// and its value is a number.
pub open spec fn is_candidate(r: Record) -> bool {
    r.numeric && r.code is Some
}

/// A record of the baseline population: numeric, with annotation code 0.
pub open spec fn is_baseline(r: Record) -> bool {
    r.numeric && r.code == Some(0u8)
}

/// The positions, in order, of the first `n` records that are candidates.
pub open spec fn candidate_positions(records: Seq<Record>, n: nat) -> Seq<usize>
    decreases n,
{
    if n == 0 {
        Seq::empty()
    } else {
        let prev = candidate_positions(records, (n - 1) as nat);
        if is_candidate(records[n - 1]) {
            prev.push((n - 1) as usize)
        } else {
            prev
        }
    }
}

/// The positions, in order, of the first `n` records that are baseline records.
pub open spec fn baseline_positions(records: Seq<Record>, n: nat) -> Seq<usize>
    decreases n,
{
    if n == 0 {
        Seq::empty()
    } else {
        let prev = baseline_positions(records, (n - 1) as nat);
        if is_baseline(records[n - 1]) {
            prev.push((n - 1) as usize)
        } else {
            prev
        }
    }
}

/// The records that outlier correction works on, by position in a file's
/// record list. The mean of the `baseline` intervals is the replacement value,
/// and five times it the bound; every `candidates` interval whose magnitude
/// exceeds the bound is replaced. Without baseline records nothing is corrected.
#[derive(Debug)]
pub struct CorrectionScope {
    pub baseline: Vec<usize>,
    pub candidates: Vec<usize>,
}

/// Finds the baseline records and the correction candidates of a file.
pub fn correction_scope(records: &Vec<Record>) -> (r: CorrectionScope)
    ensures
        r.baseline@ == baseline_positions(records@, records@.len()),
        r.candidates@ == candidate_positions(records@, records@.len()),
{
    let mut baseline: Vec<usize> = Vec::new();
    let mut candidates: Vec<usize> = Vec::new();
    let mut i: usize = 0;
    while i < records.len()
        invariant
            i <= records@.len(),
            baseline@ == baseline_positions(records@, i as nat),
            candidates@ == candidate_positions(records@, i as nat),
        decreases records@.len() - i,
    {
        let r = records[i];
        if r.numeric {
            match r.code {
                Some(c) => {
                    candidates.push(i);
                    if c == 0 {
                        baseline.push(i);
                    }
                },
                None => {},
            }
        }
        i = i + 1;
    }
    CorrectionScope { baseline, candidates }
}

/// The baseline of the correction scope is empty exactly when no record is a
/// baseline record.
pub proof fn law_no_baseline_no_scope(records: Seq<Record>, n: nat)
    requires
        n <= records.len(),
    ensures
        baseline_positions(records, n).len() == 0 <==> forall|k: int|
            0 <= k < n ==> !is_baseline(#[trigger] records[k]),
    decreases n,
{
    if n > 0 {
        law_no_baseline_no_scope(records, (n - 1) as nat);
        if baseline_positions(records, (n - 1) as nat).len() != 0 {
            let k = choose|k: int| 0 <= k < n - 1 && is_baseline(#[trigger] records[k]);
            assert(0 <= k < n && is_baseline(records[k]));
        }
    }
}

} // verus!
