use vstd::prelude::*;

use crate::annotation::code_of;
use crate::record::RawRecord;
use crate::transform::{
    file_records, file_observed, is_emitted, lemma_line_index, observed, observed_upto, records_upto,
    state_after, TransformConfig,
};

verus! {

/// How many of the first `n` lines lie past the first `skip` and are not blank.
pub open spec fn nonblank_after_skip(raws: Seq<RawRecord>, skip: nat, n: nat) -> nat
    decreases n,
{
    if n == 0 {
        0
    } else {
        nonblank_after_skip(raws, skip, (n - 1) as nat) + if n - 1 >= skip && !raws[n - 1].is_blank() {
            1nat
        } else {
            0nat
        }
    }
}

/// How many of the first `n` lines yield a record under `cfg`.
pub open spec fn emitted_count(raws: Seq<RawRecord>, cfg: TransformConfig, n: nat) -> nat
    decreases n,
{
    if n == 0 {
        0
    } else {
        emitted_count(raws, cfg, (n - 1) as nat) + if is_emitted(cfg, n - 1, raws[n - 1]) {
            1nat
        } else {
            0nat
        }
    }
}

/// The first `n` lines yield one record for each line that `is_emitted` admits.
pub proof fn lemma_records_count(
    raws: Seq<RawRecord>,
    numeric: Seq<bool>,
    cfg: TransformConfig,
    n: nat,
)
    requires
        n <= raws.len(),
        n <= usize::MAX,
    ensures
        records_upto(raws, numeric, cfg, n).len() == emitted_count(raws, cfg, n),
    decreases n,
{
    if n > 0 {
        lemma_records_count(raws, numeric, cfg, (n - 1) as nat);
        lemma_line_index(raws, numeric, cfg, (n - 1) as nat);
    }
}

proof fn lemma_plain_count(raws: Seq<RawRecord>, cfg: TransformConfig, n: nat)
    requires
        !cfg.diff,
    ensures
        emitted_count(raws, cfg, n) == nonblank_after_skip(raws, cfg.skip as nat, n),
    decreases n,
{
    if n > 0 {
        lemma_plain_count(raws, cfg, (n - 1) as nat);
    }
}

proof fn lemma_diff_count(raws: Seq<RawRecord>, diff: TransformConfig, plain: TransformConfig, n: nat)
    requires
        diff.diff,
        !plain.diff,
        diff.skip == plain.skip,
        diff.skip < raws.len(),
        !raws[diff.skip as int].is_blank(),
    ensures
        emitted_count(raws, diff, n) + (if n > diff.skip {
            1nat
        } else {
            0nat
        }) == emitted_count(raws, plain, n),
    decreases n,
{
    if n > 0 {
        lemma_diff_count(raws, diff, plain, (n - 1) as nat);
    }
}

/// Without differencing, a file yields one record for every line past the
/// skipped ones that is not blank.
pub proof fn law_plain_record_count(raws: Seq<RawRecord>, numeric: Seq<bool>, cfg: TransformConfig)
    requires
        !cfg.diff,
        raws.len() <= usize::MAX,
    ensures
        file_records(raws, numeric, cfg).len() == nonblank_after_skip(raws, cfg.skip as nat, raws.len()),
{
    lemma_records_count(raws, numeric, cfg, raws.len());
    lemma_plain_count(raws, cfg, raws.len());
}

/// With differencing, a file yields one record fewer than without it: the
/// first line past the skipped ones only seeds the previous value. This holds
/// where that line exists and is not blank.
pub proof fn law_diff_record_count(raws: Seq<RawRecord>, numeric: Seq<bool>, skip: usize)
    requires
        raws.len() <= usize::MAX,
        skip < raws.len(),
        !raws[skip as int].is_blank(),
    ensures
        file_records(raws, numeric, TransformConfig { diff: true, skip }).len() + 1
            == file_records(raws, numeric, TransformConfig { diff: false, skip }).len(),
{
    let d = TransformConfig { diff: true, skip };
    let p = TransformConfig { diff: false, skip };
    lemma_records_count(raws, numeric, d, raws.len());
    lemma_records_count(raws, numeric, p, raws.len());
    lemma_diff_count(raws, d, p, raws.len());
}

proof fn lemma_codes_upto(raws: Seq<RawRecord>, numeric: Seq<bool>, cfg: TransformConfig, n: nat)
    requires
        n <= raws.len(),
    ensures
        state_after(raws, numeric, cfg, n).prev_code <= 3,
        forall|k: int|
            0 <= k < records_upto(raws, numeric, cfg, n).len() && (#[trigger] records_upto(
                raws,
                numeric,
                cfg,
                n,
            )[k]).code is Some ==> records_upto(raws, numeric, cfg, n)[k].code.unwrap() <= 3,
        forall|c: u8| #[trigger] observed_upto(raws, numeric, cfg, n).contains(c) ==> c <= 3,
    decreases n,
{
    if n > 0 {
        lemma_codes_upto(raws, numeric, cfg, (n - 1) as nat);
        let prev = observed_upto(raws, numeric, cfg, (n - 1) as nat);
        assert forall|c: u8| #[trigger] observed_upto(raws, numeric, cfg, n).contains(c) implies c
            <= 3 by {
            if !prev.contains(c) {
                let s = state_after(raws, numeric, cfg, (n - 1) as nat);
                assert(observed(s, cfg, raws[n - 1]) == Some(c));
            }
        }
    }
}

/// Every code that a file's records carry, and every code that the file adds
/// to the registry, is one of 0, 1, 2 and 3.
pub proof fn law_codes_in_range(raws: Seq<RawRecord>, numeric: Seq<bool>, cfg: TransformConfig)
    ensures
        forall|k: int|
            0 <= k < file_records(raws, numeric, cfg).len() && (#[trigger] file_records(
                raws,
                numeric,
                cfg,
            )[k]).code is Some ==> file_records(raws, numeric, cfg)[k].code.unwrap() <= 3,
        forall|c: u8| #[trigger] file_observed(raws, numeric, cfg).contains(c) ==> c <= 3,
{
    lemma_codes_upto(raws, numeric, cfg, raws.len());
}

/// Whether line `m` carries a numeric value.
pub open spec fn has_number(raws: Seq<RawRecord>, numeric: Seq<bool>, m: int) -> bool {
    !raws[m].is_blank() && numeric[m]
}

/// The previous value after the first `n` lines is that of the last line
/// before `n`, past the skipped ones, that carries a numeric value; there is
/// none where no such line exists (the previous value is then still zero).
/// In diff mode it is what each record's interval is measured against.
pub proof fn law_previous_value(raws: Seq<RawRecord>, numeric: Seq<bool>, cfg: TransformConfig, n: nat)
    requires
        n <= raws.len(),
        raws.len() <= usize::MAX,
    ensures
        match state_after(raws, numeric, cfg, n).last_numeric {
            Some(j) => {
                &&& cfg.skip <= j < n
                &&& has_number(raws, numeric, j as int)
                &&& forall|m: int| j < m < n ==> !#[trigger] has_number(raws, numeric, m)
            },
            None => forall|m: int| cfg.skip <= m < n ==> !#[trigger] has_number(raws, numeric, m),
        },
    decreases n,
{
    if n > 0 {
        law_previous_value(raws, numeric, cfg, (n - 1) as nat);
        lemma_line_index(raws, numeric, cfg, (n - 1) as nat);
    }
}

/// The code carried forward after the first `n` lines is the mapped code of
/// the last annotated line before `n`, past the skipped ones, and 0 where
/// there is no such line.
pub proof fn law_carried_code(raws: Seq<RawRecord>, numeric: Seq<bool>, cfg: TransformConfig, n: nat)
    requires
        n <= raws.len(),
        raws.len() <= usize::MAX,
    ensures
        (forall|m: int| cfg.skip <= m < n ==> (#[trigger] raws[m]).annotation is None)
            ==> state_after(raws, numeric, cfg, n).prev_code == 0,
        forall|j: int|
            cfg.skip <= j < n && (#[trigger] raws[j]).annotation is Some && (forall|m: int|
                j < m < n ==> (#[trigger] raws[m]).annotation is None) ==> state_after(
                raws,
                numeric,
                cfg,
                n,
            ).prev_code == code_of(raws[j].annotation.unwrap()@),
    decreases n,
{
    if n > 0 {
        law_carried_code(raws, numeric, cfg, (n - 1) as nat);
        lemma_line_index(raws, numeric, cfg, (n - 1) as nat);
    }
}

} // verus!
