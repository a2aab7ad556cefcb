use vstd::prelude::*;

use crate::annotation::{annotation_code, code_of};
use crate::record::RawRecord;
use crate::registry::AnnotationRegistry;

verus! {

/// The settings of a run that decide which lines are emitted and how
/// annotations line up with them.
#[derive(Clone, Copy, Debug)]
pub struct TransformConfig {
    /// Emit differences between consecutive intervals instead of the intervals.
    pub diff: bool,
    /// Number of leading lines left out of all processing.
    pub skip: usize,
}

/// One emitted record, described by where its interval comes from.
///
/// The interval is the value of line `line`; where `base` names a line, the
/// value of that line is subtracted from it first (diff mode), and in diff mode
/// without a `base` nothing is subtracted (the previous value is still zero).
/// A record whose value token is not numeric carries the token unchanged.
/// A record without an annotation token has no `code` and is never written.
#[derive(Clone, Copy, Debug, PartialEq, Eq, Structural)]
pub struct Record {
    pub line: usize,
    pub numeric: bool,
    pub base: Option<usize>,
    pub code: Option<u8>,
}

/// The state carried from one line of a file to the next.
#[derive(Clone, Copy, Debug, PartialEq, Eq, Structural)]
pub struct TransformState {
    /// Index of the next line, counted from 0 over every line of the file.
    pub line_index: usize,
    /// The last line past the skipped ones whose value was numeric.
    pub last_numeric: Option<usize>,
    /// The mapped code of the last annotation past the skipped lines (0 before any).
    pub prev_code: u8,
}

/// The state at the start of every file.
pub open spec fn initial_state() -> TransformState {
    TransformState { line_index: 0, last_numeric: None, prev_code: 0 }
}

/// The code that a line with annotation `token` carries, given the code of the
/// previous annotation: in diff mode a non-baseline previous code is carried
/// forward in place of the line's own.
pub open spec fn emitted_code(prev_code: u8, diff: bool, token: Seq<char>) -> u8 {
    if diff && prev_code != 0 {
        prev_code
    } else {
        code_of(token)
    }
}

/// Whether the line at `index` yields a record: past the skipped lines, and in
/// diff mode also past the line that seeds the previous value, and not blank.
pub open spec fn is_emitted(cfg: TransformConfig, index: int, raw: RawRecord) -> bool {
    &&& index >= cfg.skip
    &&& (!cfg.diff || index > cfg.skip)
    &&& !raw.is_blank()
}

/// The state after the line `raw`.
pub open spec fn next_state(
    s: TransformState,
    cfg: TransformConfig,
    raw: RawRecord,
    numeric: bool,
) -> TransformState {
    let i = s.line_index;
    if i < cfg.skip {
        TransformState { line_index: (i + 1) as usize, ..s }
    } else {
        TransformState {
            line_index: (i + 1) as usize,
            last_numeric: if raw.value is Some && numeric {
                Some(i)
            } else {
                s.last_numeric
            },
            prev_code: match raw.annotation {
                Some(a) => code_of(a@),
                None => s.prev_code,
            },
        }
    }
}

/// The record that the line `raw` yields in state `s`, if any.
pub open spec fn outcome(
    s: TransformState,
    cfg: TransformConfig,
    raw: RawRecord,
    numeric: bool,
) -> Option<Record> {
    if is_emitted(cfg, s.line_index as int, raw) {
        Some(
            Record {
                line: s.line_index,
                numeric,
                base: if cfg.diff {
                    s.last_numeric
                } else {
                    None
                },
                code: match raw.annotation {
                    Some(a) => Some(emitted_code(s.prev_code, cfg.diff, a@)),
                    None => None,
                },
            },
        )
    } else {
        None
    }
}

/// The annotation code that the line `raw` adds to the registry in state `s`:
/// that of every annotated line past the skipped ones, the seeding line included.
pub open spec fn observed(s: TransformState, cfg: TransformConfig, raw: RawRecord) -> Option<u8> {
    if s.line_index >= cfg.skip {
        match raw.annotation {
            Some(a) => Some(emitted_code(s.prev_code, cfg.diff, a@)),
            None => None,
        }
    } else {
        None
    }
}

/// The state after the first `n` lines of a file.
pub open spec fn state_after(
    raws: Seq<RawRecord>,
    numeric: Seq<bool>,
    cfg: TransformConfig,
    n: nat,
) -> TransformState
    decreases n,
{
    if n == 0 {
        initial_state()
    } else {
        next_state(
            state_after(raws, numeric, cfg, (n - 1) as nat),
            cfg,
            raws[n - 1],
            numeric[n - 1],
        )
    }
}

/// The records that the first `n` lines of a file yield, in line order.
pub open spec fn records_upto(
    raws: Seq<RawRecord>,
    numeric: Seq<bool>,
    cfg: TransformConfig,
    n: nat,
) -> Seq<Record>
    decreases n,
{
    if n == 0 {
        Seq::empty()
    } else {
        let prev = records_upto(raws, numeric, cfg, (n - 1) as nat);
        let s = state_after(raws, numeric, cfg, (n - 1) as nat);
        match outcome(s, cfg, raws[n - 1], numeric[n - 1]) {
            Some(r) => prev.push(r),
            None => prev,
        }
    }
}

/// The annotation codes that the first `n` lines of a file add to the registry.
pub open spec fn observed_upto(
    raws: Seq<RawRecord>,
    numeric: Seq<bool>,
    cfg: TransformConfig,
    n: nat,
) -> Set<u8>
    decreases n,
{
    if n == 0 {
        Set::empty()
    } else {
        let prev = observed_upto(raws, numeric, cfg, (n - 1) as nat);
        let s = state_after(raws, numeric, cfg, (n - 1) as nat);
        match observed(s, cfg, raws[n - 1]) {
            Some(c) => prev.insert(c),
            None => prev,
        }
    }
}

/// The records of a whole file.
pub open spec fn file_records(raws: Seq<RawRecord>, numeric: Seq<bool>, cfg: TransformConfig) -> Seq<
    Record,
> {
    records_upto(raws, numeric, cfg, raws.len())
}

/// The annotation codes that a whole file adds to the registry.
pub open spec fn file_observed(raws: Seq<RawRecord>, numeric: Seq<bool>, cfg: TransformConfig) -> Set<
    u8,
> {
    observed_upto(raws, numeric, cfg, raws.len())
}

impl TransformState {
    /// The state at the start of a file.
    pub fn new() -> (r: Self)
        ensures
            r == initial_state(),
    {
        TransformState { line_index: 0, last_numeric: None, prev_code: 0 }
    }

    /// Takes one line: advances the state, adds the line's annotation code to
    /// `registry`, and returns the record that the line yields.
    /// `numeric` tells whether the line's value token is a number.
    pub fn step(
        &mut self,
        cfg: &TransformConfig,
        raw: &RawRecord,
        numeric: bool,
        registry: &mut AnnotationRegistry,
    ) -> (r: Option<Record>)
        requires
            old(self).line_index < usize::MAX,
        ensures
            *final(self) == next_state(*old(self), *cfg, *raw, numeric),
            r == outcome(*old(self), *cfg, *raw, numeric),
            final(registry)@ == match observed(*old(self), *cfg, *raw) {
                Some(c) => old(registry)@.insert(c),
                None => old(registry)@,
            },
    {
        let i = self.line_index;
        self.line_index = i + 1;
        if i < cfg.skip {
            return None;
        }
        let mut code: Option<u8> = None;
        match &raw.annotation {
            Some(a) => {
                let mapped = annotation_code(a.as_str());
                let c = if cfg.diff && self.prev_code != 0 {
                    self.prev_code
                } else {
                    mapped
                };
                self.prev_code = mapped;
                registry.insert(c);
                code = Some(c);
            },
            None => {},
        }
        let base = if cfg.diff {
            self.last_numeric
        } else {
            None
        };
        if raw.value.is_some() && numeric {
            self.last_numeric = Some(i);
        }
        if raw.value.is_some() && (!cfg.diff || i > cfg.skip) {
            Some(Record { line: i, numeric, base, code })
        } else {
            None
        }
    }
}

/// The state after the first `n` lines counts exactly `n` lines.
pub proof fn lemma_line_index(raws: Seq<RawRecord>, numeric: Seq<bool>, cfg: TransformConfig, n: nat)
    requires
        n < usize::MAX,
    ensures
        state_after(raws, numeric, cfg, n).line_index == n,
    decreases n,
{
    if n > 0 {
        lemma_line_index(raws, numeric, cfg, (n - 1) as nat);
    }
}

/// Runs every line of a file through a fresh state, in order. Returns the
/// file's records; the registry gains the annotation codes the file shows.
/// `numeric[i]` tells whether the value token of line `i` is a number.
pub fn transform_file(
    raws: &Vec<RawRecord>,
    numeric: &Vec<bool>,
    cfg: &TransformConfig,
    registry: &mut AnnotationRegistry,
) -> (r: Vec<Record>)
    requires
        numeric@.len() == raws@.len(),
    ensures
        r@ == file_records(raws@, numeric@, *cfg),
        final(registry)@ == old(registry)@.union(file_observed(raws@, numeric@, *cfg)),
{
    let mut state = TransformState::new();
    let mut out: Vec<Record> = Vec::new();
    let mut i: usize = 0;
    while i < raws.len()
        invariant
            i <= raws@.len(),
            numeric@.len() == raws@.len(),
            state == state_after(raws@, numeric@, *cfg, i as nat),
            state.line_index == i,
            out@ == records_upto(raws@, numeric@, *cfg, i as nat),
            registry@ == old(registry)@.union(observed_upto(raws@, numeric@, *cfg, i as nat)),
        decreases raws@.len() - i,
    {
        let ghost before = registry@;
        let r = state.step(cfg, &raws[i], numeric[i], registry);
        match r {
            Some(rec) => out.push(rec),
            None => {},
        }
        proof {
            assert(registry@ =~= old(registry)@.union(
                observed_upto(raws@, numeric@, *cfg, (i + 1) as nat),
            ));
        }
        i = i + 1;
    }
    proof {
        assert(raws@.len() == raws.len());
    }
    out
}

} // verus!
