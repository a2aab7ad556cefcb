use vstd::prelude::*;

use std::collections::HashSet;

verus! {

broadcast use vstd::std_specs::hash::group_hash_axioms;

/// The distinct annotation codes observed so far.
#[derive(Debug)]
pub struct AnnotationRegistry {
    codes: HashSet<u8>,
}

impl View for AnnotationRegistry {
    type V = Set<u8>;

    closed spec fn view(&self) -> Set<u8> {
        self.codes@
    }
}

impl AnnotationRegistry {
    /// An empty registry.
    pub fn new() -> (r: Self)
        ensures
            r@ == Set::<u8>::empty(),
    {
        AnnotationRegistry { codes: HashSet::new() }
    }

    /// Whether `code` has been observed.
    pub fn contains(&self, code: u8) -> (r: bool)
        ensures
            r == self@.contains(code),
    {
        self.codes.contains(&code)
    }

    /// Records `code` as observed.
    pub fn insert(&mut self, code: u8)
        ensures
            final(self)@ == old(self)@.insert(code),
    {
        self.codes.insert(code);
    }

    /// Adds every code of `other`.
    pub fn merge(&mut self, other: &AnnotationRegistry)
        ensures
            final(self)@ == old(self)@.union(other@),
    {
        let mut c: u16 = 0;
        while c < 256
            invariant
                c <= 256,
                self@ == old(self)@.union(other@.filter(|x: u8| (x as u16) < c)),
            decreases 256 - c,
        {
            if other.contains(c as u8) {
                self.insert(c as u8);
            }
            assert(self@ =~= old(self)@.union(other@.filter(|x: u8| (x as u16) < c + 1)));
            c = c + 1;
        }
        assert(other@.filter(|x: u8| (x as u16) < c) =~= other@);
    }

    /// The observed codes, each once, in ascending order.
    pub fn codes(&self) -> (r: Vec<u8>)
        ensures
            r@.to_set() == self@,
            forall|i: int, j: int| 0 <= i < j < r@.len() ==> r@[i] < r@[j],
    {
        let mut out: Vec<u8> = Vec::new();
        let mut c: u16 = 0;
        while c < 256
            invariant
                c <= 256,
                out@.to_set() == self@.filter(|x: u8| (x as u16) < c),
                forall|i: int| 0 <= i < out@.len() ==> (out@[i] as u16) < c,
                forall|i: int, j: int| 0 <= i < j < out@.len() ==> out@[i] < out@[j],
            decreases 256 - c,
        {
            if self.contains(c as u8) {
                let ghost before = out@;
                out.push(c as u8);
                proof {
                    before.lemma_push_to_set_commute(c as u8);
                }
            }
            assert(out@.to_set() =~= self@.filter(|x: u8| (x as u16) < c + 1));
            c = c + 1;
        }
        assert(self@.filter(|x: u8| (x as u16) < c) =~= self@);
        out
    }
}

} // verus!
