use vstd::prelude::*;

verus! {

/// An arithmetic sequence of row or column indices: `start`, `start + step`,
/// ... while below `end`.
///
/// An open-ended sequence is one that runs up to `u32::MAX` (exclusive), the
/// last index that can follow another.
#[derive(Clone, Copy, Debug)]
pub struct Axis {
    pub start: u32,
    pub end: u32,
    pub step: u32,
}

impl View for Axis {
    type V = Seq<u32>;

    open spec fn view(&self) -> Seq<u32> {
        Seq::new(self.spec_len(), |k: int| (self.start + k * self.step) as u32)
    }
}

impl Axis {
    pub open spec fn wf(self) -> bool {
        self.step > 0
    }

    /// How many indices the sequence holds.
    pub open spec fn spec_len(self) -> nat {
        if self.start < self.end && self.step > 0 {
            ((self.end - self.start - 1) as int / self.step as int + 1) as nat
        } else {
            0
        }
    }

    /// Every index of the sequence lies in `start..end`.
    pub proof fn lemma_index_bound(self, k: int)
        requires
            self.wf(),
            0 <= k < self.spec_len(),
        ensures
            self.start + k * self.step < self.end,
    {
        let d = self.end - self.start - 1;
        let s = self.step as int;
        let q = d / s;
        assert(q * s <= d) by (nonlinear_arith)
            requires d >= 0, s > 0, q == d / s;
        assert(k * s <= q * s) by (nonlinear_arith)
            requires 0 <= k <= q, s > 0;
    }

    /// The indices `start, start + 1, ...` below `end`.
    pub fn span(start: u32, end: u32) -> (a: Axis)
        ensures
            a.wf(),
            a == (Axis { start, end, step: 1 }),
    {
        Axis { start, end, step: 1 }
    }

    /// The indices `start, start + step, ...` below `end`.
    pub fn stepped(start: u32, end: u32, step: u32) -> (a: Axis)
        requires
            step > 0,
        ensures
            a.wf(),
            a == (Axis { start, end, step }),
    {
        Axis { start, end, step }
    }

    /// The open-ended indices `start, start + 1, ...`.
    pub fn starting_at(start: u32) -> (a: Axis)
        ensures
            a.wf(),
            a == (Axis { start, end: u32::MAX, step: 1 }),
    {
        Axis { start, end: u32::MAX, step: 1 }
    }

    /// The number of indices in the sequence.
    pub fn len(&self) -> (n: u32)
        requires
            self.wf(),
        ensures
            n == self@.len(),
    {
        if self.start < self.end {
            (self.end - self.start - 1) / self.step + 1
        } else {
            0
        }
    }

    /// The `k`-th index of the sequence.
    pub fn at(&self, k: u32) -> (v: u32)
        requires
            self.wf(),
            k < self@.len(),
        ensures
            v == self@[k as int],
            v < self.end,
    {
        proof {
            self.lemma_index_bound(k as int);
        }
        self.start + k * self.step
    }
}

} // verus!
