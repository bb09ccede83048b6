//! Progress of a run as a fraction of its time steps.

use vstd::prelude::*;

verus! {

/// `completed` of `total` steps are done.
///
/// A progress stands for the fraction `completed / total`; it is proper
/// when `total` is not zero and `completed` does not exceed it, and then
/// the fraction lies in `[0, 1]`.
#[derive(Clone, Copy, Debug, PartialEq, Eq, Structural)]
pub struct Progress {
    pub completed: usize,
    pub total: usize,
}

impl Progress {
    /// The fraction is defined and lies in `[0, 1]`.
    pub open spec fn proper(self) -> bool {
        0 < self.total && self.completed <= self.total
    }

    /// The fraction is `0`.
    pub open spec fn nothing(self) -> bool {
        self.completed == 0
    }

    /// The fraction is `1`.
    pub open spec fn complete(self) -> bool {
        self.completed == self.total
    }

    /// The fraction of `self` is at most that of `other`.
    pub open spec fn at_most(self, other: Progress) -> bool {
        self.completed * other.total <= other.completed * self.total
    }

    /// No step done.
    pub fn none() -> (p: Progress)
        ensures
            p == (Progress { completed: 0, total: 1 }),
            p.proper(),
            p.nothing(),
    {
        Progress { completed: 0, total: 1 }
    }

    /// Every step done.
    pub fn full() -> (p: Progress)
        ensures
            p == (Progress { completed: 1, total: 1 }),
            p.proper(),
            p.complete(),
    {
        Progress { completed: 1, total: 1 }
    }

    /// `completed` of `total` steps, or `None` when that is no fraction in
    /// `[0, 1]`.
    pub fn of(completed: usize, total: usize) -> (r: Option<Progress>)
        ensures
            r == if 0 < total && completed <= total {
                Some(Progress { completed, total })
            } else {
                None
            },
    {
        if 0 < total && completed <= total {
            Some(Progress { completed, total })
        } else {
            None
        }
    }

    /// Whether the fraction is `1`.
    pub fn is_complete(self) -> (r: bool)
        ensures
            r == self.complete(),
    {
        self.completed == self.total
    }

    /// Whether the fraction of `self` is at most that of `other`.
    pub fn le(self, other: Progress) -> (r: bool)
        ensures
            r == self.at_most(other),
    {
        let a: u128 = self.completed as u128;
        let b: u128 = other.total as u128;
        let c: u128 = other.completed as u128;
        let d: u128 = self.total as u128;
        assert(a * b <= 0xffff_ffff_ffff_ffff * 0xffff_ffff_ffff_ffff) by (nonlinear_arith)
            requires
                a <= 0xffff_ffff_ffff_ffff,
                b <= 0xffff_ffff_ffff_ffff,
        ;
        assert(c * d <= 0xffff_ffff_ffff_ffff * 0xffff_ffff_ffff_ffff) by (nonlinear_arith)
            requires
                c <= 0xffff_ffff_ffff_ffff,
                d <= 0xffff_ffff_ffff_ffff,
        ;
        a * b <= c * d
    }
}

/// Of two progresses of the same run, the one with more steps done is the
/// larger, and a progress is complete exactly when all steps are done.
pub proof fn progress_grows_with_steps(earlier: usize, later: usize, total: usize)
    requires
        earlier <= later <= total,
        0 < total,
    ensures
        (Progress { completed: earlier, total }).proper(),
        (Progress { completed: later, total }).proper(),
        (Progress { completed: earlier, total }).at_most(Progress { completed: later, total }),
        (Progress { completed: later, total }).complete() <==> later == total,
        (Progress { completed: later, total }).at_most(Progress { completed: 1, total: 1 }),
{
    assert(earlier * total <= later * total) by (nonlinear_arith)
        requires
            earlier <= later,
            0 < total,
    ;
}

} // verus!
