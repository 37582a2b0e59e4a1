//! Correlation identifiers that tie a reply to the request it answers.

use vstd::prelude::*;

verus! {

/// The identifier that follows `id`: one more, and zero after the largest value.
pub open spec fn next_id(id: u32) -> u32 {
    if id == u32::MAX {
        0u32
    } else {
        (id + 1) as u32
    }
}

/// A wrapping 32-bit counter of correlation identifiers.
pub struct RequestId(u32);

impl View for RequestId {
    type V = u32;

    /// The identifier that the counter stands at.
    closed spec fn view(&self) -> u32 {
        self.0
    }
}

impl RequestId {
    /// A counter whose next identifier is `id`.
    pub fn new(id: u32) -> (r: Self)
        ensures
            r@ == id,
    {
        Self(id)
    }

    /// The identifier that the counter currently stands at.
    pub fn id(&self) -> (id: u32)
        ensures
            id == self@,
    {
        self.0
    }

    /// Moves the counter to the following identifier.
    pub fn increment(&mut self)
        ensures
            final(self)@ == next_id(old(self)@),
    {
        self.0 = self.0.wrapping_add(1);
    }

    /// Hands out the current identifier and moves the counter past it.
    pub fn next(&mut self) -> (id: u32)
        ensures
            id == old(self)@,
            final(self)@ == next_id(old(self)@),
    {
        let id = self.0;
        self.increment();
        id
    }
}

/// The identifier that a counter stands at after `n` steps from `start`.
pub open spec fn id_after(start: u32, n: nat) -> u32
    decreases n,
{
    if n == 0 {
        start
    } else {
        next_id(id_after(start, (n - 1) as nat))
    }
}

/// Stepping is adding modulo 2^32.
proof fn lemma_id_after_is_a_sum(start: u32, n: nat)
    ensures
        id_after(start, n) == (start + n) % 0x1_0000_0000,
    decreases n,
{
    if n > 0 {
        lemma_id_after_is_a_sum(start, (n - 1) as nat);
    }
}

/// Identifiers handed out fewer than 2^32 steps apart differ: among fewer
/// than 2^32 requests outstanding at once, no two share an identifier.
pub proof fn law_identifiers_in_a_window_differ(start: u32, i: nat, j: nat)
    requires
        i < j,
        j - i < 0x1_0000_0000,
    ensures
        id_after(start, i) != id_after(start, j),
{
    lemma_id_after_is_a_sum(start, i);
    lemma_id_after_is_a_sum(start, j);
    let m = 0x1_0000_0000int;
    let a = start + i;
    let b = start + j;
    if a % m == b % m {
        assert(a == m * (a / m) + a % m) by (nonlinear_arith)
            requires
                m == 0x1_0000_0000int,
        ;
        assert(b == m * (b / m) + b % m) by (nonlinear_arith)
            requires
                m == 0x1_0000_0000int,
        ;
        assert(b - a == m * (b / m - a / m)) by (nonlinear_arith)
            requires
                a == m * (a / m) + a % m,
                b == m * (b / m) + b % m,
                a % m == b % m,
        ;
        let k = b / m - a / m;
        assert(false) by (nonlinear_arith)
            requires
                0 < b - a < m,
                b - a == m * k,
                m > 0,
        ;
    }
}

} // verus!
