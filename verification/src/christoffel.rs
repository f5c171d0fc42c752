//! Compressed storage for Christoffel symbols.
//!
//! The 64 coefficients Γ^mu_{alpha,beta} of a metric at one position are
//! symmetric in the lower index pair, so only the order-normalized slot
//! is ever read: looking up (alpha, beta) and (beta, alpha) reaches the
//! same word.  Coefficient values are carried as opaque 64-bit words
//! (the renderer stores IEEE-754 bit patterns in them); the lookup logic
//! never interprets them, so the symmetry law holds for every metric
//! family and every position.
use vstd::prelude::*;

verus! {

/// Storage slot of Γ^mu_{alpha,beta}: the lower index pair is
/// order-normalized before forming the row-major offset.
pub open spec fn sym_index_spec(mu: int, alpha: int, beta: int) -> int {
    if alpha > beta {
        mu * 16 + beta * 4 + alpha
    } else {
        mu * 16 + alpha * 4 + beta
    }
}

/// Order-normalized storage slot; always within the 64-word table.
pub fn sym_index(mu: usize, alpha: usize, beta: usize) -> (i: usize)
    requires
        mu < 4,
        alpha < 4,
        beta < 4,
    ensures
        i == sym_index_spec(mu as int, alpha as int, beta as int),
        i < 64,
{
    if alpha > beta {
        mu * 16 + beta * 4 + alpha
    } else {
        mu * 16 + alpha * 4 + beta
    }
}

/// The 64 Christoffel coefficients of a metric at one position, indexed
/// with the lower pair order-normalized.
pub struct Christoffel {
    pub numbers: Vec<u64>,
}

impl Christoffel {
    /// The table always holds exactly 4 x 4 x 4 words.
    pub open spec fn wf(self) -> bool {
        self.numbers@.len() == 64
    }

    /// The coefficient word reached by (mu, alpha, beta).
    pub open spec fn get_spec(self, mu: int, alpha: int, beta: int) -> u64 {
        self.numbers@[sym_index_spec(mu, alpha, beta)]
    }

    pub fn new(numbers: Vec<u64>) -> (c: Christoffel)
        requires
            numbers@.len() == 64,
        ensures
            c.wf(),
            c.numbers == numbers,
    {
        Christoffel { numbers }
    }

    /// Look up Γ^mu_{alpha,beta}.
    pub fn get(&self, mu: usize, alpha: usize, beta: usize) -> (v: u64)
        requires
            self.wf(),
            mu < 4,
            alpha < 4,
            beta < 4,
        ensures
            v == self.get_spec(mu as int, alpha as int, beta as int),
    {
        let i: usize = sym_index(mu, alpha, beta);
        self.numbers[i]
    }
}

/// Symmetry of the lower index pair: for every coefficient table — and
/// hence for the Christoffel symbols of every metric family at every
/// position — the lookup satisfies Γ^mu_{alpha,beta} == Γ^mu_{beta,alpha}.
pub proof fn lemma_christoffel_symmetric(c: Christoffel, mu: int, alpha: int, beta: int)
    requires
        0 <= mu < 4,
        0 <= alpha < 4,
        0 <= beta < 4,
    ensures
        c.get_spec(mu, alpha, beta) == c.get_spec(mu, beta, alpha),
{
}

} // verus!
