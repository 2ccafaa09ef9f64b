//! Random draws, each recorded in a draw log that only a draw extends.

use rand::Rng;
use vstd::prelude::*;

verus! {

/// The record of the random draws taken through it: for each draw, in order,
/// the index drawn and the bound it was drawn below.
///
/// Its record is private to this module: only `new` (empty) and
/// `random_below` (one more draw) determine it.
pub struct DrawLog {
    history: Ghost<Seq<(usize, usize)>>,
}

impl View for DrawLog {
    type V = Seq<(usize, usize)>;

    closed spec fn view(&self) -> Seq<(usize, usize)> {
        self.history@
    }
}

impl DrawLog {
    /// A log of no draws.
    pub fn new() -> (log: Self)
        ensures
            log@ == Seq::<(usize, usize)>::empty(),
    {
        DrawLog { history: Ghost(Seq::empty()) }
    }
}

/// Draws an index uniformly from `0..bound` with the thread-local generator of
/// `rand` (`rand::thread_rng().gen_range(0..bound)`), and records the draw,
/// with its bound, at the end of `log`.
///
/// Trusted: `gen_range` on an integer range `low..high` returns a value in
/// `[low, high)` and panics only on an empty range, which `requires` rules out.
/// Which value comes back depends on chance, so nothing more is stated of it.
/// The log is a record kept for proofs only: it holds no data at run time, and
/// the clause on it says that this call is the draw it records. (The
/// generator's first use in a thread panics if the operating system cannot
/// seed it; that is outside what this contract covers.)
#[verifier::external_body]
pub(crate) fn random_below(log: &mut DrawLog, bound: usize) -> (r: usize)
    requires
        bound > 0,
    ensures
        r < bound,
        final(log)@ == old(log)@.push((r, bound)),
{
    rand::thread_rng().gen_range(0..bound)
}

} // verus!
