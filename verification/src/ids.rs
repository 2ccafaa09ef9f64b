//! Random client identifiers: eight upper-case ASCII letters.

use crate::rng::{DrawLog, random_below};
use vstd::prelude::*;

verus! {

/// Number of letters in a client identifier.
pub const CLIENT_ID_LEN: usize = 8;

/// Number of letters identifiers are drawn from (`A` to `Z`).
pub const CHARSET_LEN: usize = 26;

/// The letters identifiers are drawn from, in order.
pub open spec fn charset() -> Seq<char> {
    Seq::new(26, |i: int| (('A' as int) + i) as char)
}

/// A well-formed client identifier: exactly eight letters between `A` and `Z`.
pub open spec fn is_client_id(s: Seq<char>) -> bool {
    &&& s.len() == CLIENT_ID_LEN
    &&& forall|i: int| 0 <= i < s.len() ==> 'A' <= #[trigger] s[i] <= 'Z'
}

/// The identifier spelled by a sequence of draws: the letter at each
/// position is the letter of `charset()` that the draw at that position
/// selects.
pub open spec fn id_of_draws(draws: Seq<usize>) -> Seq<char> {
    Seq::new(draws.len(), |i: int| charset()[draws[i] as int])
}

/// Draws that can spell an identifier: eight of them, each selecting a
/// letter of `charset()`.
pub open spec fn valid_draws(draws: Seq<usize>) -> bool {
    &&& draws.len() == CLIENT_ID_LEN
    &&& forall|i: int| 0 <= i < draws.len() ==> #[trigger] draws[i] < CHARSET_LEN
}

/// Every identifier spelled by valid draws is a well-formed client
/// identifier.
pub proof fn lemma_draws_spell_client_id(draws: Seq<usize>)
    requires
        valid_draws(draws),
    ensures
        is_client_id(id_of_draws(draws)),
{
    assert forall|i: int| 0 <= i < id_of_draws(draws).len() implies 'A' <= #[trigger] id_of_draws(
        draws,
    )[i] <= 'Z' by {
        assert(draws[i] < CHARSET_LEN);
    }
}

/// Each letter an identifier is spelled with is the letter its own draw
/// selects: draw `k` gives the letter `k` places after `A`.
pub proof fn lemma_letter_of_draw(draws: Seq<usize>)
    requires
        valid_draws(draws),
    ensures
        id_of_draws(draws).len() == draws.len(),
        forall|i: int|
            0 <= i < draws.len() ==> #[trigger] id_of_draws(draws)[i] as int == ('A' as int)
                + draws[i],
{
    assert forall|i: int| 0 <= i < draws.len() implies #[trigger] id_of_draws(draws)[i] as int == (
    'A' as int) + draws[i] by {
        assert(draws[i] < CHARSET_LEN);
    }
}

/// Different draws spell different identifiers: every one of the 26^8
/// sequences of draws gives its own identifier.
pub proof fn lemma_draws_spell_distinct_ids(a: Seq<usize>, b: Seq<usize>)
    requires
        valid_draws(a),
        valid_draws(b),
        a != b,
    ensures
        id_of_draws(a) != id_of_draws(b),
{
    lemma_letter_of_draw(a);
    lemma_letter_of_draw(b);
    if id_of_draws(a) == id_of_draws(b) {
        assert forall|i: int| 0 <= i < a.len() implies a[i] == b[i] by {
            assert(id_of_draws(a)[i] == id_of_draws(b)[i]);
        }
        assert(a =~= b);
    }
}

/// Spells the client identifier selected by eight letter draws: draw `i`
/// picks the `i`-th letter from `A`..=`Z` (0 for `A`, 25 for `Z`).
pub fn id_from_draws(draws: &Vec<usize>) -> (id: String)
    requires
        valid_draws(draws@),
    ensures
        id@ == id_of_draws(draws@),
        is_client_id(id@),
{
    let letters: &str = "ABCDEFGHIJKLMNOPQRSTUVWXYZ";
    proof {
        reveal_strlit("ABCDEFGHIJKLMNOPQRSTUVWXYZ");
    }
    assert(letters@ =~= charset());
    let mut id = String::new();
    let mut n: usize = 0;
    while n < draws.len()
        invariant
            n <= draws@.len(),
            valid_draws(draws@),
            letters@ == charset(),
            id@ =~= id_of_draws(draws@.take(n as int)),
        decreases draws@.len() - n,
    {
        let k = draws[n];
        assert(k < CHARSET_LEN);
        let letter = letters.substring_char(k, k + 1);
        id.append(letter);
        assert(id@ =~= id_of_draws(draws@.take((n + 1) as int)));
        n = n + 1;
    }
    assert(draws@.take(n as int) =~= draws@);
    proof {
        lemma_draws_spell_client_id(draws@);
    }
    id
}

/// A random client identifier together with the log of the draws that
/// spelled it.
pub struct DrawnId {
    /// The identifier.
    pub id: String,
    /// The draws taken for it, one per letter, in order.
    pub draws: DrawLog,
}

/// The indices of a record of draws.
pub open spec fn drawn_indices(draws: Seq<(usize, usize)>) -> Seq<usize> {
    draws.map_values(|d: (usize, usize)| d.0)
}

/// Generates a random client identifier: eight letters, each drawn
/// independently and uniformly from `A`..=`Z` by its own call of the random
/// draw, and spelled by `id_from_draws`.
pub fn generate_rand_id() -> (d: DrawnId)
    ensures
        d.draws@.len() == CLIENT_ID_LEN,
        forall|i: int|
            0 <= i < d.draws@.len() ==> (#[trigger] d.draws@[i]).1 == CHARSET_LEN && d.draws@[i].0
                < d.draws@[i].1,
        forall|i: int|
            0 <= i < d.id@.len() ==> #[trigger] d.id@[i] as int == ('A' as int) + d.draws@[i].0,
        d.id@ == id_of_draws(drawn_indices(d.draws@)),
        is_client_id(d.id@),
{
    let mut log = DrawLog::new();
    let mut draws: Vec<usize> = Vec::new();
    while draws.len() < CLIENT_ID_LEN
        invariant
            draws@.len() <= CLIENT_ID_LEN,
            log@.len() == draws@.len(),
            forall|i: int|
                0 <= i < log@.len() ==> (#[trigger] log@[i]).1 == CHARSET_LEN && log@[i].0
                    < log@[i].1 && log@[i].0 == draws@[i],
        decreases CLIENT_ID_LEN - draws@.len(),
    {
        let k = random_below(&mut log, CHARSET_LEN);
        draws.push(k);
    }
    assert(drawn_indices(log@) =~= draws@);
    let id = id_from_draws(&draws);
    proof {
        lemma_letter_of_draw(draws@);
    }
    DrawnId { id, draws: log }
}

} // verus!
