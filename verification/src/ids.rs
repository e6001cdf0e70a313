//! Packet identifiers.
//!
//! Identifiers are taken from a counter that starts at a random value and goes
//! up by one (wrapping) on every call; the counter is mapped onto `1..=65535`,
//! so an identifier is never 0 (0 is kept for the connect and ping exchanges).

use vstd::prelude::*;

verus! {

/// The identifier handed out for counter value `c`.
pub open spec fn id_for_counter(c: usize) -> u16 {
    ((c as int) % 65535 + 1) as u16
}

/// The counter from which packet identifiers are taken.
pub struct IdGenerator {
    counter: usize,
}

impl View for IdGenerator {
    type V = usize;

    closed spec fn view(&self) -> usize {
        self.counter
    }
}

/// A random starting value for the counter.
///
/// Calls `rand::random::<usize>()`; nothing is claimed of the value.
#[verifier::external_body]
fn random_seed() -> usize {
    rand::random::<usize>()
}

impl IdGenerator {
    /// A generator whose counter starts at `seed`.
    pub fn with_seed(seed: usize) -> (ids: IdGenerator)
        ensures
            ids@ == seed,
    {
        IdGenerator { counter: seed }
    }

    /// A generator whose counter starts at a random value.
    pub fn new() -> (ids: IdGenerator) {
        IdGenerator::with_seed(random_seed())
    }
}

/// Takes the next packet identifier: the counter, reduced onto `1..=65535`;
/// the counter then goes up by one, wrapping at `usize::MAX`.
pub fn next_id(ids: &mut IdGenerator) -> (id: u16)
    ensures
        id == id_for_counter(old(ids)@),
        1 <= id <= 65535,
        final(ids)@ == old(ids)@.wrapping_add(1),
{
    let c = ids.counter;
    ids.counter = c.wrapping_add(1);
    (c % 65535 + 1) as u16
}

/// Two identifiers taken less than 65535 calls apart differ, as long as the
/// counter does not wrap in between.
pub proof fn lemma_ids_distinct_within_cycle(c: usize, k: usize)
    requires
        0 < k < 65535,
        c + k <= usize::MAX,
    ensures
        id_for_counter(c) != id_for_counter((c + k) as usize),
{
    let m: int = 65535;
    assert(((c + k) as int) % m != (c as int) % m) by (nonlinear_arith)
        requires
            0 < k < m,
            m == 65535,
            c >= 0,
    {
    }
}

/// The counter after `n` calls of `next_id` starting from counter `c`
/// (each call takes the counter one up, wrapping).
pub open spec fn counter_after(c: usize, n: nat) -> usize
    decreases n,
{
    if n == 0 {
        c
    } else {
        counter_after(c, (n - 1) as nat).wrapping_add(1)
    }
}

/// The identifiers that `n` successive calls of `next_id` hand out, in
/// order, starting from counter `c`: call `i` hands out the identifier of
/// the counter after `i` calls.
pub open spec fn ids_taken(c: usize, n: nat) -> Seq<u16>
    decreases n,
{
    if n == 0 {
        seq![]
    } else {
        ids_taken(c, (n - 1) as nat).push(id_for_counter(counter_after(c, (n - 1) as nat)))
    }
}

/// Without a wrap, the counter after `k` calls is `c + k`, and call `k`
/// hands out the identifier of `c + k`.
proof fn lemma_ids_taken_unwrapped(c: usize, n: nat)
    requires
        c + n <= usize::MAX + 1,
    ensures
        ids_taken(c, n).len() == n,
        forall|k: int| 0 <= k < n ==> #[trigger] ids_taken(c, n)[k] == id_for_counter((c + k) as usize),
        n > 0 ==> counter_after(c, (n - 1) as nat) == c + n - 1,
    decreases n,
{
    if n > 0 {
        lemma_ids_taken_unwrapped(c, (n - 1) as nat);
        if n > 1 {
            assert(counter_after(c, (n - 2) as nat) == c + n - 2);
            assert(counter_after(c, (n - 1) as nat) == counter_after(c, (n - 2) as nat).wrapping_add(1));
        }
    }
}

/// Up to 65535 successive calls of `next_id` hand out pairwise different
/// identifiers, as long as the counter does not wrap during them.
pub proof fn lemma_successive_ids_distinct(c: usize, n: nat)
    requires
        n <= 65535,
        c + n <= usize::MAX + 1,
    ensures
        ids_taken(c, n).len() == n,
        forall|i: int, j: int| 0 <= i < j < n ==> ids_taken(c, n)[i] != ids_taken(c, n)[j],
{
    lemma_ids_taken_unwrapped(c, n);
    assert forall|i: int, j: int| 0 <= i < j < n implies ids_taken(c, n)[i] != ids_taken(c, n)[j] by {
        assert(ids_taken(c, n)[i] == id_for_counter((c + i) as usize));
        assert(ids_taken(c, n)[j] == id_for_counter((c + j) as usize));
        lemma_ids_distinct_within_cycle((c + i) as usize, (j - i) as usize);
        assert((((c + i) as usize) + ((j - i) as usize)) as usize == (c + j) as usize);
    }
}

} // verus!
