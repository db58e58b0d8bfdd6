use vstd::prelude::*;
use vstd::arithmetic::div_mod::{lemma_add_mod_noop, lemma_mod_mod, lemma_small_mod};

verus! {

/// The eye that a render pass belongs to.
#[derive(Clone, Copy, Debug, PartialEq, Eq, Structural)]
pub enum Eye {
    Left,
    Right,
}

/// The eye selected by a frame counter value: its low bit.
pub open spec fn eye_of(counter: int) -> Eye {
    if counter % 2 == 0 {
        Eye::Left
    } else {
        Eye::Right
    }
}

/// Number of distinct values of a wrapping `usize` counter.
pub open spec fn counter_modulus() -> nat {
    (usize::MAX + 1) as nat
}

/// The counter after `completed` end-frame calls, starting from zero and
/// wrapping on overflow.
pub open spec fn counter_after(completed: nat) -> int {
    (completed % counter_modulus()) as int
}

/// The eye of the pass in progress while the frame counter holds `counter`.
pub fn eye_for_counter(counter: usize) -> (r: Eye)
    ensures
        r == eye_of(counter as int),
{
    if counter & 1 == 0 {
        assert(counter & 1 == counter % 2) by (bit_vector);
        Eye::Left
    } else {
        assert(counter & 1 == counter % 2) by (bit_vector);
        Eye::Right
    }
}


/// The counter value that follows `counter`, wrapping to zero after the
/// largest one.
pub open spec fn next_counter(counter: int) -> int {
    if counter == usize::MAX {
        0
    } else {
        counter + 1
    }
}

/// Steps the frame counter by one, wrapping after the largest value.
pub fn advance_counter(counter: usize) -> (r: usize)
    ensures
        r == next_counter(counter as int),
{
    if counter == usize::MAX {
        0
    } else {
        counter + 1
    }
}

/// Counting completed calls and stepping the wrapping counter agree.
pub proof fn lemma_counter_step(completed: nat)
    ensures
        counter_after(completed + 1) == next_counter(counter_after(completed)),
        0 <= counter_after(completed) <= usize::MAX,
{
    let m = counter_modulus() as int;
    lemma_add_mod_noop(completed as int, 1, m);
    lemma_small_mod(1, m as nat);
    let c = completed as int % m;
    if c + 1 < m {
        lemma_small_mod((c + 1) as nat, m as nat);
    } else {
        assert((c + 1) % m == 0) by {
            assert(c + 1 == m);
            vstd::arithmetic::div_mod::lemma_mod_self_0(m);
        }
    }
}

/// The eye of the pass whose end-frame call is the `n`-th to complete
/// (counting from zero) is left for even `n` and right for odd `n`, also
/// after the counter has wrapped.
pub proof fn lemma_eye_alternates(n: nat)
    ensures
        eye_of(counter_after(2 * n)) == Eye::Left,
        eye_of(counter_after(2 * n + 1)) == Eye::Right,
{
    assert(usize::MAX == 0xffff_ffff || usize::MAX == 0xffff_ffff_ffff_ffff);
    let half = (counter_modulus() / 2) as int;
    assert(counter_modulus() == 2 * half);
    lemma_mod_mod((2 * n) as int, 2, half);
    lemma_mod_mod((2 * n + 1) as int, 2, half);
    assert((2 * n) as int % 2 == 0);
    assert((2 * n + 1) as int % 2 == 1);
}


/// Each completed end-frame call hands the next pass to the other eye.
pub proof fn lemma_eye_flips(completed: nat)
    ensures
        eye_of(counter_after(completed + 1)) != eye_of(counter_after(completed)),
{
    let n = completed / 2;
    lemma_eye_alternates(n);
    if completed % 2 == 0 {
        lemma_eye_alternates(n);
        assert(completed == 2 * n);
    } else {
        lemma_eye_alternates(n + 1);
        assert(completed == 2 * n + 1);
        assert(completed + 1 == 2 * (n + 1));
    }
}

} // verus!
