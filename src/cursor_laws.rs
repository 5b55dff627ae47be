//! Laws of the display cursor, stated over `advance_index`,
//! `advance_times` and `reload_index`, the functions that the controller's
//! contracts are written in.
use vstd::prelude::*;

use vstd::arithmetic::div_mod::{lemma_mod_add_multiples_vanish, lemma_small_mod, lemma_mod_bound};

use crate::controller::{advance_index, advance_times, cursor_ok, reload_index};

verus! {

/// "Next" keeps a valid cursor valid.
pub proof fn lemma_advance_keeps_cursor_ok(i: nat, len: nat)
    requires
        cursor_ok(i, len),
    ensures
        cursor_ok(advance_index(i, len), len),
{
}

/// On a non-empty library, "next" from a valid cursor moves one step
/// forward around the ring of positions.
pub proof fn lemma_advance_is_successor(i: nat, len: nat)
    requires
        i < len,
    ensures
        advance_index(i, len) == (i + 1) % len,
{
    if i + 1 < len {
        lemma_small_mod((i + 1) as nat, len);
    } else {
        assert((i + 1) % len == 0) by {
            lemma_mod_add_multiples_vanish(0, len as int);
            lemma_small_mod(0, len);
        }
    }
}

/// From a valid cursor of a non-empty library, `n` applications of "next"
/// land on position `(i + n) mod len`.
pub proof fn lemma_advance_times_is_rotation(i: nat, len: nat, n: nat)
    requires
        i < len,
    ensures
        advance_times(i, len, n) == (i + n) % len,
    decreases n,
{
    if n == 0 {
        lemma_small_mod(i, len);
    } else {
        let j = advance_index(i, len);
        lemma_advance_is_successor(i, len);
        lemma_advance_times_is_rotation(j, len, (n - 1) as nat);
        if i + 1 < len {
            assert(j == i + 1);
        } else {
            assert(j == 0);
            lemma_mod_add_multiples_vanish((n - 1) as int, len as int);
            assert((i + n) as int == len + (n - 1));
        }
    }
}

/// On every non-empty library, repeated "next" from any valid cursor stays
/// inside the library, reaches the last record, and from there wraps to the
/// first.
pub proof fn lemma_advance_visits_last_then_wraps(i: nat, len: nat)
    requires
        i < len,
    ensures
        forall|n: nat| #[trigger] advance_times(i, len, n) < len,
        advance_times(i, len, (len - 1 - i) as nat) == len - 1,
        advance_index((len - 1) as nat, len) == 0,
{
    assert forall|n: nat| #[trigger] advance_times(i, len, n) < len by {
        lemma_advance_times_is_rotation(i, len, n);
        lemma_mod_bound((i + n) as int, len as int);
    }
    lemma_advance_times_is_rotation(i, len, (len - 1 - i) as nat);
    lemma_small_mod((len - 1) as nat, len);
}

/// On a library of one record, "next" always leaves the cursor at `0`,
/// however often it is applied.
pub proof fn lemma_single_record_stays(i: nat, n: nat)
    requires
        cursor_ok(i, 1),
    ensures
        advance_index(i, 1) == 0,
        advance_times(i, 1, n) == 0,
{
    lemma_advance_times_is_rotation(i, 1, n);
}

/// Replacing the library leaves the cursor valid for the new library,
/// whatever its length and wherever the cursor stood, so reading the
/// current record afterwards never leaves the library.
pub proof fn lemma_reload_keeps_cursor_ok(i: nat, len: nat)
    ensures
        cursor_ok(reload_index(i, len), len),
{
}

/// Runs of "next" compose: `a` applications followed by `b` more are `a + b`
/// applications. Applications made one at a time under the controller's lock
/// therefore end where `a + b` sequential applications end, whichever
/// caller's came first.
pub proof fn lemma_advances_compose(i: nat, len: nat, a: nat, b: nat)
    ensures
        advance_times(advance_times(i, len, a), len, b) == advance_times(i, len, a + b),
    decreases a,
{
    if a > 0 {
        lemma_advances_compose(advance_index(i, len), len, (a - 1) as nat, b);
        assert((a + b - 1) as nat == (a - 1) as nat + b);
    }
}

/// `n` applications of "next" in any serial order from a valid cursor end at
/// `(i + n) mod len`: the final cursor depends on the number of applications
/// only.
pub proof fn lemma_serial_advances_end_at(i: nat, len: nat, n: nat)
    requires
        cursor_ok(i, len),
    ensures
        len > 0 ==> advance_times(i, len, n) == (i + n) % len,
        len == 0 ==> advance_times(i, len, n) == i,
    decreases n,
{
    if len > 0 {
        lemma_advance_times_is_rotation(i, len, n);
    } else if n > 0 {
        lemma_serial_advances_end_at(advance_index(i, len), len, (n - 1) as nat);
    }
}

} // verus!
