//! The spawn-count rounding rule: pointer actions add enough entities to
//! round the population up to the next multiple of a modulus.

use vstd::prelude::*;

verus! {

/// How many entities a round-up action adds: with current count `c` and
/// modulus `m`, enough to reach the next multiple of `m`, and a full `m`
/// when `c` is already a multiple (so the action never adds zero).
pub open spec fn round_up_amount(c: nat, m: nat) -> nat
    recommends
        m > 0,
{
    if c % m == 0 {
        m
    } else {
        (m - c % m) as nat
    }
}

/// Number of entities to add so that `count` is rounded up to the next
/// multiple of `modulus`, adding a full `modulus` when `count` is already
/// a multiple.
pub fn round_up_to_multiple(count: u32, modulus: u32) -> (to_add: u32)
    requires
        modulus > 0,
    ensures
        to_add == round_up_amount(count as nat, modulus as nat),
        1 <= to_add <= modulus,
{
    let mut to_add: u32 = modulus - count % modulus;
    if to_add == 0 {
        to_add = modulus;
    }
    to_add
}

/// A round-up action always lands exactly on a multiple of the modulus,
/// and always adds between 1 and a full modulus of new entities.
pub proof fn lemma_round_up_reaches_multiple(c: nat, m: nat)
    requires
        m > 0,
    ensures
        1 <= round_up_amount(c, m) <= m,
        (c + round_up_amount(c, m)) % m == 0,
{
    let a = round_up_amount(c, m);
    if c % m == 0 {
        assert((c + m) % m == 0) by {
            vstd::arithmetic::div_mod::lemma_mod_add_multiples_vanish(c as int, m as int);
        }
    } else {
        assert((c + a) % m == 0) by {
            vstd::arithmetic::div_mod::lemma_fundamental_div_mod(c as int, m as int);
            assert(c + a == (c as int / m as int + 1) * m) by (nonlinear_arith)
                requires
                    c == m * (c as int / m as int) + c % m,
                    a == m - c % m,
            ;
            vstd::arithmetic::div_mod::lemma_mod_multiples_basic(
                c as int / m as int + 1,
                m as int,
            );
        }
    }
}

} // verus!
