//! Backend selection: from the slot count of a service and a seed to the
//! slot that serves a connection.

use vstd::prelude::*;
use crate::types::IPPROTO_TCP;

verus! {

/// The seed a connection selects its slot with: the random draw for TCP,
/// zero for every other protocol.
pub open spec fn spec_seed(protocol: u32, draw: u32) -> u32 {
    if protocol == IPPROTO_TCP {
        draw
    } else {
        0
    }
}

/// The slot that `seed` selects among `count` slots: the remainder of the
/// seed by the count, plus one. With no slots there is nothing to select.
pub open spec fn spec_select_slot(count: u16, seed: u32) -> Option<u16> {
    if count == 0 {
        None
    } else {
        Some(((seed as int % count as int) + 1) as u16)
    }
}

/// True where the slot of a connection depends on a random draw.
pub fn needs_draw(protocol: u32) -> (yes: bool)
    ensures
        yes == (protocol == IPPROTO_TCP),
        !yes ==> forall|draw: u32| spec_seed(protocol, draw) == 0,
{
    protocol == IPPROTO_TCP
}

/// Selects a slot in `1..=count`, or none where `count` is zero.
pub fn select_slot(count: u16, seed: u32) -> (slot: Option<u16>)
    ensures
        slot == spec_select_slot(count, seed),
        count == 0 <==> slot is None,
        slot matches Some(s) ==> 1 <= s <= count,
{
    if count == 0 {
        None
    } else {
        let remainder: u32 = seed % (count as u32);
        Some((remainder + 1) as u16)
    }
}

/// A selected slot lies in `1..=count` and is the seed's residue plus one.
pub proof fn lemma_slot_in_range(count: u16, seed: u32)
    requires
        count >= 1,
    ensures
        spec_select_slot(count, seed) matches Some(s) && 1 <= s <= count && s - 1 == seed as int
            % count as int,
{
}

/// Among any `count` seeds in a row, each slot in `1..=count` is selected by
/// exactly one. So the slots are drawn evenly wherever the seeds are.
pub proof fn lemma_each_slot_once_in_a_row(count: u16, first: u32, slot: u16)
    requires
        1 <= slot <= count,
        first + count - 1 <= u32::MAX,
    ensures
        exists|seed: u32|
            {
                &&& first <= seed < first + count
                &&& #[trigger] spec_select_slot(count, seed) == Some(slot)
                &&& forall|other: u32|
                    first <= other < first + count && #[trigger] spec_select_slot(count, other)
                        == Some(slot) ==> other == seed
            },
{
    let n: int = count as int;
    let offset: int = (slot - 1 - first) % n;
    vstd::arithmetic::div_mod::lemma_mod_bound(slot - 1 - first, n);
    let seed: u32 = (first + offset) as u32;
    assert(seed as int % n == slot - 1) by {
        vstd::arithmetic::div_mod::lemma_add_mod_noop_right(first as int, slot - 1 - first, n);
        vstd::arithmetic::div_mod::lemma_small_mod((slot - 1) as nat, n as nat);
    }
    assert forall|other: u32|
        first <= other < first + count && #[trigger] spec_select_slot(count, other) == Some(
            slot,
        ) implies other == seed by {
        let gap: int = other as int - seed as int;
        let turns: int = other as int / n - seed as int / n;
        vstd::arithmetic::div_mod::lemma_fundamental_div_mod(other as int, n);
        vstd::arithmetic::div_mod::lemma_fundamental_div_mod(seed as int, n);
        assert(gap == n * turns) by (nonlinear_arith)
            requires
                other as int == n * (other as int / n) + other as int % n,
                seed as int == n * (seed as int / n) + seed as int % n,
                other as int % n == seed as int % n,
                gap == other as int - seed as int,
                turns == other as int / n - seed as int / n,
        ;
        assert(turns == 0) by (nonlinear_arith)
            requires
                gap == n * turns,
                -n < gap < n,
                n > 0,
        ;
    }
    assert(spec_select_slot(count, seed) == Some(slot));
}

/// Without a random draw the first slot is selected, whatever the count.
pub proof fn lemma_fixed_seed_selects_first(count: u16, protocol: u32, draw: u32)
    requires
        count >= 1,
        protocol != IPPROTO_TCP,
    ensures
        spec_select_slot(count, spec_seed(protocol, draw)) == Some(1u16),
{
    vstd::arithmetic::div_mod::lemma_small_mod(0, count as nat);
}

} // verus!
