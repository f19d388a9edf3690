//! What six-key rollover guarantees over whole sequences of key transitions.

use vstd::prelude::*;
use crate::keyboard::{
    distinct_keys, first_index, is_first, key_applied, lemma_first_exists, lemma_first_index, pressed,
    released, ElementState,
};

verus! {

/// The usage codes that occupy a slot.
pub open spec fn held(slots: Seq<u8>) -> Set<u8> {
    Set::new(|code: u8| code != 0 && slots.contains(code))
}

/// The number of slots that are not empty.
pub open spec fn occupied(slots: Seq<u8>) -> nat
    decreases slots.len(),
{
    if slots.len() == 0 {
        0
    } else {
        occupied(slots.drop_last()) + if slots.last() != 0 {
            1nat
        } else {
            0nat
        }
    }
}

/// The set of held keys after a key goes down on a keyboard that tracks at most six: a new
/// key joins the set while there is room.
pub open spec fn held_after_press(keys: Set<u8>, code: u8) -> Set<u8> {
    if code != 0 && !keys.contains(code) && keys.len() < 6 {
        keys.insert(code)
    } else {
        keys
    }
}

/// The set of held keys after one transition.
pub open spec fn held_applied(keys: Set<u8>, code: u8, state: ElementState) -> Set<u8> {
    match state {
        ElementState::Pressed => held_after_press(keys, code),
        ElementState::Released => keys.remove(code),
    }
}

/// The slots of a keyboard that started empty and saw `changes` in order.
pub open spec fn slots_after(changes: Seq<(u8, ElementState)>) -> Seq<u8>
    decreases changes.len(),
{
    if changes.len() == 0 {
        Seq::new(6, |i: int| 0u8)
    } else {
        key_applied(slots_after(changes.drop_last()), changes.last().0, changes.last().1)
    }
}

/// The set of held keys after `changes`, starting with none held.
pub open spec fn held_after(changes: Seq<(u8, ElementState)>) -> Set<u8>
    decreases changes.len(),
{
    if changes.len() == 0 {
        Set::empty()
    } else {
        held_applied(held_after(changes.drop_last()), changes.last().0, changes.last().1)
    }
}

/// The transitions that press each of `codes` in order and release none.
pub open spec fn pressing(codes: Seq<u8>) -> Seq<(u8, ElementState)> {
    Seq::new(codes.len(), |i: int| (codes[i], ElementState::Pressed))
}

/// A transition never makes one code occupy two slots.
pub proof fn lemma_applied_distinct(slots: Seq<u8>, code: u8, state: ElementState)
    requires
        distinct_keys(slots),
    ensures
        distinct_keys(key_applied(slots, code, state)),
        key_applied(slots, code, state).len() == slots.len(),
{
    let after = key_applied(slots, code, state);
    if after != slots {
        match state {
            ElementState::Pressed => {
                lemma_first_exists(slots, 0);
                let k = first_index(slots, 0);
                assert forall|i: int, j: int|
                    0 <= i < j < after.len() && after[i] != 0 implies after[i] != after[j] by {
                    if i != k && j != k {
                        assert(slots[i] != slots[j]);
                    } else if i == k {
                        assert(slots[j] != code);
                    } else {
                        assert(slots[i] != code);
                    }
                }
            },
            ElementState::Released => {
                lemma_first_exists(slots, code);
                let k = first_index(slots, code);
                assert forall|i: int, j: int|
                    0 <= i < j < after.len() && after[i] != 0 implies after[i] != after[j] by {
                    if j != k {
                        assert(slots[i] != slots[j]);
                    }
                }
            },
        }
    }
}

/// With no code in two slots, the held codes are as many as the occupied slots.
pub proof fn lemma_occupied_counts_held(slots: Seq<u8>)
    requires
        distinct_keys(slots),
    ensures
        held(slots).finite(),
        held(slots).len() == occupied(slots),
        occupied(slots) <= slots.len(),
        occupied(slots) == slots.len() <==> !slots.contains(0),
    decreases slots.len(),
{
    if slots.len() == 0 {
        assert(held(slots) =~= Set::<u8>::empty());
    } else {
        let front = slots.drop_last();
        let last = slots.last();
        assert forall|i: int, j: int|
            0 <= i < j < front.len() && front[i] != 0 implies front[i] != front[j] by {
            assert(slots[i] != slots[j]);
        }
        lemma_occupied_counts_held(front);
        assert forall|c: u8| front.contains(c) implies slots.contains(c) by {
            let k = choose|k: int| 0 <= k < front.len() && front[k] == c;
            assert(slots[k] == c);
        }
        assert forall|c: u8| slots.contains(c) implies front.contains(c) || c == last by {
            let k = choose|k: int| 0 <= k < slots.len() && slots[k] == c;
            if k < front.len() {
                assert(front[k] == c);
            }
        }
        assert(slots.contains(last)) by {
            assert(slots[slots.len() - 1] == last);
        }
        if last != 0 {
            assert(!front.contains(last)) by {
                if front.contains(last) {
                    let k = choose|k: int| 0 <= k < front.len() && front[k] == last;
                    assert(slots[k] != slots[slots.len() - 1]);
                }
            }
            assert(held(slots) =~= held(front).insert(last));
        } else {
            assert(held(slots) =~= held(front));
        }
    }
}

/// The held codes follow the set model across a transition.
pub proof fn lemma_applied_held(slots: Seq<u8>, code: u8, state: ElementState)
    requires
        slots.len() == 6,
        distinct_keys(slots),
    ensures
        held(key_applied(slots, code, state)) == held_applied(held(slots), code, state),
{
    let after = key_applied(slots, code, state);
    lemma_occupied_counts_held(slots);
    match state {
        ElementState::Pressed => {
            if code == 0 || slots.contains(code) {
                assert(after == slots);
                assert(held_after_press(held(slots), code) == held(slots));
            } else if !slots.contains(0) {
                assert(held(slots).len() == 6);
            } else {
                lemma_first_exists(slots, 0);
                let k = first_index(slots, 0);
                assert(after == slots.update(k, code));
                assert(held(slots).len() < 6);
                assert forall|c: u8| held(after).contains(c) <==> held(slots).insert(code).contains(
                    c,
                ) by {
                    if c != 0 && after.contains(c) {
                        let i = choose|i: int| 0 <= i < after.len() && after[i] == c;
                        if i != k {
                            assert(slots[i] == c);
                        }
                    }
                    if c != 0 && slots.contains(c) {
                        let i = choose|i: int| 0 <= i < slots.len() && slots[i] == c;
                        assert(after[i] == c);
                    }
                    if c == code {
                        assert(after[k] == c);
                    }
                }
                assert(held(after) =~= held(slots).insert(code));
            }
        },
        ElementState::Released => {
            if code == 0 || !slots.contains(code) {
                assert(held(slots).remove(code) =~= held(slots));
            } else {
                lemma_first_exists(slots, code);
                let k = first_index(slots, code);
                assert(after == slots.update(k, 0));
                assert forall|c: u8| held(after).contains(c) <==> held(slots).remove(code).contains(
                    c,
                ) by {
                    if c != 0 && after.contains(c) {
                        let i = choose|i: int| 0 <= i < after.len() && after[i] == c;
                        assert(slots[i] == c);
                        if c == code {
                            if i < k {
                                assert(slots[i] != slots[k]);
                            } else {
                                assert(slots[k] != slots[i]);
                            }
                        }
                    }
                    if c != 0 && c != code && slots.contains(c) {
                        let i = choose|i: int| 0 <= i < slots.len() && slots[i] == c;
                        assert(after[i] == c);
                    }
                }
                assert(held(after) =~= held(slots).remove(code));
            }
        },
    }
}

/// After any sequence of key transitions on a keyboard that started empty, no code occupies
/// two slots, the occupied slots hold exactly the keys that the set model holds, and their
/// number is the number of held keys, at most six.
pub proof fn lemma_rollover_tracks_held_keys(changes: Seq<(u8, ElementState)>)
    ensures
        slots_after(changes).len() == 6,
        distinct_keys(slots_after(changes)),
        held(slots_after(changes)) == held_after(changes),
        held_after(changes).finite(),
        occupied(slots_after(changes)) == held_after(changes).len(),
        held_after(changes).len() <= 6,
    decreases changes.len(),
{
    if changes.len() == 0 {
        let empty = slots_after(changes);
        assert(held(empty) =~= Set::<u8>::empty()) by {
            assert forall|c: u8| !held(empty).contains(c) by {
                if c != 0 && empty.contains(c) {
                    let i = choose|i: int| 0 <= i < empty.len() && empty[i] == c;
                    assert(empty[i] == 0);
                }
            }
        }
        lemma_occupied_counts_held(empty);
    } else {
        let before = slots_after(changes.drop_last());
        lemma_rollover_tracks_held_keys(changes.drop_last());
        lemma_applied_distinct(before, changes.last().0, changes.last().1);
        lemma_applied_held(before, changes.last().0, changes.last().1);
        lemma_occupied_counts_held(slots_after(changes));
    }
}

/// Pressing up to six different keys on an empty keyboard fills the slots in order.
pub proof fn lemma_presses_fill_in_order(codes: Seq<u8>)
    requires
        codes.len() <= 6,
        forall|i: int| 0 <= i < codes.len() ==> codes[i] != 0,
        forall|i: int, j: int| 0 <= i < j < codes.len() ==> codes[i] != codes[j],
    ensures
        slots_after(pressing(codes)) == codes + Seq::new((6 - codes.len()) as nat, |i: int| 0u8),
    decreases codes.len(),
{
    let n = codes.len() as int;
    let changes = pressing(codes);
    let target = codes + Seq::new((6 - n) as nat, |i: int| 0u8);
    if n == 0 {
        assert(slots_after(changes) =~= target);
    } else {
        let front = codes.drop_last();
        let code = codes.last();
        assert(changes.drop_last() =~= pressing(front));
        lemma_presses_fill_in_order(front);
        let before = slots_after(pressing(front));
        assert(before == front + Seq::new((7 - n) as nat, |i: int| 0u8));
        assert(!before.contains(code)) by {
            if before.contains(code) {
                let i = choose|i: int| 0 <= i < before.len() && before[i] == code;
                if i < n - 1 {
                    assert(codes[i] != codes[n - 1]);
                }
            }
        }
        assert(is_first(before, 0, n - 1)) by {
            assert(before[n - 1] == 0);
            assert forall|j: int| 0 <= j < n - 1 implies before[j] != 0 by {
                assert(before[j] == codes[j]);
            }
        }
        assert(before.contains(0));
        lemma_first_index(before, 0, n - 1);
        assert(changes.last() == (code, ElementState::Pressed));
        assert(slots_after(changes) == pressed(before, code));
        assert(before.update(n - 1, code) =~= target);
    }
}

/// With six different keys held, pressing a seventh changes no slot, so it sends no report.
pub proof fn lemma_seventh_key_dropped(codes: Seq<u8>)
    requires
        codes.len() == 7,
        forall|i: int| 0 <= i < 7 ==> codes[i] != 0,
        forall|i: int, j: int| 0 <= i < j < 7 ==> codes[i] != codes[j],
    ensures
        slots_after(pressing(codes.take(6))) == codes.take(6),
        pressed(slots_after(pressing(codes.take(6))), codes[6]) == slots_after(
            pressing(codes.take(6)),
        ),
        slots_after(pressing(codes)) == slots_after(pressing(codes.take(6))),
{
    let six = codes.take(6);
    lemma_presses_fill_in_order(six);
    let full = slots_after(pressing(six));
    assert(full =~= six);
    assert(!full.contains(0)) by {
        if full.contains(0) {
            let i = choose|i: int| 0 <= i < full.len() && full[i] == 0;
            assert(codes[i] != 0);
        }
    }
    assert(pressing(codes).drop_last() =~= pressing(six));
    assert(pressing(codes).last() == (codes[6], ElementState::Pressed));
}

} // verus!
