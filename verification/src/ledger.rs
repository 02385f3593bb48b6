//! The arithmetic of a contribution ledger: a finite map from a contributor
//! to the amount held for them, and the sum of what it holds.

use vstd::prelude::*;

verus! {

/// A ledger is sound when it has finitely many entries and none is negative.
pub open spec fn ledger_sound<K>(ledger: Map<K, int>) -> bool {
    &&& ledger.dom().finite()
    &&& forall|k: K| ledger.contains_key(k) ==> #[trigger] ledger[k] >= 0
}

/// The ledger without entries.
pub open spec fn no_entries<K>() -> Map<K, int> {
    Map::empty()
}

/// What `who` holds in the ledger: their entry, or nothing without one.
pub open spec fn held_by<K>(ledger: Map<K, int>, who: K) -> int {
    if ledger.contains_key(who) {
        ledger[who]
    } else {
        0
    }
}

/// The sum of all entries of a finite ledger.
pub open spec fn ledger_sum<K>(ledger: Map<K, int>) -> int
    decreases ledger.dom().len(),
    when ledger.dom().finite()
    via ledger_sum_decreases::<K>
{
    if ledger.dom().len() == 0 {
        0
    } else {
        let k = ledger.dom().choose();
        ledger[k] + ledger_sum(ledger.remove(k))
    }
}

#[via_fn]
proof fn ledger_sum_decreases<K>(ledger: Map<K, int>) {
    if ledger.dom().len() != 0 {
        let k = ledger.dom().choose();
        assert(ledger.dom().contains(k)) by {
            if forall|x: K| !ledger.dom().contains(x) {
                assert(ledger.dom() =~= Set::<K>::empty());
            }
        }
        assert(ledger.remove(k).dom() =~= ledger.dom().remove(k));
    }
}

/// An empty ledger sums to zero.
pub proof fn lemma_sum_empty<K>()
    ensures
        ledger_sum(Map::<K, int>::empty()) == 0,
{
}

/// Any one entry can be split off the sum.
pub proof fn lemma_sum_split<K>(ledger: Map<K, int>, who: K)
    requires
        ledger.dom().finite(),
        ledger.contains_key(who),
    ensures
        ledger_sum(ledger) == ledger[who] + ledger_sum(ledger.remove(who)),
    decreases ledger.dom().len(),
{
    assert(ledger.dom().len() != 0);
    let k = ledger.dom().choose();
    assert(ledger.dom().contains(k));
    if k != who {
        let without_k = ledger.remove(k);
        let without_who = ledger.remove(who);
        assert(without_k.dom() =~= ledger.dom().remove(k));
        assert(without_who.dom() =~= ledger.dom().remove(who));
        lemma_sum_split(without_k, who);
        lemma_sum_split(without_who, k);
        assert(without_k.remove(who) =~= without_who.remove(k));
    }
}

/// Writing `amount` under `who` changes the sum by the difference to what
/// `who` held before.
pub proof fn lemma_sum_insert<K>(ledger: Map<K, int>, who: K, amount: int)
    requires
        ledger.dom().finite(),
    ensures
        ledger.insert(who, amount).dom().finite(),
        ledger_sum(ledger.insert(who, amount)) == ledger_sum(ledger) - held_by(ledger, who)
            + amount,
{
    let after = ledger.insert(who, amount);
    lemma_sum_split(after, who);
    assert(after.remove(who) =~= ledger.remove(who));
    if ledger.contains_key(who) {
        lemma_sum_split(ledger, who);
    } else {
        assert(ledger.remove(who) =~= ledger);
    }
}

/// In a sound ledger no entry exceeds the sum, and the sum is not negative.
pub proof fn lemma_sum_bounds<K>(ledger: Map<K, int>, who: K)
    requires
        ledger_sound(ledger),
    ensures
        0 <= held_by(ledger, who) <= ledger_sum(ledger),
    decreases ledger.dom().len(),
{
    if ledger.dom().len() != 0 {
        let k = ledger.dom().choose();
        assert(ledger.dom().contains(k));
        let rest = ledger.remove(k);
        assert(rest.dom() =~= ledger.dom().remove(k));
        assert(ledger_sound(rest));
        lemma_sum_bounds(rest, who);
        assert(ledger[k] >= 0);
    } else {
        assert(!ledger.dom().contains(who)) by {
            if ledger.dom().contains(who) {
                assert(ledger.dom().len() > 0);
            }
        }
    }
}

} // verus!
