//! The escrow: the sum of what the ledger records.

use vstd::prelude::*;
use vstd::set::fold::{is_fun_commutative, lemma_fold_empty, lemma_fold_insert};

verus! {

/// All that a ledger records, added up.
pub open spec fn escrow_of(bids: Map<Seq<char>, nat>) -> nat {
    bids.dom().fold(0nat, |sum: nat, a: Seq<char>| sum + bids[a])
}

/// Two ways of adding up a finite set give the same sum where they agree
/// on what each member contributes.
proof fn lemma_sums_agree(
    s: Set<Seq<char>>,
    f: spec_fn(nat, Seq<char>) -> nat,
    g: spec_fn(nat, Seq<char>) -> nat,
)
    requires
        s.finite(),
        is_fun_commutative(f),
        is_fun_commutative(g),
        forall|sum: nat, a: Seq<char>| s.contains(a) ==> #[trigger] f(sum, a) == g(sum, a),
    ensures
        s.fold(0nat, f) == s.fold(0nat, g),
    decreases s.len(),
{
    if s.len() == 0 {
        s.lemma_len0_is_empty();
        assert(s =~= Set::<Seq<char>>::empty());
        lemma_fold_empty(0nat, f);
        lemma_fold_empty(0nat, g);
    } else {
        let a = s.choose();
        let rest = s.remove(a);
        lemma_sums_agree(rest, f, g);
        lemma_fold_insert(rest, 0nat, f, a);
        lemma_fold_insert(rest, 0nat, g, a);
        assert(rest.insert(a) =~= s);
    }
}

/// An empty ledger holds nothing in escrow.
pub proof fn lemma_escrow_of_empty()
    ensures
        escrow_of(Map::<Seq<char>, nat>::empty()) == 0,
{
    let bids = Map::<Seq<char>, nat>::empty();
    assert(bids.dom() =~= Set::<Seq<char>>::empty());
    lemma_fold_empty(0nat, |sum: nat, a: Seq<char>| sum + bids[a]);
}

/// Writing `amount` into the entry of `address` changes the escrow by the
/// difference between `amount` and what the entry held.
pub proof fn lemma_escrow_of_insert(bids: Map<Seq<char>, nat>, address: Seq<char>, amount: nat)
    requires
        bids.dom().finite(),
    ensures
        escrow_of(bids.insert(address, amount)) + (if bids.dom().contains(address) {
            bids[address]
        } else {
            0
        }) == escrow_of(bids) + amount,
{
    let after = bids.insert(address, amount);
    let f = |sum: nat, a: Seq<char>| sum + bids[a];
    let g = |sum: nat, a: Seq<char>| sum + after[a];
    assert(is_fun_commutative(f));
    assert(is_fun_commutative(g));
    let rest = bids.dom().remove(address);
    assert(after.dom() =~= rest.insert(address));
    lemma_fold_insert(rest, 0nat, g, address);
    lemma_sums_agree(rest, f, g);
    if bids.dom().contains(address) {
        assert(bids.dom() =~= rest.insert(address));
        lemma_fold_insert(rest, 0nat, f, address);
    } else {
        assert(bids.dom() =~= rest);
    }
}

} // verus!
