//! The bid ledger: each bidder's escrowed net contribution.

use vstd::prelude::*;

verus! {

/// One bidder's entry in the ledger.
#[derive(Debug, Clone, PartialEq, Eq)]
pub struct BidEntry {
    pub address: String,
    pub amount: u128,
}

/// A mapping from bidder to escrowed amount, with one entry per bidder.
#[derive(Debug)]
pub struct BidLedger {
    entries: Vec<BidEntry>,
}

/// Whether `i` is the place of `address` in `entries`.
spec fn is_at(entries: Seq<BidEntry>, address: Seq<char>, i: int) -> bool {
    0 <= i < entries.len() && entries[i].address@ == address
}

/// No bidder has two entries.
spec fn distinct(entries: Seq<BidEntry>) -> bool {
    forall|i: int, j: int|
        0 <= i < j < entries.len() ==> entries[i].address@ != entries[j].address@
}

/// The map that a list of entries stands for.
spec fn as_map(entries: Seq<BidEntry>) -> Map<Seq<char>, nat> {
    Map::new(
        |a: Seq<char>| exists|i: int| is_at(entries, a, i),
        |a: Seq<char>| entries[choose|i: int| is_at(entries, a, i)].amount as nat,
    )
}

/// In a list without duplicates, the entry at place `i` is what the map
/// holds for its address.
proof fn lemma_lookup(entries: Seq<BidEntry>, address: Seq<char>, i: int)
    requires
        distinct(entries),
        is_at(entries, address, i),
    ensures
        as_map(entries).dom().contains(address),
        as_map(entries)[address] == entries[i].amount as nat,
{
    let k = choose|k: int| is_at(entries, address, k);
    assert(is_at(entries, address, k));
    if k < i {
        assert(entries[k].address@ != entries[i].address@);
    } else if i < k {
        assert(entries[i].address@ != entries[k].address@);
    }
}

/// Replacing the amount of an entry replaces it in the map.
proof fn lemma_update(before: Seq<BidEntry>, i: int, entry: BidEntry)
    requires
        distinct(before),
        is_at(before, entry.address@, i),
    ensures
        distinct(before.update(i, entry)),
        as_map(before.update(i, entry)) == as_map(before).insert(
            entry.address@,
            entry.amount as nat,
        ),
{
    let after = before.update(i, entry);
    let target = as_map(before).insert(entry.address@, entry.amount as nat);
    assert forall|a: Seq<char>, k: int| is_at(after, a, k) == is_at(before, a, k) by {}
    assert forall|p: int, q: int| 0 <= p < q < after.len() implies after[p].address@
        != after[q].address@ by {
        assert(is_at(before, after[p].address@, p));
        assert(is_at(before, after[q].address@, q));
    }
    assert forall|a: Seq<char>| as_map(after).dom().contains(a) == target.dom().contains(a) by {
        if as_map(after).dom().contains(a) {
            let k = choose|k: int| is_at(after, a, k);
            assert(is_at(before, a, k));
        }
        if as_map(before).dom().contains(a) {
            let k = choose|k: int| is_at(before, a, k);
            assert(is_at(after, a, k));
        }
        if a == entry.address@ {
            assert(is_at(after, a, i));
        }
    }
    assert forall|a: Seq<char>| as_map(after).dom().contains(a) implies as_map(after)[a]
        == target[a] by {
        let k = choose|k: int| is_at(after, a, k);
        assert(is_at(after, a, k));
        assert(is_at(before, a, k));
        lemma_lookup(after, a, k);
        lemma_lookup(before, a, k);
        if a == entry.address@ {
            lemma_lookup(after, a, i);
        } else {
            assert(k != i);
            assert(after[k] == before[k]);
        }
    }
    assert(as_map(after) =~= target);
}

/// Appending an entry for a bidder that has none adds it to the map.
proof fn lemma_append(before: Seq<BidEntry>, entry: BidEntry)
    requires
        distinct(before),
        forall|i: int| !is_at(before, entry.address@, i),
    ensures
        distinct(before.push(entry)),
        as_map(before.push(entry)) == as_map(before).insert(entry.address@, entry.amount as nat),
{
    let after = before.push(entry);
    let n = before.len() as int;
    let target = as_map(before).insert(entry.address@, entry.amount as nat);
    assert forall|a: Seq<char>, k: int|
        is_at(after, a, k) == (is_at(before, a, k) || (k == n && a == entry.address@)) by {}
    assert forall|p: int, q: int| 0 <= p < q < after.len() implies after[p].address@
        != after[q].address@ by {
        if q == n {
            assert(!is_at(before, entry.address@, p));
        }
    }
    assert forall|a: Seq<char>| as_map(after).dom().contains(a) == target.dom().contains(a) by {
        if as_map(after).dom().contains(a) && a != entry.address@ {
            let k = choose|k: int| is_at(after, a, k);
            assert(is_at(before, a, k));
        }
        if as_map(before).dom().contains(a) {
            let k = choose|k: int| is_at(before, a, k);
            assert(is_at(after, a, k));
        }
        if a == entry.address@ {
            assert(is_at(after, a, n));
        }
    }
    assert forall|a: Seq<char>| as_map(after).dom().contains(a) implies as_map(after)[a]
        == target[a] by {
        let k = choose|k: int| is_at(after, a, k);
        assert(is_at(after, a, k));
        lemma_lookup(after, a, k);
        if a != entry.address@ {
            assert(is_at(before, a, k));
            lemma_lookup(before, a, k);
            assert(after[k] == before[k]);
        } else {
            assert(!is_at(before, a, k));
            assert(k == n);
        }
    }
    assert(as_map(after) =~= target);
}

/// The place of `address` among `entries`, if it has one.
fn position(entries: &Vec<BidEntry>, address: &String) -> (r: Option<usize>)
    ensures
        match r {
            Some(i) => is_at(entries@, address@, i as int),
            None => forall|i: int| !is_at(entries@, address@, i),
        },
{
    let mut i: usize = 0;
    while i < entries.len()
        invariant
            i <= entries.len(),
            forall|k: int| 0 <= k < i ==> !is_at(entries@, address@, k),
        decreases entries.len() - i,
    {
        if entries[i].address == *address {
            return Some(i);
        }
        i = i + 1;
    }
    None
}

impl BidLedger {
    /// No bidder has two entries.
    #[verifier::type_invariant]
    spec fn well_formed(self) -> bool {
        distinct(self.entries@)
    }

    /// The ledger as a mathematical map from address to amount.
    pub closed spec fn view(&self) -> Map<Seq<char>, nat> {
        as_map(self.entries@)
    }

    /// Every amount in the ledger fits in 128 bits.
    pub proof fn lemma_amounts_bounded(&self, address: Seq<char>)
        requires
            self@.dom().contains(address),
        ensures
            self@[address] <= u128::MAX,
    {
    }

    /// The ledger holds finitely many bidders.
    pub proof fn lemma_finite(&self)
        ensures
            self@.dom().finite(),
    {
        let entries = self.entries@;
        let places = Set::new(|i: int| 0 <= i < entries.len());
        vstd::set_lib::lemma_int_range(0, entries.len() as int);
        assert(places =~= vstd::set_lib::set_int_range(0, entries.len() as int));
        let named = places.map(|i: int| entries[i].address@);
        places.lemma_map_finite(|i: int| entries[i].address@);
        assert forall|a: Seq<char>| self@.dom().contains(a) implies named.contains(a) by {
            let i = choose|i: int| is_at(entries, a, i);
            assert(places.contains(i));
        }
        vstd::set_lib::lemma_len_subset(self@.dom(), named);
    }

    /// The empty ledger.
    pub fn new() -> (r: Self)
        ensures
            r@ == Map::<Seq<char>, nat>::empty(),
    {
        let r = BidLedger { entries: Vec::new() };
        assert(r@ =~= Map::<Seq<char>, nat>::empty());
        r
    }

    /// The amount recorded for `address`, if it has an entry.
    pub fn may_load(&self, address: &String) -> (r: Option<u128>)
        ensures
            r is Some <==> self@.dom().contains(address@),
            r matches Some(amount) ==> amount as nat == self@[address@],
    {
        proof {
            use_type_invariant(self);
        }
        match position(&self.entries, address) {
            Some(i) => {
                proof {
                    lemma_lookup(self.entries@, address@, i as int);
                }
                Some(self.entries[i].amount)
            },
            None => None,
        }
    }

    /// Records `amount` for `address`, in place of what was recorded before.
    pub fn save(&mut self, address: &String, amount: u128)
        ensures
            final(self)@ == old(self)@.insert(address@, amount as nat),
    {
        proof {
            use_type_invariant(&*self);
        }
        let entry = BidEntry { address: address.clone(), amount };
        let mut entries: Vec<BidEntry> = Vec::new();
        std::mem::swap(&mut entries, &mut self.entries);
        match position(&entries, address) {
            Some(i) => {
                proof {
                    lemma_update(entries@, i as int, entry);
                }
                entries.set(i, entry);
            },
            None => {
                proof {
                    lemma_append(entries@, entry);
                }
                entries.push(entry);
            },
        }
        self.entries = entries;
    }

    /// The entries of the ledger: one for each bidder, with the amount
    /// recorded for them.
    pub fn entries(&self) -> (r: Vec<BidEntry>)
        ensures
            forall|i: int|
                0 <= i < r@.len() ==> self@.dom().contains(#[trigger] r@[i].address@)
                    && self@[r@[i].address@] == r@[i].amount,
            forall|i: int, j: int|
                0 <= i < j < r@.len() ==> r@[i].address@ != r@[j].address@,
            forall|a: Seq<char>|
                self@.dom().contains(a) ==> exists|i: int|
                    0 <= i < r@.len() && #[trigger] r@[i].address@ == a,
    {
        proof {
            use_type_invariant(self);
        }
        let mut r: Vec<BidEntry> = Vec::new();
        let mut i: usize = 0;
        while i < self.entries.len()
            invariant
                i <= self.entries.len(),
                r@.len() == i,
                forall|k: int|
                    0 <= k < i ==> #[trigger] r@[k].address@ == self.entries[k].address@
                        && r@[k].amount == self.entries[k].amount,
            decreases self.entries.len() - i,
        {
            let entry = BidEntry {
                address: self.entries[i].address.clone(),
                amount: self.entries[i].amount,
            };
            r.push(entry);
            i = i + 1;
        }
        proof {
            assert forall|k: int| 0 <= k < r@.len() implies self@.dom().contains(
                #[trigger] r@[k].address@,
            ) && self@[r@[k].address@] == r@[k].amount by {
                assert(is_at(self.entries@, r@[k].address@, k));
                lemma_lookup(self.entries@, r@[k].address@, k);
            }
            assert forall|a: Seq<char>| self@.dom().contains(a) implies exists|k: int|
                0 <= k < r@.len() && #[trigger] r@[k].address@ == a by {
                let k = choose|k: int| is_at(self.entries@, a, k);
                assert(is_at(self.entries@, a, k));
                assert(r@[k].address@ == a);
            }
        }
        r
    }
}

} // verus!
