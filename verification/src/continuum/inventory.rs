use crate::continuum::text::same_text;
use vstd::prelude::*;

verus! {

/// Whether no product name stands twice in `entries`.
pub open spec fn names_distinct(entries: Seq<(String, u64)>) -> bool {
    forall|i: int, j: int|
        0 <= i < j < entries.len() ==> (#[trigger] entries[i]).0@ != (#[trigger] entries[j]).0@
}

/// Whether `entries` has a line for the product `name`.
pub open spec fn lists(entries: Seq<(String, u64)>, name: Seq<char>) -> bool {
    exists|i: int| 0 <= i < entries.len() && (#[trigger] entries[i]).0@ == name
}

/// A line of `entries` for the product `name`, if there is one.
pub open spec fn line_of(entries: Seq<(String, u64)>, name: Seq<char>) -> int {
    choose|i: int| 0 <= i < entries.len() && (#[trigger] entries[i]).0@ == name
}

/// The stock that `entries` writes down: each listed name with its quantity.
pub open spec fn stock_of(entries: Seq<(String, u64)>) -> Map<Seq<char>, nat> {
    Map::new(
        |name: Seq<char>| lists(entries, name),
        |name: Seq<char>| entries[line_of(entries, name)].1 as nat,
    )
}

/// The quantity that `stock` holds of `name`: nothing, if it was never stocked.
pub open spec fn amount(stock: Map<Seq<char>, nat>, name: Seq<char>) -> nat {
    if stock.contains_key(name) {
        stock[name]
    } else {
        0
    }
}

/// With distinct names, the line that names a product is the one that counts.
pub proof fn lemma_stock_of_line(entries: Seq<(String, u64)>, i: int)
    requires
        names_distinct(entries),
        0 <= i < entries.len(),
    ensures
        stock_of(entries).contains_key(entries[i].0@),
        stock_of(entries)[entries[i].0@] == entries[i].1,
        line_of(entries, entries[i].0@) == i,
{
    let name = entries[i].0@;
    let j = line_of(entries, name);
    if j < i {
        assert(entries[j].0@ != entries[i].0@);
    } else if i < j {
        assert(entries[i].0@ != entries[j].0@);
    }
}

/// Accumulated quantity of each product, keyed by the product's name.
#[derive(Debug)]
pub struct Inventory {
    entries: Vec<(String, u64)>,
}

impl View for Inventory {
    type V = Map<Seq<char>, nat>;

    closed spec fn view(&self) -> Map<Seq<char>, nat> {
        stock_of(self.entries@)
    }
}

impl Inventory {
    #[verifier::type_invariant]
    spec fn well_formed(&self) -> bool {
        names_distinct(self.entries@)
    }

    /// Every quantity held can be counted in a `u64`.
    pub proof fn lemma_bounded(&self)
        ensures
            forall|name: Seq<char>| #[trigger] amount(self@, name) <= u64::MAX,
    {
    }

    /// An inventory that stocks nothing.
    pub fn new() -> (inventory: Inventory)
        ensures
            inventory@ == Map::<Seq<char>, nat>::empty(),
    {
        let inventory = Inventory { entries: Vec::new() };
        assert(inventory@ =~= Map::<Seq<char>, nat>::empty());
        inventory
    }

    /// The quantity stocked under `name`, or `None` if the product was never stocked.
    pub fn get(&self, name: &str) -> (quantity: Option<u64>)
        ensures
            quantity is Some <==> self@.contains_key(name@),
            quantity is Some ==> quantity->0 == self@[name@],
    {
        proof {
            use_type_invariant(self);
        }
        let mut i: usize = 0;
        while i < self.entries.len()
            invariant
                i <= self.entries.len(),
                names_distinct(self.entries@),
                forall|k: int| 0 <= k < i ==> (#[trigger] self.entries@[k]).0@ != name@,
            decreases self.entries.len() - i,
        {
            if same_text(self.entries[i].0.as_str(), name) {
                proof {
                    lemma_stock_of_line(self.entries@, i as int);
                }
                return Some(self.entries[i].1);
            }
            i += 1;
        }
        None
    }

    /// The stocked products, one line each, in the order in which they were
    /// first stocked.
    pub fn entries(&self) -> (lines: &Vec<(String, u64)>)
        ensures
            names_distinct(lines@),
            stock_of(lines@) == self@,
    {
        proof {
            use_type_invariant(self);
        }
        &self.entries
    }

    /// A copy of the inventory as it stands.
    pub fn snapshot(&self) -> (copy: Inventory)
        ensures
            copy@ == self@,
    {
        proof {
            use_type_invariant(self);
        }
        let mut lines: Vec<(String, u64)> = Vec::new();
        let mut i: usize = 0;
        while i < self.entries.len()
            invariant
                i <= self.entries.len(),
                lines@ == self.entries@.take(i as int),
            decreases self.entries.len() - i,
        {
            let name = self.entries[i].0.clone();
            lines.push((name, self.entries[i].1));
            assert(lines@ =~= self.entries@.take(i + 1));
            i += 1;
        }
        assert(lines@ =~= self.entries@);
        Inventory { entries: lines }
    }

    /// Sets the quantity stocked under `name`, whether or not the product was
    /// stocked before.
    pub fn insert(&mut self, name: String, quantity: u64)
        ensures
            final(self)@ == old(self)@.insert(name@, quantity as nat),
    {
        proof {
            use_type_invariant(&*self);
        }
        let mut taken = Inventory { entries: Vec::new() };
        std::mem::swap(self, &mut taken);
        let Inventory { entries } = taken;
        let mut entries = entries;
        let ghost before = entries@;
        let mut i: usize = 0;
        while i < entries.len()
            invariant
                i <= entries.len(),
                entries@ == before,
                before == old(self).entries@,
                names_distinct(before),
                forall|k: int| 0 <= k < i ==> (#[trigger] before[k]).0@ != name@,
            decreases entries.len() - i,
        {
            if same_text(entries[i].0.as_str(), name.as_str()) {
                entries[i].1 = quantity;
                proof {
                    lemma_stock_after_update(before, entries@, i as int, quantity);
                }
                *self = Inventory { entries };
                return ;
            }
            i += 1;
        }
        entries.push((name, quantity));
        proof {
            assert(entries@.drop_last() =~= before);
            lemma_stock_after_push(before, entries@);
        }
        *self = Inventory { entries };
    }
}

/// Rewriting the quantity on one line of a stock list rewrites that product's
/// stock and nothing else.
proof fn lemma_stock_after_update(
    before: Seq<(String, u64)>,
    after: Seq<(String, u64)>,
    i: int,
    quantity: u64,
)
    requires
        names_distinct(before),
        0 <= i < before.len(),
        after == before.update(i, (before[i].0, quantity)),
    ensures
        names_distinct(after),
        stock_of(after) == stock_of(before).insert(before[i].0@, quantity as nat),
{
    let name = before[i].0@;
    assert(names_distinct(after)) by {
        assert forall|a: int, b: int| 0 <= a < b < after.len() implies (#[trigger] after[a]).0@ != (
        #[trigger] after[b]).0@ by {
            assert(before[a].0@ != before[b].0@);
        }
    }
    assert forall|key: Seq<char>|
        stock_of(after).contains_key(key) <==> #[trigger] stock_of(before).insert(
            name,
            quantity as nat,
        ).contains_key(key) by {
        if lists(after, key) {
            let k = line_of(after, key);
            assert(before[k].0@ == key);
        }
        if lists(before, key) {
            let k = line_of(before, key);
            assert(after[k].0@ == key);
        }
        if key == name {
            assert(after[i].0@ == key);
        }
    }
    assert forall|key: Seq<char>| #[trigger]
        stock_of(after).contains_key(key) implies stock_of(after)[key] == stock_of(before).insert(
        name,
        quantity as nat,
    )[key] by {
        let k = line_of(after, key);
        lemma_stock_of_line(after, k);
        lemma_stock_of_line(before, k);
    }
    assert(stock_of(after) =~= stock_of(before).insert(name, quantity as nat));
}

/// A new line for a product that no line names adds that product's stock and
/// nothing else.
proof fn lemma_stock_after_push(before: Seq<(String, u64)>, after: Seq<(String, u64)>)
    requires
        names_distinct(before),
        after.len() == before.len() + 1,
        after.drop_last() == before,
        forall|k: int| 0 <= k < before.len() ==> (#[trigger] before[k]).0@ != after.last().0@,
    ensures
        names_distinct(after),
        stock_of(after) == stock_of(before).insert(after.last().0@, after.last().1 as nat),
{
    let last = after.len() - 1;
    let name = after[last].0@;
    let quantity = after[last].1;
    assert forall|k: int| 0 <= k < before.len() implies #[trigger] after[k] == before[k] by {
        assert(after.drop_last()[k] == after[k]);
    }
    assert(names_distinct(after)) by {
        assert forall|a: int, b: int| 0 <= a < b < after.len() implies (#[trigger] after[a]).0@ != (
        #[trigger] after[b]).0@ by {
            if b < last {
                assert(before[a].0@ != before[b].0@);
            } else {
                assert(before[a].0@ != name);
            }
        }
    }
    assert forall|key: Seq<char>|
        stock_of(after).contains_key(key) <==> #[trigger] stock_of(before).insert(
            name,
            quantity as nat,
        ).contains_key(key) by {
        if lists(after, key) {
            let k = line_of(after, key);
            if k < last {
                assert(before[k].0@ == key);
            }
        }
        if lists(before, key) {
            let k = line_of(before, key);
            assert(after[k].0@ == key);
        }
        if key == name {
            assert(after[last].0@ == key);
        }
    }
    assert forall|key: Seq<char>| #[trigger]
        stock_of(after).contains_key(key) implies stock_of(after)[key] == stock_of(before).insert(
        name,
        quantity as nat,
    )[key] by {
        let k = line_of(after, key);
        lemma_stock_of_line(after, k);
        if k < last {
            lemma_stock_of_line(before, k);
        }
    }
    assert(stock_of(after) =~= stock_of(before).insert(name, quantity as nat));
}

} // verus!
