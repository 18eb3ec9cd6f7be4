//! The items the player carries.

use vstd::prelude::*;
use vstd::string::*;
use crate::text::{append_padded, padded, same_text};

verus! {

/// One carried item as the contracts see it: its name and its description.
pub type Entry = (Seq<char>, Seq<char>);

/// True when some entry of `items` is called `name`.
pub open spec fn holds(items: Seq<Entry>, name: Seq<char>) -> bool {
    exists|i: int| 0 <= i < items.len() && (#[trigger] items[i]).0 == name
}

/// What is true of the entries that are not called `name`.
pub open spec fn other_than(name: Seq<char>) -> spec_fn(Entry) -> bool {
    |e: Entry| e.0 != name
}

/// The entries of `items` that are not called `name`, in their order.
pub open spec fn without(items: Seq<Entry>, name: Seq<char>) -> Seq<Entry> {
    items.filter(other_than(name))
}

/// True when no two entries of `items` share a name.
pub open spec fn distinct_names(items: Seq<Entry>) -> bool {
    forall|i: int, j: int|
        0 <= i < j < items.len() ==> (#[trigger] items[i]).0 != (#[trigger] items[j]).0
}

/// One line of the inventory listing: both columns padded to ten characters.
pub open spec fn row(e: Entry) -> Seq<char> {
    padded(e.0, 10) + " | "@ + padded(e.1, 10) + "\n"@
}

/// The lines of the listing for `items`, one after the other.
pub open spec fn rows(items: Seq<Entry>) -> Seq<char>
    decreases items.len(),
{
    if items.len() == 0 {
        Seq::empty()
    } else {
        rows(items.drop_last()) + row(items.last())
    }
}

/// The whole listing: a header line, one row per entry, a footer line.
pub open spec fn table(items: Seq<Entry>) -> Seq<char> {
    "--- INVENTORY ---\n"@ + rows(items) + "------------------\n"@
}

/// Taking out by name: no entry of that name is left, entries of other names
/// all stay, distinct names stay distinct, and a name that is not there takes
/// nothing away.
pub proof fn lemma_without(items: Seq<Entry>, name: Seq<char>)
    ensures
        !holds(without(items, name), name),
        forall|other: Seq<char>|
            other != name ==> holds(without(items, name), other) == holds(items, other),
        distinct_names(items) ==> distinct_names(without(items, name)),
        !holds(items, name) ==> without(items, name) == items,
    decreases items.len(),
{
    reveal(Seq::filter);
    if items.len() > 0 {
        let front = items.drop_last();
        let last = items.last();
        let kept = without(front, name);
        let out = without(items, name);
        lemma_without(front, name);
        assert(out == if last.0 != name {
            kept.push(last)
        } else {
            kept
        });
        assert forall|i: int| 0 <= i < front.len() implies front[i] == items[i] by {}
        // What `holds` says of `items` in terms of `front` and `last`.
        assert forall|other: Seq<char>|
            holds(items, other) == (holds(front, other) || last.0 == other) by {
            if holds(items, other) {
                let i = choose|i: int| 0 <= i < items.len() && (#[trigger] items[i]).0 == other;
                if i < front.len() {
                    assert(front[i].0 == other);
                }
            }
            if holds(front, other) {
                let i = choose|i: int| 0 <= i < front.len() && (#[trigger] front[i]).0 == other;
                assert(items[i].0 == other);
            }
            if last.0 == other {
                assert(items[items.len() - 1].0 == other);
            }
        }
        if last.0 != name {
            assert forall|other: Seq<char>|
                holds(out, other) == (holds(kept, other) || last.0 == other) by {
                if holds(out, other) {
                    let i = choose|i: int| 0 <= i < out.len() && (#[trigger] out[i]).0 == other;
                    if i < kept.len() {
                        assert(kept[i].0 == other);
                    }
                }
                if holds(kept, other) {
                    let i = choose|i: int| 0 <= i < kept.len() && (#[trigger] kept[i]).0 == other;
                    assert(out[i].0 == other);
                }
                if last.0 == other {
                    assert(out[out.len() - 1].0 == other);
                }
            }
        }
        if distinct_names(items) {
            assert(distinct_names(front)) by {
                assert forall|i: int, j: int| 0 <= i < j < front.len() implies (#[trigger] front[i]).0
                    != (#[trigger] front[j]).0 by {
                    assert(items[i].0 != items[j].0);
                }
            }
            if last.0 != name {
                assert(!holds(front, last.0)) by {
                    if holds(front, last.0) {
                        let i = choose|i: int|
                            0 <= i < front.len() && (#[trigger] front[i]).0 == last.0;
                        assert(items[i].0 != items[items.len() - 1].0);
                    }
                }
                assert(!holds(kept, last.0));
                assert forall|i: int, j: int| 0 <= i < j < out.len() implies (#[trigger] out[i]).0
                    != (#[trigger] out[j]).0 by {
                    if j < kept.len() {
                        assert(kept[i].0 != kept[j].0);
                    } else {
                        assert(kept[i].0 != last.0);
                    }
                }
            }
        }
        if !holds(items, name) {
            assert(!holds(front, name));
            assert(out =~= items);
        }
    }
}

/// Adding an item and then removing it by name gives back the inventory as
/// it was, provided that it held no item of that name before.
pub proof fn lemma_add_then_remove(items: Seq<Entry>, name: Seq<char>, desc: Seq<char>)
    requires
        !holds(items, name),
    ensures
        without(items.push((name, desc)), name) == items,
{
    items.lemma_filter_push((name, desc), other_than(name));
    lemma_without(items, name);
}

/// Removing a name that no entry has changes nothing.
pub proof fn lemma_remove_absent(items: Seq<Entry>, name: Seq<char>)
    requires
        !holds(items, name),
    ensures
        without(items, name) == items,
{
    lemma_without(items, name);
}

/// An ordered collection of named items.
///
/// The container accepts any name in [`Inventory::add`]; keeping names
/// distinct is up to the caller, see [`distinct_names`].
#[derive(Debug, Clone, PartialEq, Eq)]
pub struct Inventory {
    items: Vec<(String, String)>,
}

impl View for Inventory {
    type V = Seq<Entry>;

    closed spec fn view(&self) -> Seq<Entry> {
        self.items@.map_values(|e: (String, String)| (e.0@, e.1@))
    }
}

impl Inventory {
    /// An inventory that holds nothing.
    pub fn new() -> (inv: Inventory)
        ensures
            inv@ == Seq::<Entry>::empty(),
    {
        Inventory { items: Vec::new() }
    }

    /// Puts an item at the end of the inventory.
    pub fn add(&mut self, item: &str, desc: &str)
        ensures
            final(self)@ == old(self)@.push((item@, desc@)),
            distinct_names(old(self)@) && !holds(old(self)@, item@) ==> distinct_names(final(self)@),
    {
        self.items.push((item.to_owned(), desc.to_owned()));
        assert(self@ =~= old(self)@.push((item@, desc@)));
    }

    /// The position of the first entry called `target_item`, if there is one.
    pub fn find(&self, target_item: &str) -> (found: Option<usize>)
        ensures
            match found {
                Some(i) => i < self@.len() && self@[i as int].0 == target_item@
                    && forall|j: int| 0 <= j < i ==> (#[trigger] self@[j]).0 != target_item@,
                None => !holds(self@, target_item@),
            },
    {
        let mut i: usize = 0;
        while i < self.items.len()
            invariant
                i <= self.items.len(),
                forall|j: int| 0 <= j < i ==> (#[trigger] self@[j]).0 != target_item@,
            decreases self.items.len() - i,
        {
            if same_text(self.items[i].0.as_str(), target_item) {
                return Some(i);
            }
            i = i + 1;
        }
        None
    }

    /// Whether some entry is called `target_item`.
    pub fn has(&self, target_item: &str) -> (present: bool)
        ensures
            present == holds(self@, target_item@),
    {
        self.find(target_item).is_some()
    }

    /// Takes out every entry called `item`; the others keep their order.
    pub fn remove(&mut self, item: &str)
        ensures
            final(self)@ == without(old(self)@, item@),
            !holds(final(self)@, item@),
            distinct_names(old(self)@) ==> distinct_names(final(self)@),
    {
        let mut kept: Vec<(String, String)> = Vec::new();
        let mut i: usize = 0;
        while i < self.items.len()
            invariant
                i <= self.items.len(),
                kept@.map_values(|e: (String, String)| (e.0@, e.1@)) == without(
                    self@.take(i as int),
                    item@,
                ),
            decreases self.items.len() - i,
        {
            let ghost seen = self@.take(i as int);
            proof {
                assert(self@.take(i + 1) =~= seen.push(self@[i as int]));
                seen.lemma_filter_push(self@[i as int], other_than(item@));
            }
            if !same_text(self.items[i].0.as_str(), item) {
                let name = self.items[i].0.clone();
                let desc = self.items[i].1.clone();
                kept.push((name, desc));
            }
            i = i + 1;
        }
        assert(self@.take(i as int) =~= self@);
        proof {
            lemma_without(self@, item@);
        }
        self.items = kept;
    }

    /// The listing that is shown to the player.
    pub fn render(&self) -> (out: String)
        ensures
            out@ == table(self@),
    {
        let mut out = "--- INVENTORY ---\n".to_owned();
        let mut i: usize = 0;
        while i < self.items.len()
            invariant
                i <= self.items.len(),
                out@ == "--- INVENTORY ---\n"@ + rows(self@.take(i as int)),
            decreases self.items.len() - i,
        {
            assert(self@.take(i + 1).drop_last() =~= self@.take(i as int));
            append_padded(&mut out, self.items[i].0.as_str(), 10);
            out.append(" | ");
            append_padded(&mut out, self.items[i].1.as_str(), 10);
            out.append("\n");
            i = i + 1;
        }
        assert(self@.take(i as int) =~= self@);
        out.append("------------------\n");
        out
    }
}

} // verus!
