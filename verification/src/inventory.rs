//! The backpack's contents: how many there are of each kind of content.
//!
//! A kind stands at most once, and the kinds keep the order in which they were
//! first put in.

use vstd::prelude::*;
use vstd::set_lib::{lemma_int_range, lemma_len_subset, set_int_range};
use crate::tile::Content;

verus! {

/// No kind of content stands twice among the entries.
pub open spec fn distinct_kinds(entries: Seq<(Content, usize)>) -> bool {
    forall|i: int, j: int|
        0 <= i < j < entries.len() ==> (#[trigger] entries[i]).0 != (#[trigger] entries[j]).0
}

/// Whether there is an entry for `content`.
pub open spec fn holds(entries: Seq<(Content, usize)>, content: Content) -> bool {
    exists|i: int| 0 <= i < entries.len() && (#[trigger] entries[i]).0 == content
}

/// The place of an entry for `content`, where there is one.
pub open spec fn index_of(entries: Seq<(Content, usize)>, content: Content) -> int {
    choose|i: int| 0 <= i < entries.len() && (#[trigger] entries[i]).0 == content
}

/// The quantity noted for `content`, if there is an entry for it.
pub open spec fn quantity_of(entries: Seq<(Content, usize)>, content: Content) -> Option<usize> {
    if holds(entries, content) {
        Some(entries[index_of(entries, content)].1)
    } else {
        None
    }
}

/// The entries after `quantity` was noted for `content`: in the place of the
/// entry for `content` where there is one, at the end otherwise.
pub open spec fn with_entry(
    entries: Seq<(Content, usize)>,
    content: Content,
    quantity: usize,
) -> Seq<(Content, usize)> {
    if holds(entries, content) {
        entries.update(index_of(entries, content), (content, quantity))
    } else {
        entries.push((content, quantity))
    }
}

/// A number for each kind of content, from 0 to 15.
pub open spec fn kind_number(content: Content) -> int {
    match content {
        Content::Rock => 0,
        Content::Tree => 1,
        Content::Garbage => 2,
        Content::Fire => 3,
        Content::Coin => 4,
        Content::Bin => 5,
        Content::Crate => 6,
        Content::Bank => 7,
        Content::Water => 8,
        Content::Market => 9,
        Content::Fish => 10,
        Content::Building => 11,
        Content::Bush => 12,
        Content::JollyBlock => 13,
        Content::Scarecrow => 14,
        Content::Empty => 15,
    }
}

/// Entries of distinct kinds are at most sixteen, as there are sixteen kinds.
pub proof fn lemma_distinct_kinds_are_few(entries: Seq<(Content, usize)>)
    requires
        distinct_kinds(entries),
    ensures
        entries.len() <= 16,
{
    let numbers = Seq::new(entries.len(), |i: int| kind_number(entries[i].0));
    assert(numbers.no_duplicates()) by {
        assert forall|i: int, j: int|
            0 <= i < numbers.len() && 0 <= j < numbers.len() && i != j implies numbers[i]
            != numbers[j] by {
            if i < j {
                assert(entries[i].0 != entries[j].0);
            } else {
                assert(entries[j].0 != entries[i].0);
            }
        }
    }
    numbers.unique_seq_to_set();
    lemma_int_range(0, 16);
    assert(numbers.to_set().subset_of(set_int_range(0, 16))) by {
        assert forall|n: int| numbers.to_set().contains(n) implies set_int_range(0, 16).contains(
            n,
        ) by {
            let i = choose|i: int| 0 <= i < numbers.len() && numbers[i] == n;
            assert(n == kind_number(entries[i].0));
        }
    }
    lemma_len_subset(numbers.to_set(), set_int_range(0, 16));
}

/// How many there are of each kind of content.
#[derive(Debug)]
pub struct Inventory {
    entries: Vec<(Content, usize)>,
}

impl View for Inventory {
    type V = Seq<(Content, usize)>;

    closed spec fn view(&self) -> Seq<(Content, usize)> {
        self.entries@
    }
}

impl Inventory {
    #[verifier::type_invariant]
    spec fn well_formed(&self) -> bool {
        distinct_kinds(self.entries@)
    }

    /// An inventory without entries.
    pub fn new() -> (inventory: Inventory)
        ensures
            inventory@ == Seq::<(Content, usize)>::empty(),
    {
        Inventory { entries: Vec::new() }
    }

    /// The number of entries.
    pub fn len(&self) -> (n: usize)
        ensures
            n == self@.len(),
            n <= 16,
            distinct_kinds(self@),
    {
        proof {
            use_type_invariant(self);
            lemma_distinct_kinds_are_few(self@);
        }
        self.entries.len()
    }

    /// The entry at place `i`.
    pub fn entry(&self, i: usize) -> (e: Option<(Content, usize)>)
        ensures
            e == (if i < self@.len() {
                Some(self@[i as int])
            } else {
                None
            }),
    {
        if i < self.entries.len() {
            Some(self.entries[i])
        } else {
            None
        }
    }

    /// The quantity noted for `content`, if there is an entry for it.
    pub fn get(&self, content: Content) -> (quantity: Option<usize>)
        ensures
            quantity == quantity_of(self@, content),
    {
        proof {
            use_type_invariant(self);
        }
        match position(&self.entries, content) {
            Some(i) => {
                proof {
                    lemma_index_of(self@, content, i as int);
                }
                Some(self.entries[i].1)
            },
            None => None,
        }
    }

    /// Notes `quantity` for `content` and gives back the quantity that was noted before.
    pub fn insert(&mut self, content: Content, quantity: usize) -> (previous: Option<usize>)
        ensures
            final(self)@ == with_entry(old(self)@, content, quantity),
            previous == quantity_of(old(self)@, content),
            distinct_kinds(final(self)@),
    {
        proof {
            use_type_invariant(&*self);
        }
        let mut entries: Vec<(Content, usize)> = Vec::new();
        std::mem::swap(&mut self.entries, &mut entries);
        let ghost before = entries@;
        let previous = match position(&entries, content) {
            Some(i) => {
                proof {
                    lemma_index_of(before, content, i as int);
                }
                let previous = entries[i].1;
                entries[i] = (content, quantity);
                assert(entries@ =~= with_entry(before, content, quantity));
                assert(distinct_kinds(entries@)) by {
                    assert forall|a: int, b: int| 0 <= a < b < entries@.len() implies (
                    #[trigger] entries@[a]).0 != (#[trigger] entries@[b]).0 by {
                        assert(before[a].0 != before[b].0);
                    }
                }
                Some(previous)
            },
            None => {
                entries.push((content, quantity));
                assert(distinct_kinds(entries@)) by {
                    assert forall|a: int, b: int| 0 <= a < b < entries@.len() implies (
                    #[trigger] entries@[a]).0 != (#[trigger] entries@[b]).0 by {
                        if b < before.len() {
                            assert(before[a].0 != before[b].0);
                        } else {
                            assert(before[a].0 != content);
                        }
                    }
                }
                None
            },
        };
        self.entries = entries;
        previous
    }
}

/// The first place among `entries` that is for `content`, if there is one.
fn position(entries: &Vec<(Content, usize)>, content: Content) -> (place: Option<usize>)
    ensures
        match place {
            Some(i) => i < entries@.len() && entries@[i as int].0 == content,
            None => !holds(entries@, content),
        },
{
    let mut i: usize = 0;
    while i < entries.len()
        invariant
            i <= entries.len(),
            forall|k: int| 0 <= k < i ==> (#[trigger] entries@[k]).0 != content,
        decreases entries.len() - i,
    {
        if entries[i].0 == content {
            return Some(i);
        }
        i = i + 1;
    }
    None
}

/// Among entries of distinct kinds the entry for a kind is found at one place only.
pub proof fn lemma_index_of(entries: Seq<(Content, usize)>, content: Content, i: int)
    requires
        distinct_kinds(entries),
        0 <= i < entries.len(),
        entries[i].0 == content,
    ensures
        holds(entries, content),
        index_of(entries, content) == i,
        quantity_of(entries, content) == Some(entries[i].1),
{
    let j = index_of(entries, content);
    if j < i {
        assert(entries[j].0 != entries[i].0);
    }
    if i < j {
        assert(entries[i].0 != entries[j].0);
    }
}

} // verus!
