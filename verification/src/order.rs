//! The order of the languages: the order of their records in the table.

use std::cmp::Ordering;
use vstd::prelude::*;
use vstd::std_specs::cmp::PartialOrdSpec;
use crate::table::Language;

verus! {

impl PartialOrd for Language {
    /// Compares two languages by the places of their records.
    fn partial_cmp(&self, other: &Language) -> (r: Option<Ordering>) {
        let here = self.to_usize();
        let there = other.to_usize();
        if here < there {
            Some(Ordering::Less)
        } else if here == there {
            Some(Ordering::Equal)
        } else {
            Some(Ordering::Greater)
        }
    }
}

impl vstd::std_specs::cmp::PartialOrdSpecImpl for Language {
    open spec fn obeys_partial_cmp_spec() -> bool {
        true
    }

    open spec fn partial_cmp_spec(&self, other: &Language) -> Option<Ordering> {
        if self.index() < other.index() {
            Some(Ordering::Less)
        } else if self.index() == other.index() {
            Some(Ordering::Equal)
        } else {
            Some(Ordering::Greater)
        }
    }
}

impl Language {
    /// Whether this language comes before `other`: what `<` computes.
    pub open spec fn precedes(self, other: Language) -> bool {
        self.partial_cmp_spec(&other) == Some(Ordering::Less)
    }

    /// The order of the languages is the order of the table, and it is a
    /// strict total order: no language comes before itself, of two
    /// different languages one comes before the other, and the order is
    /// transitive.
    pub proof fn lemma_order(self, other: Language, third: Language)
        ensures
            self.precedes(other) <==> self.index() < other.index(),
            !self.precedes(self),
            self.precedes(other) || self == other || other.precedes(self),
            !(self.precedes(other) && other.precedes(self)),
            self.precedes(other) && other.precedes(third) ==> self.precedes(third),
    {
        self.lemma_index();
        other.lemma_index();
    }
}

} // verus!
