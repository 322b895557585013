//! The perfect hash of a reverse index, made with `phf_generator`.

use vstd::prelude::*;
use crate::index::phf_slot;

verus! {

/// A reverse index: the parts of a perfect hash over codes, and for each
/// place that a code can hash to, the place of the record with that code.
#[derive(Debug, PartialEq, Eq)]
pub struct HashIndex {
    /// The hash key.
    pub key: u64,
    /// The displacements.
    pub disps: Vec<(u32, u32)>,
    /// The places of the records, each where its code hashes to.
    pub entries: Vec<usize>,
}

/// Whether no two of `codes` are the same.
pub open spec fn all_differ(codes: Seq<&str>) -> bool {
    forall|i: int, j: int| 0 <= i < j < codes.len() ==> codes[i]@ != codes[j]@
}

impl HashIndex {
    /// The place of a record that this index gives for `code`: what stands
    /// where `code` hashes to.
    pub open spec fn answer(self, code: Seq<char>) -> Option<int> {
        let slot = phf_slot(self.key, self.disps@, self.entries@.len(), code);
        if self.disps@.len() > 0 && slot < self.entries@.len() {
            Some(self.entries@[slot as int] as int)
        } else {
            None
        }
    }
}

/// A perfect hash as the generator returns it.
pub struct HashState {
    /// The hash key.
    pub key: u64,
    /// The displacements.
    pub disps: Vec<(u32, u32)>,
    /// For each place that a code can hash to, the number of the code that
    /// does.
    pub map: Vec<usize>,
}

/// Makes a perfect hash over `codes` with `phf_generator::generate_hash`.
///
/// The generator tries hash keys until one of them lets it give every code
/// a place of its own; it is asked only for codes that all differ. The map
/// that it returns has one place for each code and holds the number of a
/// code at each place. Every code hashes, with the key and the
/// displacements, to the place of the map that holds its number: this is the
/// place where a `phf::Map` made of them looks for the code.
#[verifier::external_body]
fn generate_hash(codes: &Vec<&str>) -> (state: HashState)
    requires
        all_differ(codes@),
    ensures
        state.map@.len() == codes@.len(),
        forall|place: int|
            0 <= place < state.map@.len() ==> #[trigger] state.map@[place] < codes@.len(),
        forall|i: int|
            0 <= i < codes@.len() ==> state.disps@.len() > 0 && phf_slot(
                state.key,
                state.disps@,
                codes@.len(),
                #[trigger] codes@[i]@,
            ) < codes@.len() && state.map@[phf_slot(
                state.key,
                state.disps@,
                codes@.len(),
                codes@[i]@,
            ) as int] == i,
{
    let state = phf_generator::generate_hash(codes);
    HashState { key: state.key, disps: state.disps, map: state.map }
}

/// For each place of `map`, the owner of the code whose number stands
/// there.
pub fn place_owners(map: &Vec<usize>, owners: &Vec<usize>) -> (entries: Vec<usize>)
    requires
        forall|place: int| 0 <= place < map@.len() ==> #[trigger] map@[place] < owners@.len(),
    ensures
        entries@.len() == map@.len(),
        forall|place: int|
            0 <= place < map@.len() ==> #[trigger] entries@[place] == owners@[map@[place] as int],
{
    let mut entries: Vec<usize> = Vec::new();
    let mut place: usize = 0;
    while place < map.len()
        invariant
            place <= map@.len(),
            entries@.len() == place,
            forall|p: int| 0 <= p < map@.len() ==> #[trigger] map@[p] < owners@.len(),
            forall|p: int| 0 <= p < place ==> #[trigger] entries@[p] == owners@[map@[p] as int],
        decreases map@.len() - place,
    {
        entries.push(owners[map[place]]);
        place += 1;
    }
    entries
}

/// The reverse index over `codes`, where the record at place `owners[i]`
/// has the code `codes[i]`.
pub fn build_index(codes: &Vec<&str>, owners: &Vec<usize>) -> (index: HashIndex)
    requires
        codes@.len() == owners@.len(),
        all_differ(codes@),
    ensures
        index.entries@.len() == codes@.len(),
        forall|i: int|
            0 <= i < codes@.len() ==> index.answer(#[trigger] codes@[i]@) == Some(owners@[i] as int),
        forall|place: int|
            0 <= place < index.entries@.len() ==> owners@.contains(#[trigger] index.entries@[place]),
{
    let HashState { key, disps, map } = generate_hash(codes);
    let entries = place_owners(&map, owners);
    HashIndex { key, disps, entries }
}

} // verus!
