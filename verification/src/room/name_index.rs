//! Lookup of a slot number by room name.

use vstd::prelude::*;

verus! {

/// A table from room names to slot numbers, kept in a `bevy::utils::HashMap`.
/// Verus does not look inside: what the table holds is `name_index_entries`.
#[verifier::external_body]
pub struct NameIndex {
    map: bevy::utils::HashMap<String, usize>,
}

/// The entries of a [`NameIndex`]: each name that it holds, as its sequence
/// of characters, with the slot stored for it.
pub uninterp spec fn name_index_entries(index: NameIndex) -> Map<Seq<char>, usize>;

impl NameIndex {
    /// `Default::default` of the map: a table without entries.
    #[verifier::external_body]
    pub(crate) fn new() -> (index: NameIndex)
        ensures
            name_index_entries(index).dom() == Set::<Seq<char>>::empty(),
    {
        NameIndex { map: Default::default() }
    }

    /// `HashMap::get`: the slot stored for `name`, or nothing where the
    /// table has no such name. The table is not changed.
    #[verifier::external_body]
    pub(crate) fn get(&self, name: &str) -> (slot: Option<usize>)
        ensures
            slot == if name_index_entries(*self).dom().contains(name@) {
                Some(name_index_entries(*self)[name@])
            } else {
                None
            },
    {
        self.map.get(name).copied()
    }

    /// `HashMap::insert`: afterwards the table holds `slot` for `name` and
    /// is otherwise as before; what was stored for `name` until now is
    /// handed back.
    #[verifier::external_body]
    pub(crate) fn insert(&mut self, name: String, slot: usize) -> (previous: Option<usize>)
        ensures
            name_index_entries(*final(self)) == name_index_entries(*old(self)).insert(name@, slot),
            previous == if name_index_entries(*old(self)).dom().contains(name@) {
                Some(name_index_entries(*old(self))[name@])
            } else {
                None
            },
    {
        self.map.insert(name, slot)
    }

    /// `HashMap::clear`: afterwards the table holds nothing.
    #[verifier::external_body]
    pub(crate) fn clear(&mut self)
        ensures
            name_index_entries(*final(self)).dom() == Set::<Seq<char>>::empty(),
    {
        self.map.clear()
    }
}

} // verus!
