//! Code-to-name tables of administrative regions.

use vstd::hash_map::StringHashMap;
use vstd::prelude::*;

verus! {

/// A table from a composite region code, such as `US.CA`, to the region's
/// display name. Its view is the map from code to name.
pub struct AdminLookup {
    names: StringHashMap<String>,
}

impl View for AdminLookup {
    type V = Map<Seq<char>, Seq<char>>;

    closed spec fn view(&self) -> Map<Seq<char>, Seq<char>> {
        self.names@.map_values(|name: String| name@)
    }
}

/// The name that `names` has for `code`, if it has one.
pub open spec fn name_of(names: Map<Seq<char>, Seq<char>>, code: Seq<char>) -> Option<Seq<char>> {
    if names.contains_key(code) {
        Some(names[code])
    } else {
        None
    }
}

impl AdminLookup {
    /// The empty table.
    pub fn new() -> (lookup: AdminLookup)
        ensures
            lookup@ == Map::<Seq<char>, Seq<char>>::empty(),
    {
        let lookup = AdminLookup { names: StringHashMap::new() };
        assert(lookup@ =~= Map::<Seq<char>, Seq<char>>::empty());
        lookup
    }

    /// Sets the name of `code`; a name the code had before is replaced.
    pub fn insert(&mut self, code: String, name: String)
        ensures
            final(self)@ == old(self)@.insert(code@, name@),
    {
        self.names.insert(code, name);
        assert(self@ =~= old(self)@.insert(code@, name@));
    }

    /// The name of `code`, if the table has one.
    pub fn get(&self, code: &str) -> (name: Option<&String>)
        ensures
            name.deep_view() == name_of(self@, code@),
    {
        self.names.get(code)
    }

    /// The number of codes in the table.
    pub fn len(&self) -> (n: usize)
        ensures
            n == self@.len(),
    {
        broadcast use vstd::hash_map::group_hash_map_axioms;

        proof {
            assert(self@.dom() =~= self.names@.dom());
        }
        self.names.len()
    }
}

} // verus!
