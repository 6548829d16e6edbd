//! The index that maps numeric server ids to server names.
use std::collections::HashMap;
use vstd::prelude::*;

verus! {

broadcast use vstd::std_specs::hash::group_hash_axioms;

/// Maps a numeric server id to the name of the server.
pub struct Index {
    pub entries: HashMap<u32, String>,
}

impl View for Index {
    type V = Map<u32, Seq<char>>;

    open spec fn view(&self) -> Map<u32, Seq<char>> {
        self.entries@.map_values(|s: String| s@)
    }
}

impl Index {
    /// An index without entries.
    pub fn new() -> (res: Index)
        ensures
            res@ == Map::<u32, Seq<char>>::empty(),
    {
        let res = Index { entries: HashMap::new() };
        assert(res@ =~= Map::<u32, Seq<char>>::empty());
        res
    }
}

/// Records `name` under the id `index`, replacing any earlier name of that id.
pub fn add_entry(idx: &mut Index, index: u32, name: String)
    ensures
        final(idx)@ == old(idx)@.insert(index, name@),
{
    idx.entries.insert(index, name);
    proof {
        assert(final(idx)@ =~= old(idx)@.insert(index, name@));
    }
}

/// The name recorded under the id `index`, if there is one.
pub fn get_name_by_index(idx: &Index, index: u32) -> (res: Option<String>)
    ensures
        res is Some <==> idx@.contains_key(index),
        res matches Some(n) ==> n@ == idx@[index],
{
    match idx.entries.get(&index) {
        Some(s) => Some(s.clone()),
        None => None,
    }
}

/// After a name is recorded under an id, reading that id gives the name,
/// and reading any other id gives what it gave before.
pub proof fn lemma_read_after_add(before: Map<u32, Seq<char>>, index: u32, name: Seq<char>, other: u32)
    ensures
        before.insert(index, name).contains_key(index),
        before.insert(index, name)[index] == name,
        other != index ==> before.insert(index, name).contains_key(other) == before.contains_key(
            other,
        ),
        other != index && before.contains_key(other) ==> before.insert(index, name)[other]
            == before[other],
{
}

} // verus!
