//! The query parameters that a callback brings.

use vstd::prelude::*;
use vstd::hash_map::StringHashMap;

verus! {

/// The query parameters of one redirect request, by name. A name has at most
/// one value: a later value for a name replaces an earlier one.
pub struct CallbackQuery {
    params: StringHashMap<String>,
}

impl View for CallbackQuery {
    type V = Map<Seq<char>, Seq<char>>;

    closed spec fn view(&self) -> Map<Seq<char>, Seq<char>> {
        self.params@.map_values(|value: String| value@)
    }
}

impl CallbackQuery {
    /// A query without parameters.
    pub fn new() -> (query: CallbackQuery)
        ensures
            query@ == Map::<Seq<char>, Seq<char>>::empty(),
    {
        let query = CallbackQuery { params: StringHashMap::new() };
        assert(query@ =~= Map::<Seq<char>, Seq<char>>::empty());
        query
    }

    /// Sets the value of a parameter.
    pub fn insert(&mut self, name: String, value: String)
        ensures
            final(self)@ == old(self)@.insert(name@, value@),
    {
        self.params.insert(name, value);
        assert(self@ =~= old(self)@.insert(name@, value@));
    }

    /// The value of a parameter, if the query has it.
    pub fn get(&self, name: &str) -> (value: Option<&String>)
        ensures
            match value {
                Some(text) => self@.contains_key(name@) && text@ == self@[name@],
                None => !self@.contains_key(name@),
            },
    {
        self.params.get(name)
    }
}

} // verus!
