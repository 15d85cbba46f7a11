//! A finite map from scalars to scalars.

use std::collections::HashMap;
use vstd::prelude::*;

verus! {

broadcast use vstd::std_specs::hash::group_hash_axioms;

/// The code point of `c`, the key under which a table files it.
pub open spec fn code(c: char) -> u32 {
    c as u32
}

/// Distinct scalars have distinct code points.
pub proof fn lemma_code_injective(a: char, b: char)
    ensures
        code(a) == code(b) <==> a == b,
{
    assert(code(a) as char == a);
    assert(code(b) as char == b);
}

/// A table that gives one scalar for each scalar it knows.
///
/// Entries are held in a hash map keyed by the scalar's code point; the view
/// is the map from scalar to scalar that they stand for.
pub struct CharMap {
    by_code: HashMap<u32, char>,
}

impl View for CharMap {
    type V = Map<char, char>;

    closed spec fn view(&self) -> Map<char, char> {
        Map::new(
            |c: char| self.by_code@.contains_key(code(c)),
            |c: char| self.by_code@[code(c)],
        )
    }
}

impl CharMap {
    /// The table that knows no scalar.
    pub fn new() -> (table: Self)
        ensures
            table@ == Map::<char, char>::empty(),
    {
        let table = CharMap { by_code: HashMap::new() };
        assert(table@ =~= Map::<char, char>::empty());
        table
    }

    /// Makes `key` stand for `value`, in place of whatever it stood for.
    pub fn insert(&mut self, key: char, value: char)
        ensures
            final(self)@ == old(self)@.insert(key, value),
    {
        self.by_code.insert(key as u32, value);
        proof {
            assert forall|c: char| #[trigger] code(c) == code(key) implies c == key by {
                lemma_code_injective(c, key);
            }
            assert(self@ =~= old(self)@.insert(key, value));
        }
    }

    /// What `key` stands for, if the table knows it.
    pub fn get(&self, key: char) -> (found: Option<char>)
        ensures
            found == self@.get(key),
    {
        match self.by_code.get(&(key as u32)) {
            Some(value) => Some(*value),
            None => None,
        }
    }
}

} // verus!
