//! A finite set of substitution rules.

use vstd::hash_map::StringHashMap;
use vstd::prelude::*;
use vstd::string::StringExecFns;

verus! {

/// Rules that replace a short run of scalars, the pattern, by another run.
///
/// The view is the map from each pattern to its replacement. A pattern has at
/// most one replacement: a later rule for the same pattern takes the place of
/// the earlier one.
pub struct RuleSet {
    by_pattern: StringHashMap<String>,
}

impl View for RuleSet {
    type V = Map<Seq<char>, Seq<char>>;

    closed spec fn view(&self) -> Map<Seq<char>, Seq<char>> {
        self.by_pattern@.map_values(|replacement: String| replacement@)
    }
}

impl RuleSet {
    /// The set without rules.
    pub fn new() -> (rules: Self)
        ensures
            rules@ == Map::<Seq<char>, Seq<char>>::empty(),
    {
        let rules = RuleSet { by_pattern: StringHashMap::new() };
        assert(rules@ =~= Map::<Seq<char>, Seq<char>>::empty());
        rules
    }

    /// Adds the rule that replaces `pattern` by `replacement`.
    pub fn insert(&mut self, pattern: &str, replacement: &str)
        ensures
            final(self)@ == old(self)@.insert(pattern@, replacement@),
    {
        self.by_pattern.insert(String::from_str(pattern), String::from_str(replacement));
        assert(self@ =~= old(self)@.insert(pattern@, replacement@));
    }

    /// The replacement for `pattern`, if there is a rule for it.
    pub fn get(&self, pattern: &str) -> (found: Option<&str>)
        ensures
            match found {
                Some(replacement) => self@.get(pattern@) == Some(replacement@),
                None => self@.get(pattern@) is None,
            },
    {
        match self.by_pattern.get(pattern) {
            Some(replacement) => Some(replacement.as_str()),
            None => None,
        }
    }
}

} // verus!
