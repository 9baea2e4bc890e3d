//! The scopes that a token grants.

use crate::util::{split_on, split_on_space};
use vstd::prelude::*;

verus! {

/// A set of scope names.
#[derive(Debug)]
pub struct ScopeSet {
    names: Vec<String>,
}

/// The set of a sequence with one more item is the set of the sequence
/// with that item put in.
proof fn lemma_push_to_set(items: Seq<Seq<char>>, item: Seq<char>)
    ensures
        items.push(item).to_set() == items.to_set().insert(item),
{
    let longer = items.push(item);
    assert forall|x: Seq<char>| longer.contains(x) <==> (items.contains(x) || x == item) by {
        if longer.contains(x) {
            let k = choose|k: int| 0 <= k < longer.len() && longer[k] == x;
            if k < items.len() {
                assert(items[k] == x);
            }
        }
        if items.contains(x) {
            let k = choose|k: int| 0 <= k < items.len() && items[k] == x;
            assert(longer[k] == x);
        }
        if x == item {
            assert(longer[items.len() as int] == x);
        }
    }
    assert(longer.to_set() =~= items.to_set().insert(item));
}

impl View for ScopeSet {
    type V = Set<Seq<char>>;

    closed spec fn view(&self) -> Set<Seq<char>> {
        self.names.deep_view().to_set()
    }
}

impl ScopeSet {
    #[verifier::type_invariant]
    spec fn no_name_twice(self) -> bool {
        self.names.deep_view().no_duplicates()
    }

    /// The set with no name in it.
    pub fn new() -> (scopes: ScopeSet)
        ensures
            scopes@ == Set::<Seq<char>>::empty(),
    {
        let scopes = ScopeSet { names: Vec::new() };
        assert(scopes.names.deep_view() =~= Seq::<Seq<char>>::empty());
        assert(scopes@ =~= Set::<Seq<char>>::empty());
        scopes
    }

    /// Whether `name` is in the set.
    pub fn contains(&self, name: &str) -> (found: bool)
        ensures
            found == self@.contains(name@),
    {
        let wanted = name.to_owned();
        let mut i: usize = 0;
        while i < self.names.len()
            invariant
                i <= self.names.len(),
                wanted@ == name@,
                forall|j: int| 0 <= j < i ==> self.names.deep_view()[j] != name@,
            decreases self.names.len() - i,
        {
            assert(self.names.deep_view()[i as int] == self.names[i as int]@);
            if self.names[i] == wanted {
                assert(self.names.deep_view().contains(name@));
                return true;
            }
            i = i + 1;
        }
        false
    }

    /// The set with `name` put into it.
    pub fn with(self, name: String) -> (grown: ScopeSet)
        ensures
            grown@ == self@.insert(name@),
    {
        proof {
            use_type_invariant(&self);
        }
        if self.contains(name.as_str()) {
            assert(self@.insert(name@) =~= self@);
            self
        } else {
            let ghost before = self.names.deep_view();
            let mut names = self.names;
            names.push(name);
            assert(names.deep_view() =~= before.push(name@));
            assert(names.deep_view().to_set() =~= before.to_set().insert(name@)) by {
                lemma_push_to_set(before, name@);
            }
            ScopeSet { names }
        }
    }

    /// How many names the set holds.
    pub fn len(&self) -> (n: usize)
        ensures
            n == self@.len(),
            self@.finite(),
    {
        proof {
            use_type_invariant(self);
            self.names.deep_view().unique_seq_to_set();
        }
        self.names.len()
    }

    /// The names of the set, each once.
    pub fn names(&self) -> (names: &Vec<String>)
        ensures
            names.deep_view().to_set() == self@,
            names.deep_view().no_duplicates(),
    {
        proof {
            use_type_invariant(self);
        }
        &self.names
    }

    /// The scopes that a space-delimited list names.
    pub fn from_scope(scope: &str) -> (scopes: ScopeSet)
        ensures
            scopes@ == split_on(scope@, ' ').to_set(),
    {
        let pieces = split_on_space(scope);
        let mut scopes = ScopeSet::new();
        let mut i: usize = 0;
        assert(pieces.deep_view().take(0).to_set() =~= Set::<Seq<char>>::empty());
        while i < pieces.len()
            invariant
                i <= pieces.len(),
                scopes@ == pieces.deep_view().take(i as int).to_set(),
            decreases pieces.len() - i,
        {
            let ghost seen = pieces.deep_view().take(i as int);
            let ghost next = pieces.deep_view().take(i + 1);
            assert(next =~= seen.push(pieces[i as int]@));
            scopes = scopes.with(pieces[i].clone());
            proof {
                lemma_push_to_set(seen, pieces[i as int]@);
            }
            i = i + 1;
        }
        assert(pieces.deep_view().take(pieces.len() as int) =~= pieces.deep_view());
        scopes
    }
}

} // verus!
