use vstd::hash_set::StringHashSet;
use vstd::prelude::*;

verus! {

/// The variables that are true; every name that is not in the set is false.
pub struct Assignment {
    names: StringHashSet,
}

impl View for Assignment {
    type V = Set<Seq<char>>;

    closed spec fn view(&self) -> Set<Seq<char>> {
        self.names@
    }
}

impl Assignment {
    /// An assignment under which every variable is false.
    pub fn new() -> (r: Assignment)
        ensures
            r@ == Set::<Seq<char>>::empty(),
    {
        Assignment { names: StringHashSet::new() }
    }

    /// Makes `name` true. Returns whether it was false before.
    pub fn insert(&mut self, name: &str) -> (r: bool)
        ensures
            final(self)@ == old(self)@.insert(name@),
            r == !old(self)@.contains(name@),
    {
        self.names.insert(name.to_owned())
    }

    /// Whether `name` is true.
    pub fn contains(&self, name: &str) -> (r: bool)
        ensures
            r == self@.contains(name@),
    {
        self.names.contains(name)
    }
}

} // verus!
