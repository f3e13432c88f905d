use vstd::prelude::*;

verus! {

/// The names of the volumes a pod has created so far, each once, in the order
/// they were first added.
pub struct VolumeSet {
    names: Vec<String>,
}

impl VolumeSet {
    /// The names, in insertion order.
    pub closed spec fn names(self) -> Seq<Seq<char>> {
        self.names@.map_values(|s: String| s@)
    }

    #[verifier::type_invariant]
    closed spec fn no_name_twice(self) -> bool {
        self.names().no_duplicates()
    }

    pub open spec fn set(self) -> Set<Seq<char>> {
        self.names().to_set()
    }

    /// An empty set of volumes.
    pub fn new() -> (r: VolumeSet)
        ensures
            r.names() == Seq::<Seq<char>>::empty(),
    {
        let r = VolumeSet { names: Vec::new() };
        assert(r.names() =~= Seq::<Seq<char>>::empty());
        r
    }

    /// The number of volumes.
    pub fn len(&self) -> (r: usize)
        ensures
            r == self.names().len(),
    {
        self.names.len()
    }

    /// Whether a volume of that name is in the set.
    pub fn contains(&self, name: &String) -> (r: bool)
        ensures
            r == self.names().contains(name@),
    {
        let mut i: usize = 0;
        while i < self.names.len()
            invariant
                i <= self.names@.len(),
                forall|j: int| 0 <= j < i ==> self.names()[j] != name@,
            decreases self.names@.len() - i,
        {
            if self.names[i] == *name {
                assert(self.names()[i as int] == name@);
                return true;
            }
            i = i + 1;
        }
        false
    }

    /// Adds a volume; returns whether it was new. A name already present leaves
    /// the set as it was.
    pub fn insert(&mut self, name: String) -> (added: bool)
        ensures
            added == !old(self).names().contains(name@),
            added ==> final(self).names() == old(self).names().push(name@),
            !added ==> final(self).names() == old(self).names(),
    {
        proof {
            use_type_invariant(&*self);
        }
        if self.contains(&name) {
            return false;
        }
        let ghost before = self.names();
        let mut names: Vec<String> = Vec::new();
        std::mem::swap(&mut names, &mut self.names);
        let ghost name_view = name@;
        names.push(name);
        assert(names@.map_values(|s: String| s@) =~= before.push(name_view));
        assert(before.push(name_view).no_duplicates()) by {
            assert forall|a: int, b: int|
                0 <= a < b < before.len() + 1 implies before.push(name_view)[a] != before.push(name_view)[b] by {
                if b == before.len() {
                    assert(before.contains(before[a]));
                }
            }
        }
        self.names = names;
        true
    }

    /// The names, in insertion order, no name twice.
    pub fn into_names(self) -> (r: Vec<String>)
        ensures
            r@.map_values(|s: String| s@) == self.names(),
            self.names().no_duplicates(),
    {
        proof {
            use_type_invariant(&self);
        }
        self.names
    }
}

} // verus!
