//! The identifiers of the messages already shown, in the order in which
//! they were shown.

use vstd::prelude::*;
use vstd::string::*;

verus! {

/// An ordered set of message identifiers. It only grows, and holds each
/// identifier at most once.
#[derive(Debug)]
pub struct SeenMessageIds {
    ids: Vec<String>,
}

impl View for SeenMessageIds {
    type V = Seq<Seq<char>>;

    closed spec fn view(&self) -> Seq<Seq<char>> {
        Seq::new(self.ids@.len(), |i: int| self.ids@[i]@)
    }
}

impl SeenMessageIds {
    /// No identifier occurs twice.
    pub open spec fn wf(&self) -> bool {
        self@.no_duplicates()
    }

    /// The empty set.
    pub fn new() -> (r: Self)
        ensures
            r@ == Seq::<Seq<char>>::empty(),
            r.wf(),
    {
        let r = SeenMessageIds { ids: Vec::new() };
        assert(r@ =~= Seq::<Seq<char>>::empty());
        r
    }

    /// How many identifiers the set holds.
    pub fn len(&self) -> (n: usize)
        ensures
            n == self@.len(),
    {
        self.ids.len()
    }

    /// The identifier that was added as the `i`-th.
    pub fn get(&self, i: usize) -> (r: String)
        requires
            i < self@.len(),
        ensures
            r@ == self@[i as int],
    {
        self.ids[i].clone()
    }

    /// Whether the identifier is in the set.
    pub fn contains(&self, id: &str) -> (r: bool)
        ensures
            r == self@.contains(id@),
    {
        let wanted = String::from_str(id);
        let n: usize = self.ids.len();
        let mut i: usize = 0;
        while i < n
            invariant
                n == self.ids@.len(),
                i <= n,
                wanted@ == id@,
                forall|k: int| 0 <= k < i ==> self@[k] != id@,
            decreases n - i,
        {
            if self.ids[i] == wanted {
                assert(self@[i as int] == id@);
                return true;
            }
            i += 1;
        }
        false
    }

    /// Adds the identifier at the end unless the set holds it already, and
    /// says whether it was added.
    pub fn insert(&mut self, id: &str) -> (added: bool)
        requires
            old(self).wf(),
        ensures
            final(self).wf(),
            added == !old(self)@.contains(id@),
            added ==> final(self)@ == old(self)@.push(id@),
            !added ==> final(self)@ == old(self)@,
    {
        if self.contains(id) {
            return false;
        }
        let ghost before = self@;
        self.ids.push(String::from_str(id));
        assert(self@ =~= before.push(id@));
        true
    }
}

} // verus!
