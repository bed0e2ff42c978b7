use vstd::prelude::*;
use vstd::std_specs::cmp::PartialEqSpecImpl;

verus! {

/// The mathematical value of a principal: the text of its identifier.
pub type PrincipalId = Seq<char>;

/// An authenticated identity. Two principals are the same identity exactly when
/// their identifiers hold the same text; nothing else about a principal is observable.
#[derive(Debug)]
pub struct Principal {
    pub key: String,
}

impl View for Principal {
    type V = PrincipalId;

    open spec fn view(&self) -> PrincipalId {
        self.key@
    }
}

impl Principal {
    /// Makes the principal whose identifier is `key`.
    pub fn new(key: &str) -> (principal: Principal)
        ensures
            principal@ == key@,
    {
        Principal { key: key.to_owned() }
    }

    /// The identifier of this principal.
    pub fn as_str(&self) -> (key: &str)
        ensures
            key@ == self@,
    {
        self.key.as_str()
    }
}

impl Clone for Principal {
    fn clone(&self) -> (copy: Principal)
        ensures
            copy@ == self@,
    {
        Principal { key: self.key.clone() }
    }
}

impl PartialEq for Principal {
    fn eq(&self, other: &Principal) -> (same: bool) {
        self.key.eq(&other.key)
    }
}

impl PartialEqSpecImpl for Principal {
    open spec fn obeys_eq_spec() -> bool {
        true
    }

    open spec fn eq_spec(&self, other: &Principal) -> bool {
        self.key@ == other.key@
    }
}

impl Eq for Principal {

}

/// `list` without the entries that are `who`, the others in their order.
pub open spec fn without(list: Seq<PrincipalId>, who: PrincipalId) -> Seq<PrincipalId>
    decreases list.len(),
{
    if list.len() == 0 {
        list
    } else if list.last() == who {
        without(list.drop_last(), who)
    } else {
        without(list.drop_last(), who).push(list.last())
    }
}

/// An ordered list of principals. Its mathematical value is the sequence of their
/// identifiers.
#[derive(Debug)]
pub struct PrincipalList {
    pub items: Vec<Principal>,
}

impl View for PrincipalList {
    type V = Seq<PrincipalId>;

    open spec fn view(&self) -> Seq<PrincipalId> {
        Seq::new(self.items@.len(), |i: int| self.items@[i]@)
    }
}

impl PrincipalList {
    /// The empty list.
    pub fn new() -> (list: PrincipalList)
        ensures
            list@ == Seq::<PrincipalId>::empty(),
    {
        let list = PrincipalList { items: Vec::new() };
        assert(list@ =~= Seq::<PrincipalId>::empty());
        list
    }

    /// The number of entries.
    pub fn len(&self) -> (n: usize)
        ensures
            n == self@.len(),
    {
        self.items.len()
    }

    /// Whether the list has no entry.
    pub fn is_empty(&self) -> (empty: bool)
        ensures
            empty == (self@.len() == 0),
    {
        self.items.len() == 0
    }

    /// The entry at index `i`.
    pub fn get(&self, i: usize) -> (who: &Principal)
        requires
            i < self@.len(),
        ensures
            who@ == self@[i as int],
    {
        &self.items[i]
    }

    /// The index of the first entry that is `who`, if there is one.
    pub fn position(&self, who: &Principal) -> (found: Option<usize>)
        ensures
            found matches Some(i) ==> i < self@.len() && self@[i as int] == who@,
            match found {
                Some(i) => self@.index_of_first(who@) == Some(i as int),
                None => self@.index_of_first(who@) is None,
            },
            found is Some == self@.contains(who@),
    {
        let mut i: usize = 0;
        while i < self.items.len()
            invariant
                i <= self.items.len(),
                forall|j: int| 0 <= j < i ==> self@[j] != who@,
            decreases self.items.len() - i,
        {
            if self.items[i] == *who {
                proof {
                    assert(self@[i as int] == who@);
                    self@.index_of_first_ensures(who@);
                    let first = self@.index_of_first(who@);
                    assert(first is Some);
                    assert(self@[first->0] == who@);
                    assert(first->0 == i);
                }
                return Some(i);
            }
            i += 1;
        }
        proof {
            self@.index_of_first_ensures(who@);
        }
        None
    }

    /// Whether `who` is an entry of the list.
    pub fn contains(&self, who: &Principal) -> (found: bool)
        ensures
            found == self@.contains(who@),
    {
        self.position(who).is_some()
    }

    /// Appends `who` at the end.
    pub fn push_back(&mut self, who: Principal)
        ensures
            final(self)@ == old(self)@.push(who@),
    {
        self.items.push(who);
        assert(self@ =~= old(self)@.push(who@));
    }

    /// Removes the first entry that is `who`; a list without such an entry stays as it is.
    pub fn remove_first(&mut self, who: &Principal)
        ensures
            final(self)@ == old(self)@.remove_value(who@),
    {
        match self.position(who) {
            Some(i) => {
                self.items.remove(i);
                assert(self@ =~= old(self)@.remove(i as int));
            },
            None => {},
        }
    }
}

impl PrincipalList {
    /// A copy of the list that leaves out every entry that is `who`.
    pub fn without(&self, who: &Principal) -> (rest: PrincipalList)
        ensures
            rest@ == without(self@, who@),
    {
        let mut rest = PrincipalList::new();
        let mut i: usize = 0;
        while i < self.items.len()
            invariant
                i <= self.items.len(),
                rest@ == without(self@.take(i as int), who@),
            decreases self.items.len() - i,
        {
            proof {
                assert(self@.take(i + 1).drop_last() =~= self@.take(i as int));
                assert(self@.take(i + 1).last() == self@[i as int]);
            }
            if self.items[i] != *who {
                rest.push_back(self.items[i].clone());
            }
            i += 1;
        }
        assert(self@.take(self@.len() as int) =~= self@);
        rest
    }
}

impl Clone for PrincipalList {
    fn clone(&self) -> (copy: PrincipalList)
        ensures
            copy@ == self@,
    {
        let mut copy = PrincipalList::new();
        let mut i: usize = 0;
        while i < self.items.len()
            invariant
                i <= self.items.len(),
                copy@ == self@.take(i as int),
            decreases self.items.len() - i,
        {
            copy.push_back(self.items[i].clone());
            assert(self@.take(i as int).push(self@[i as int]) =~= self@.take(i + 1));
            i += 1;
        }
        assert(self@.take(self@.len() as int) =~= self@);
        copy
    }
}

} // verus!
