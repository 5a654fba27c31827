//! The set of grants, kept in a vector that holds no pair twice.

use vstd::prelude::*;
use crate::ident::{Account, Role};

verus! {

spec fn pair(grant: (Role, Account)) -> (Seq<char>, Seq<char>) {
    (grant.0@, grant.1@)
}

spec fn pairs(grants: Seq<(Role, Account)>) -> Set<(Seq<char>, Seq<char>)> {
    Set::new(
        |p: (Seq<char>, Seq<char>)|
            exists|i: int| 0 <= i < grants.len() && #[trigger] pair(grants[i]) == p,
    )
}

spec fn distinct(grants: Seq<(Role, Account)>) -> bool {
    forall|i: int, j: int|
        0 <= i < j < grants.len() ==> #[trigger] pair(grants[i]) != #[trigger] pair(grants[j])
}

proof fn lemma_pairs_push(grants: Seq<(Role, Account)>, grant: (Role, Account))
    ensures
        pairs(grants.push(grant)) == pairs(grants).insert(pair(grant)),
{
    let longer = grants.push(grant);
    assert forall|p: (Seq<char>, Seq<char>)|
        pairs(grants).insert(pair(grant)).contains(p) implies pairs(longer).contains(p) by {
        if p == pair(grant) {
            assert(pair(longer[grants.len() as int]) == p);
        } else {
            let i = choose|i: int| 0 <= i < grants.len() && #[trigger] pair(grants[i]) == p;
            assert(pair(longer[i]) == p);
        }
    }
    assert forall|p: (Seq<char>, Seq<char>)|
        pairs(longer).contains(p) implies pairs(grants).insert(pair(grant)).contains(p) by {
        let i = choose|i: int| 0 <= i < longer.len() && #[trigger] pair(longer[i]) == p;
        if i < grants.len() {
            assert(pair(grants[i]) == p);
        }
    }
    assert(pairs(longer) =~= pairs(grants).insert(pair(grant)));
}

proof fn lemma_pairs_remove(grants: Seq<(Role, Account)>, at: int)
    requires
        distinct(grants),
        0 <= at < grants.len(),
    ensures
        distinct(grants.remove(at)),
        pairs(grants.remove(at)) == pairs(grants).remove(pair(grants[at])),
{
    let shorter = grants.remove(at);
    assert forall|i: int, j: int| 0 <= i < j < shorter.len() implies #[trigger] pair(shorter[i])
        != #[trigger] pair(shorter[j]) by {
        let i0 = if i < at { i } else { i + 1 };
        let j0 = if j < at { j } else { j + 1 };
        assert(pair(grants[i0]) != pair(grants[j0]));
    }
    assert forall|p: (Seq<char>, Seq<char>)|
        pairs(grants).remove(pair(grants[at])).contains(p) implies pairs(shorter).contains(p) by {
        let i = choose|i: int| 0 <= i < grants.len() && #[trigger] pair(grants[i]) == p;
        let k = if i < at { i } else { i - 1 };
        assert(pair(shorter[k]) == p);
    }
    assert forall|p: (Seq<char>, Seq<char>)|
        pairs(shorter).contains(p) implies pairs(grants).remove(pair(grants[at])).contains(p) by {
        let k = choose|k: int| 0 <= k < shorter.len() && #[trigger] pair(shorter[k]) == p;
        let i = if k < at { k } else { k + 1 };
        assert(pair(grants[i]) == p);
        if i < at {
            assert(pair(grants[i]) != pair(grants[at]));
        } else {
            assert(pair(grants[at]) != pair(grants[i]));
        }
    }
    assert(pairs(shorter) =~= pairs(grants).remove(pair(grants[at])));
}

fn position(grants: &Vec<(Role, Account)>, role: &Role, account: &Account) -> (found: Option<usize>)
    ensures
        match found {
            Some(i) => i < grants@.len() && pair(grants@[i as int]) == (role@, account@),
            None => !pairs(grants@).contains((role@, account@)),
        },
{
    let mut i: usize = 0;
    while i < grants.len()
        invariant
            i <= grants@.len(),
            forall|k: int| 0 <= k < i ==> #[trigger] pair(grants@[k]) != (role@, account@),
        decreases grants@.len() - i,
    {
        if grants[i].0 == *role && grants[i].1 == *account {
            return Some(i);
        }
        i += 1;
    }
    None
}

/// A finite set of `(role, account)` pairs.
pub(crate) struct GrantSet {
    grants: Vec<(Role, Account)>,
}

impl View for GrantSet {
    type V = Set<(Seq<char>, Seq<char>)>;

    closed spec fn view(&self) -> Set<(Seq<char>, Seq<char>)> {
        pairs(self.grants@)
    }
}

impl GrantSet {
    #[verifier::type_invariant]
    spec fn well_formed(self) -> bool {
        distinct(self.grants@)
    }

    /// The empty set.
    pub(crate) fn new() -> (set: GrantSet)
        ensures
            set@ == Set::<(Seq<char>, Seq<char>)>::empty(),
    {
        GrantSet { grants: Vec::new() }
    }

    /// Whether the pair of `role` and `account` is in the set.
    pub(crate) fn contains(&self, role: &Role, account: &Account) -> (present: bool)
        ensures
            present == self@.contains((role@, account@)),
    {
        position(&self.grants, role, account).is_some()
    }

    /// Puts the pair of `role` and `account` into the set, unless it is in
    /// it already.
    pub(crate) fn insert(&mut self, role: Role, account: Account)
        ensures
            final(self)@ == old(self)@.insert((role@, account@)),
    {
        proof {
            use_type_invariant(&*self);
        }
        if position(&self.grants, &role, &account).is_some() {
            return;
        }
        let mut grants: Vec<(Role, Account)> = Vec::new();
        std::mem::swap(&mut grants, &mut self.grants);
        proof {
            lemma_pairs_push(grants@, (role, account));
            assert forall|i: int, j: int| 0 <= i < j < grants@.len() + 1 implies #[trigger] pair(
                grants@.push((role, account))[i],
            ) != #[trigger] pair(grants@.push((role, account))[j]) by {
                if j == grants@.len() {
                    assert(pairs(grants@).contains(pair(grants@[i])));
                }
            }
        }
        grants.push((role, account));
        self.grants = grants;
    }

    /// Takes the pair of `role` and `account` out of the set, if it is in it.
    pub(crate) fn remove(&mut self, role: &Role, account: &Account)
        ensures
            final(self)@ == old(self)@.remove((role@, account@)),
    {
        proof {
            use_type_invariant(&*self);
        }
        if let Some(i) = position(&self.grants, role, account) {
            let mut grants: Vec<(Role, Account)> = Vec::new();
            std::mem::swap(&mut grants, &mut self.grants);
            proof {
                lemma_pairs_remove(grants@, i as int);
            }
            grants.remove(i);
            self.grants = grants;
        }
    }
}

} // verus!
