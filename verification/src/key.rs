//! Keys of the persistent store.

use vstd::prelude::*;
use vstd::std_specs::cmp::PartialEqSpecImpl;
use crate::ident::{Account, Role};

verus! {

/// What a [`DataKey`] stands for in contracts.
pub enum KeyView {
    /// The key of the admin record.
    Admin,
    /// The key of the grant of a role to an account.
    Role(Seq<char>, Seq<char>),
}

/// A key of the persistent store. The store holds at most one entry per key.
#[derive(Debug)]
pub enum DataKey {
    /// The single admin record.
    Admin,
    /// The grant of a role to an account. The entry carries no value: the
    /// account holds the role exactly while the entry exists.
    Role(Role, Account),
}

impl View for DataKey {
    type V = KeyView;

    open spec fn view(&self) -> KeyView {
        match self {
            DataKey::Admin => KeyView::Admin,
            DataKey::Role(role, account) => KeyView::Role(role@, account@),
        }
    }
}

impl Clone for DataKey {
    fn clone(&self) -> (copy: DataKey)
        ensures
            copy@ == self@,
    {
        match self {
            DataKey::Admin => DataKey::Admin,
            DataKey::Role(role, account) => DataKey::Role(role.clone(), account.clone()),
        }
    }
}

impl PartialEq for DataKey {
    fn eq(&self, other: &DataKey) -> (same: bool) {
        match (self, other) {
            (DataKey::Admin, DataKey::Admin) => true,
            (DataKey::Role(r1, a1), DataKey::Role(r2, a2)) => *r1 == *r2 && *a1 == *a2,
            _ => false,
        }
    }
}

impl PartialEqSpecImpl for DataKey {
    open spec fn obeys_eq_spec() -> bool {
        true
    }

    open spec fn eq_spec(&self, other: &DataKey) -> bool {
        self@ == other@
    }
}

impl Eq for DataKey {}

} // verus!
