//! Identifiers: the names of roles and the addresses of accounts.
//!
//! Both are opaque to the registry. It only ever compares them for equality,
//! so each is modelled by the sequence of characters that spells it.

use vstd::prelude::*;
use vstd::std_specs::cmp::PartialEqSpecImpl;

verus! {

/// Name of the role that every super admin holds.
pub const ADMIN: &'static str = "ADMIN";

/// Name of the predefined operator role.
pub const OPERATOR: &'static str = "OPERATOR";

/// Name of the predefined pauser role.
pub const PAUSER: &'static str = "PAUSER";

/// Name of the predefined game role.
pub const GAME: &'static str = "GAME";

/// A role identifier. Any name is a role; the four predefined names are not
/// special to the registry.
#[derive(Debug)]
pub struct Role {
    name: String,
}

impl View for Role {
    type V = Seq<char>;

    closed spec fn view(&self) -> Seq<char> {
        self.name@
    }
}

impl Role {
    /// The role called `name`.
    pub fn new(name: &str) -> (role: Role)
        ensures
            role@ == name@,
    {
        Role { name: name.to_owned() }
    }

    /// The name of this role.
    pub fn name(&self) -> (name: &str)
        ensures
            name@ == self@,
    {
        self.name.as_str()
    }
}

impl Clone for Role {
    fn clone(&self) -> (copy: Role)
        ensures
            copy@ == self@,
    {
        Role { name: self.name.clone() }
    }
}

impl PartialEq for Role {
    fn eq(&self, other: &Role) -> (same: bool) {
        self.name == other.name
    }
}

impl PartialEqSpecImpl for Role {
    open spec fn obeys_eq_spec() -> bool {
        true
    }

    open spec fn eq_spec(&self, other: &Role) -> bool {
        self@ == other@
    }
}

impl Eq for Role {}

/// An account identifier: the address of a user or of another program.
#[derive(Debug)]
pub struct Account {
    address: String,
}

impl View for Account {
    type V = Seq<char>;

    closed spec fn view(&self) -> Seq<char> {
        self.address@
    }
}

impl Account {
    /// The account at `address`.
    pub fn new(address: &str) -> (account: Account)
        ensures
            account@ == address@,
    {
        Account { address: address.to_owned() }
    }

    /// The address of this account.
    pub fn address(&self) -> (address: &str)
        ensures
            address@ == self@,
    {
        self.address.as_str()
    }
}

impl Clone for Account {
    fn clone(&self) -> (copy: Account)
        ensures
            copy@ == self@,
    {
        Account { address: self.address.clone() }
    }
}

impl PartialEq for Account {
    fn eq(&self, other: &Account) -> (same: bool) {
        self.address == other.address
    }
}

impl PartialEqSpecImpl for Account {
    open spec fn obeys_eq_spec() -> bool {
        true
    }

    open spec fn eq_spec(&self, other: &Account) -> bool {
        self@ == other@
    }
}

impl Eq for Account {}

} // verus!
