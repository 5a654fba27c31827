//! The events that announce a change of the grants.

use vstd::prelude::*;
use vstd::std_specs::cmp::PartialEqSpecImpl;
use crate::ident::{Account, Role};

verus! {

/// What an [`Event`] stands for in contracts.
pub enum EventView {
    /// `account` was given `role`.
    Granted { role: Seq<char>, account: Seq<char> },
    /// `account` lost `role`.
    Revoked { role: Seq<char>, account: Seq<char> },
}

/// Published when an account is given a role that it did not hold.
#[derive(Debug)]
pub struct RoleGranted {
    pub role: Role,
    pub account: Account,
}

impl View for RoleGranted {
    type V = EventView;

    open spec fn view(&self) -> EventView {
        EventView::Granted { role: self.role@, account: self.account@ }
    }
}

impl Clone for RoleGranted {
    fn clone(&self) -> (copy: RoleGranted)
        ensures
            copy@ == self@,
    {
        RoleGranted { role: self.role.clone(), account: self.account.clone() }
    }
}

impl PartialEq for RoleGranted {
    fn eq(&self, other: &RoleGranted) -> (same: bool) {
        self.role == other.role && self.account == other.account
    }
}

impl PartialEqSpecImpl for RoleGranted {
    open spec fn obeys_eq_spec() -> bool {
        true
    }

    open spec fn eq_spec(&self, other: &RoleGranted) -> bool {
        self@ == other@
    }
}

impl Eq for RoleGranted {}

/// Published when an account loses a role that it held.
#[derive(Debug)]
pub struct RoleRevoked {
    pub role: Role,
    pub account: Account,
}

impl View for RoleRevoked {
    type V = EventView;

    open spec fn view(&self) -> EventView {
        EventView::Revoked { role: self.role@, account: self.account@ }
    }
}

impl Clone for RoleRevoked {
    fn clone(&self) -> (copy: RoleRevoked)
        ensures
            copy@ == self@,
    {
        RoleRevoked { role: self.role.clone(), account: self.account.clone() }
    }
}

impl PartialEq for RoleRevoked {
    fn eq(&self, other: &RoleRevoked) -> (same: bool) {
        self.role == other.role && self.account == other.account
    }
}

impl PartialEqSpecImpl for RoleRevoked {
    open spec fn obeys_eq_spec() -> bool {
        true
    }

    open spec fn eq_spec(&self, other: &RoleRevoked) -> bool {
        self@ == other@
    }
}

impl Eq for RoleRevoked {}

/// An entry of the event log.
#[derive(Debug)]
pub enum Event {
    Granted(RoleGranted),
    Revoked(RoleRevoked),
}

impl View for Event {
    type V = EventView;

    open spec fn view(&self) -> EventView {
        match self {
            Event::Granted(granted) => granted@,
            Event::Revoked(revoked) => revoked@,
        }
    }
}

impl Clone for Event {
    fn clone(&self) -> (copy: Event)
        ensures
            copy@ == self@,
    {
        match self {
            Event::Granted(granted) => Event::Granted(granted.clone()),
            Event::Revoked(revoked) => Event::Revoked(revoked.clone()),
        }
    }
}

impl PartialEq for Event {
    fn eq(&self, other: &Event) -> (same: bool) {
        match (self, other) {
            (Event::Granted(a), Event::Granted(b)) => *a == *b,
            (Event::Revoked(a), Event::Revoked(b)) => *a == *b,
            _ => false,
        }
    }
}

impl PartialEqSpecImpl for Event {
    open spec fn obeys_eq_spec() -> bool {
        true
    }

    open spec fn eq_spec(&self, other: &Event) -> bool {
        self@ == other@
    }
}

impl Eq for Event {}

} // verus!
