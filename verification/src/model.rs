//! The registry as mathematics: its state, and what each operation makes of
//! it. Every contract of the executable code is stated over these functions.

use vstd::prelude::*;
use crate::error::Error;
use crate::event::EventView;
use crate::key::KeyView;

verus! {

/// The name of the admin role, as contracts see it.
pub open spec fn admin_role() -> Seq<char> {
    "ADMIN"@
}

/// Everything an operation of the registry reads or changes.
#[verifier::ext_equal]
pub struct State {
    /// The admin record, once `init` has stored it.
    pub admin: Option<Seq<char>>,
    /// The grants: `(role, account)` is in the set exactly while the account
    /// holds the role.
    pub grants: Set<(Seq<char>, Seq<char>)>,
    /// The accounts that have authorized the call in progress.
    pub authorized: Set<Seq<char>>,
    /// The events published so far, oldest first.
    pub events: Seq<EventView>,
}

impl State {
    /// No admin, no grant, no authorization, no event.
    pub open spec fn empty() -> State {
        State {
            admin: None,
            grants: Set::empty(),
            authorized: Set::empty(),
            events: Seq::empty(),
        }
    }

    /// Whether the store holds an entry under `key`.
    pub open spec fn has(self, key: KeyView) -> bool {
        match key {
            KeyView::Admin => self.admin is Some,
            KeyView::Role(role, account) => self.grants.contains((role, account)),
        }
    }

    /// The store without the entry under `key`.
    pub open spec fn without(self, key: KeyView) -> State {
        match key {
            KeyView::Admin => State { admin: None, ..self },
            KeyView::Role(role, account) => State {
                grants: self.grants.remove((role, account)),
                ..self
            },
        }
    }

    /// Whether `account` holds `role`: the grant of exactly this pair exists.
    pub open spec fn has_role(self, role: Seq<char>, account: Seq<char>) -> bool {
        self.grants.contains((role, account))
    }

    /// The admin, or why there is none to give.
    pub open spec fn get_admin(self) -> Result<Seq<char>, Error> {
        match self.admin {
            Some(admin) => Ok(admin),
            None => Err(Error::NotInitialized),
        }
    }

    /// The verdict of the admin guard: the admin record is read first, then
    /// the admin's authorization of the call is demanded.
    pub open spec fn require_admin(self) -> Result<(), Error> {
        match self.admin {
            None => Err(Error::NotInitialized),
            Some(admin) => if self.authorized.contains(admin) {
                Ok(())
            } else {
                Err(Error::Unauthorized)
            },
        }
    }

    /// The verdict of the role guard. It looks at the grants only, never at
    /// who authorized the call.
    pub open spec fn require_role(self, role: Seq<char>, account: Seq<char>) -> Result<
        (),
        Error,
    > {
        if self.has_role(role, account) {
            Ok(())
        } else {
            Err(Error::MissingRole)
        }
    }

    /// The state once `account` has been given `role`, whoever asked. A grant
    /// that exists already is left alone and announces nothing.
    pub open spec fn grant(self, role: Seq<char>, account: Seq<char>) -> State {
        if self.has_role(role, account) {
            self
        } else {
            State {
                grants: self.grants.insert((role, account)),
                events: self.events.push(EventView::Granted { role, account }),
                ..self
            }
        }
    }

    /// The state once `role` has been taken from `account`, whoever asked. A
    /// grant that does not exist is not missed and announces nothing.
    pub open spec fn revoke(self, role: Seq<char>, account: Seq<char>) -> State {
        if self.has_role(role, account) {
            State {
                grants: self.grants.remove((role, account)),
                events: self.events.push(EventView::Revoked { role, account }),
                ..self
            }
        } else {
            self
        }
    }

    /// What `init` answers.
    pub open spec fn init_result(self) -> Result<(), Error> {
        if self.admin is Some {
            Err(Error::AlreadyInitialized)
        } else {
            Ok(())
        }
    }

    /// The state that `init` leaves: `admin` recorded and holding the admin
    /// role, or nothing changed if an admin was recorded before.
    pub open spec fn after_init(self, admin: Seq<char>) -> State {
        if self.admin is Some {
            self
        } else {
            (State { admin: Some(admin), ..self }).grant(admin_role(), admin)
        }
    }

    /// The state that `grant_role` leaves: the grant made if the admin guard
    /// lets the call pass, nothing changed otherwise.
    pub open spec fn after_grant_role(self, role: Seq<char>, account: Seq<char>) -> State {
        if self.require_admin() is Ok {
            self.grant(role, account)
        } else {
            self
        }
    }

    /// The state that `revoke_role` leaves: the grant gone if the admin guard
    /// lets the call pass, nothing changed otherwise.
    pub open spec fn after_revoke_role(self, role: Seq<char>, account: Seq<char>) -> State {
        if self.require_admin() is Ok {
            self.revoke(role, account)
        } else {
            self
        }
    }
}

} // verus!
