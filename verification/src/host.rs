//! The environment that the registry runs in: the persistent store, the
//! authorizations of the call in progress, and the event log.

use vstd::prelude::*;
use crate::event::{Event, EventView};
use crate::grants::GrantSet;
use crate::ident::{Account, Role};
use crate::key::DataKey;
use crate::model::State;

verus! {

/// The events of a log, as contracts see them.
pub open spec fn event_views(events: Seq<Event>) -> Seq<EventView> {
    events.map_values(|event: Event| event@)
}

spec fn account_set(accounts: Seq<Account>) -> Set<Seq<char>> {
    Set::new(
        |id: Seq<char>| exists|i: int| 0 <= i < accounts.len() && (#[trigger] accounts[i])@ == id,
    )
}

proof fn lemma_account_set_push(accounts: Seq<Account>, account: Account)
    ensures
        account_set(accounts.push(account)) == account_set(accounts).insert(account@),
{
    let longer = accounts.push(account);
    assert forall|id: Seq<char>|
        account_set(accounts).insert(account@).contains(id) implies account_set(longer).contains(
            id,
        ) by {
        if id == account@ {
            assert(longer[accounts.len() as int]@ == id);
        } else {
            let i = choose|i: int| 0 <= i < accounts.len() && (#[trigger] accounts[i])@ == id;
            assert(longer[i]@ == id);
        }
    }
    assert forall|id: Seq<char>|
        account_set(longer).contains(id) implies account_set(accounts).insert(account@).contains(
            id,
        ) by {
        let i = choose|i: int| 0 <= i < longer.len() && (#[trigger] longer[i])@ == id;
        if i < accounts.len() {
            assert(accounts[i]@ == id);
        }
    }
    assert(account_set(longer) =~= account_set(accounts).insert(account@));
}

fn find_account(accounts: &Vec<Account>, account: &Account) -> (found: bool)
    ensures
        found == account_set(accounts@).contains(account@),
{
    let mut i: usize = 0;
    while i < accounts.len()
        invariant
            i <= accounts@.len(),
            forall|k: int| 0 <= k < i ==> (#[trigger] accounts@[k])@ != account@,
        decreases accounts@.len() - i,
    {
        if accounts[i] == *account {
            return true;
        }
        i += 1;
    }
    false
}

/// An in-memory environment: what the ledger stores for the program, who
/// authorized the call in progress, and what has been published.
pub struct Host {
    admin: Option<Account>,
    grants: GrantSet,
    authorized: Vec<Account>,
    events: Vec<Event>,
}

impl View for Host {
    type V = State;

    closed spec fn view(&self) -> State {
        State {
            admin: match self.admin {
                Some(admin) => Some(admin@),
                None => None,
            },
            grants: self.grants@,
            authorized: account_set(self.authorized@),
            events: event_views(self.events@),
        }
    }
}

impl Host {
    /// A fresh environment: nothing stored, nobody authorized, nothing
    /// published.
    pub fn new() -> (host: Host)
        ensures
            host@ == State::empty(),
    {
        Host { admin: None, grants: GrantSet::new(), authorized: Vec::new(), events: Vec::new() }
    }

    /// Whether the store holds an entry under `key`.
    pub fn has(&self, key: &DataKey) -> (present: bool)
        ensures
            present == self@.has(key@),
    {
        match key {
            DataKey::Admin => self.admin.is_some(),
            DataKey::Role(role, account) => self.grants.contains(role, account),
        }
    }

    /// The admin record, if the store holds one.
    pub fn admin(&self) -> (admin: Option<&Account>)
        ensures
            self@.admin == match admin {
                Some(account) => Some(account@),
                None => None,
            },
    {
        self.admin.as_ref()
    }

    /// Stores `admin` as the admin record, in place of any earlier one.
    pub fn set_admin(&mut self, admin: Account)
        ensures
            final(self)@ == (State { admin: Some(admin@), ..old(self)@ }),
    {
        self.admin = Some(admin);
    }

    /// Stores the grant of `role` to `account`. Storing it again changes
    /// nothing.
    pub fn set_role(&mut self, role: Role, account: Account)
        ensures
            final(self)@ == (State {
                grants: old(self)@.grants.insert((role@, account@)),
                ..old(self)@
            }),
    {
        self.grants.insert(role, account);
    }

    /// Deletes the entry under `key`. Deleting an entry that does not exist
    /// changes nothing.
    pub fn remove(&mut self, key: &DataKey)
        ensures
            final(self)@ == old(self)@.without(key@),
    {
        match key {
            DataKey::Admin => {
                self.admin = None;
            },
            DataKey::Role(role, account) => {
                self.grants.remove(role, account);
            },
        }
    }

    /// Records that `account` has authorized the call in progress.
    pub fn authorize(&mut self, account: Account)
        ensures
            final(self)@ == (State {
                authorized: old(self)@.authorized.insert(account@),
                ..old(self)@
            }),
    {
        proof {
            lemma_account_set_push(self.authorized@, account);
        }
        self.authorized.push(account);
    }

    /// Forgets every authorization: a new call begins.
    pub fn clear_authorizations(&mut self)
        ensures
            final(self)@ == (State { authorized: Set::empty(), ..old(self)@ }),
    {
        self.authorized.clear();
    }

    /// Whether `account` has authorized the call in progress.
    pub fn is_authorized(&self, account: &Account) -> (authorized: bool)
        ensures
            authorized == self@.authorized.contains(account@),
    {
        find_account(&self.authorized, account)
    }

    /// Appends `event` to the event log.
    pub fn publish(&mut self, event: Event)
        ensures
            final(self)@ == (State { events: old(self)@.events.push(event@), ..old(self)@ }),
    {
        self.events.push(event);
    }

    /// The events published so far, oldest first.
    pub fn events(&self) -> (events: &Vec<Event>)
        ensures
            event_views(events@) == self@.events,
    {
        &self.events
    }
}

} // verus!
