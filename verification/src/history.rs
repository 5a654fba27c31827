//! Whole histories of the registry: what any sequence of calls makes of it.
//!
//! The contracts of the entry points speak of one call. The laws here speak
//! of every sequence of them, each call arriving with authorizations of its
//! own.

use vstd::prelude::*;
use crate::error::Error;
use crate::event::EventView;
use crate::model::{admin_role, State};

verus! {

/// One call of an entry point that can change the registry.
pub enum Call {
    Init { admin: Seq<char> },
    GrantRole { role: Seq<char>, account: Seq<char> },
    RevokeRole { role: Seq<char>, account: Seq<char> },
}

/// A call together with the accounts that authorized it.
pub struct Invocation {
    pub authorized: Set<Seq<char>>,
    pub call: Call,
}

/// The state that one invocation leaves.
pub open spec fn step(state: State, invocation: Invocation) -> State {
    let entered = State { authorized: invocation.authorized, ..state };
    match invocation.call {
        Call::Init { admin } => entered.after_init(admin),
        Call::GrantRole { role, account } => entered.after_grant_role(role, account),
        Call::RevokeRole { role, account } => entered.after_revoke_role(role, account),
    }
}

/// The state that a sequence of invocations leaves, first to last.
pub open spec fn run(state: State, invocations: Seq<Invocation>) -> State
    decreases invocations.len(),
{
    if invocations.len() == 0 {
        state
    } else {
        step(run(state, invocations.drop_last()), invocations.last())
    }
}

/// The grants that an event log tells of: each pair whose latest event is a
/// grant.
pub open spec fn replay(events: Seq<EventView>) -> Set<(Seq<char>, Seq<char>)>
    decreases events.len(),
{
    if events.len() == 0 {
        Set::empty()
    } else {
        match events.last() {
            EventView::Granted { role, account } => replay(events.drop_last()).insert(
                (role, account),
            ),
            EventView::Revoked { role, account } => replay(events.drop_last()).remove(
                (role, account),
            ),
        }
    }
}

/// The admin is recorded once and for all: whatever calls follow, with
/// whatever authorizations, the admin on record stays the admin.
pub proof fn admin_is_never_replaced(state: State, invocations: Seq<Invocation>)
    requires
        state.admin is Some,
    ensures
        run(state, invocations).admin == state.admin,
    decreases invocations.len(),
{
    if invocations.len() > 0 {
        admin_is_never_replaced(state, invocations.drop_last());
    }
}

/// Until `init` is called the registry is inert: no sequence of other calls,
/// whoever authorized them, records an admin, makes a grant or publishes an
/// event, and `get_admin` keeps answering `NotInitialized`.
pub proof fn nothing_happens_before_init(state: State, invocations: Seq<Invocation>)
    requires
        state.admin is None,
        forall|i: int| 0 <= i < invocations.len() ==> !((#[trigger] invocations[i]).call is Init),
    ensures
        run(state, invocations).admin is None,
        run(state, invocations).grants == state.grants,
        run(state, invocations).events == state.events,
        run(state, invocations).get_admin() == Err::<Seq<char>, Error>(Error::NotInitialized),
    decreases invocations.len(),
{
    if invocations.len() > 0 {
        let earlier = invocations.drop_last();
        assert forall|i: int| 0 <= i < earlier.len() implies !((#[trigger] earlier[i]).call
            is Init) by {
            assert(earlier[i] == invocations[i]);
        }
        nothing_happens_before_init(state, earlier);
        assert(!(invocations[invocations.len() - 1].call is Init));
    }
}

/// The event log is a faithful journal of the grants: in a registry that
/// started out empty, after any sequence of calls, an account holds a role
/// exactly if the latest event about that pair is a grant.
pub proof fn events_tell_the_grants(invocations: Seq<Invocation>)
    ensures
        run(State::empty(), invocations).grants == replay(run(State::empty(), invocations).events),
    decreases invocations.len(),
{
    if invocations.len() > 0 {
        events_tell_the_grants(invocations.drop_last());
        let before = run(State::empty(), invocations.drop_last());
        let entered = State { authorized: invocations.last().authorized, ..before };
        assert forall|role: Seq<char>, account: Seq<char>|
            entered.grant(role, account).grants == replay(
                #[trigger] entered.grant(role, account).events,
            ) by {
            if !entered.has_role(role, account) {
                let event = EventView::Granted { role, account };
                assert(entered.events.push(event).drop_last() == entered.events);
            }
        }
        assert forall|role: Seq<char>, account: Seq<char>|
            entered.revoke(role, account).grants == replay(
                #[trigger] entered.revoke(role, account).events,
            ) by {
            if entered.has_role(role, account) {
                let event = EventView::Revoked { role, account };
                assert(entered.events.push(event).drop_last() == entered.events);
            }
        }
        if let Call::Init { admin } = invocations.last().call {
            let recorded = State { admin: Some(admin), ..entered };
            if !recorded.has_role(admin_role(), admin) {
                let event = EventView::Granted { role: admin_role(), account: admin };
                assert(recorded.events.push(event).drop_last() == recorded.events);
            }
        }
    }
}

} // verus!
