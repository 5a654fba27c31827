//! What holds of the registry whatever state it is in: the laws that callers
//! may rely on, each proved from the model that the operations' contracts are
//! stated over.

use vstd::prelude::*;
use crate::error::Error;
use crate::model::{admin_role, State};

verus! {

/// Without an admin on record `init` succeeds. After it, every further
/// `init`, with whatever account, is refused as `AlreadyInitialized` and
/// changes nothing; in particular the admin stays who it was.
pub proof fn init_succeeds_exactly_once(state: State, first: Seq<char>, second: Seq<char>)
    requires
        state.admin is None,
    ensures
        state.init_result() == Ok::<(), Error>(()),
        state.after_init(first).init_result() == Err::<(), Error>(Error::AlreadyInitialized),
        state.after_init(first).after_init(second) == state.after_init(first),
        state.after_init(first).after_init(second).get_admin() == state.after_init(
            first,
        ).get_admin(),
{
}

/// After a successful `init` the account it was given is the admin and holds
/// the admin role.
pub proof fn init_installs_the_admin(state: State, admin: Seq<char>)
    requires
        state.admin is None,
    ensures
        state.after_init(admin).get_admin() == Ok::<Seq<char>, Error>(admin),
        state.after_init(admin).has_role(admin_role(), admin),
{
}

/// The admin record is written once: with an admin on record no operation
/// changes it, and no operation but `init` ever writes one.
pub proof fn admin_is_set_once(state: State, account: Seq<char>, role: Seq<char>)
    ensures
        state.admin is Some ==> state.after_init(account).admin == state.admin,
        state.after_grant_role(role, account).admin == state.admin,
        state.after_revoke_role(role, account).admin == state.admin,
        state.grant(role, account).admin == state.admin,
        state.revoke(role, account).admin == state.admin,
{
}

/// An account holds a role right after a `grant_role` that succeeded, and a
/// second `grant_role` of the same role to the same account is answered like
/// the first and changes nothing: not the grants, not the event log.
pub proof fn grant_role_is_idempotent(state: State, role: Seq<char>, account: Seq<char>)
    ensures
        state.require_admin() is Ok ==> state.after_grant_role(role, account).has_role(
            role,
            account,
        ),
        state.after_grant_role(role, account).require_admin() == state.require_admin(),
        state.after_grant_role(role, account).after_grant_role(role, account)
            == state.after_grant_role(role, account),
{
}

/// `revoke_role` of a role that the account does not hold changes nothing.
/// An account does not hold a role right after a `revoke_role` that
/// succeeded, and a second `revoke_role` of the same role from the same
/// account is answered like the first and changes nothing.
pub proof fn revoke_role_is_idempotent(state: State, role: Seq<char>, account: Seq<char>)
    ensures
        !state.has_role(role, account) ==> state.after_revoke_role(role, account) == state,
        state.require_admin() is Ok ==> !state.after_revoke_role(role, account).has_role(
            role,
            account,
        ),
        state.after_revoke_role(role, account).require_admin() == state.require_admin(),
        state.after_revoke_role(role, account).after_revoke_role(role, account)
            == state.after_revoke_role(role, account),
{
}

/// A change of the grants publishes exactly one event, and a call that
/// changes no grant publishes none.
pub proof fn one_event_per_change(state: State, role: Seq<char>, account: Seq<char>)
    ensures
        state.grant(role, account).events.len() == state.events.len() + (if state.has_role(
            role,
            account,
        ) {
            0int
        } else {
            1int
        }),
        state.revoke(role, account).events.len() == state.events.len() + (if state.has_role(
            role,
            account,
        ) {
            1int
        } else {
            0int
        }),
        state.grant(role, account).grants == state.grants ==> state.grant(role, account).events
            == state.events,
        state.revoke(role, account).grants == state.grants ==> state.revoke(
            role,
            account,
        ).events == state.events,
{
    if !state.has_role(role, account) {
        assert(state.grant(role, account).grants.contains((role, account)));
    } else {
        assert(!state.revoke(role, account).grants.contains((role, account)));
    }
}

/// With an admin on record that has not authorized the call, `grant_role`
/// and `revoke_role` are refused as `Unauthorized` and change nothing: every
/// account holds the roles it held.
pub proof fn unauthorized_calls_change_nothing(
    state: State,
    role: Seq<char>,
    account: Seq<char>,
    any_role: Seq<char>,
    any_account: Seq<char>,
)
    requires
        state.admin matches Some(admin) && !state.authorized.contains(admin),
    ensures
        state.require_admin() == Err::<(), Error>(Error::Unauthorized),
        state.after_grant_role(role, account) == state,
        state.after_revoke_role(role, account) == state,
        state.after_grant_role(role, account).has_role(any_role, any_account) == state.has_role(
            any_role,
            any_account,
        ),
        state.after_revoke_role(role, account).has_role(any_role, any_account) == state.has_role(
            any_role,
            any_account,
        ),
{
}

/// Before `init` there is no admin to give, and the admin guard lets nobody
/// pass: `get_admin`, `grant_role` and `revoke_role` answer
/// `NotInitialized`, whoever authorized the call, and change nothing.
pub proof fn calls_before_init_are_refused(state: State, role: Seq<char>, account: Seq<char>)
    requires
        state.admin is None,
    ensures
        state.get_admin() == Err::<Seq<char>, Error>(Error::NotInitialized),
        state.require_admin() == Err::<(), Error>(Error::NotInitialized),
        state.after_grant_role(role, account) == state,
        state.after_revoke_role(role, account) == state,
{
}

/// Granting or revoking one pair of role and account leaves every other
/// pair as it was: a role implies no other role, and an account stands for
/// no other account.
pub proof fn other_grants_are_untouched(
    state: State,
    role: Seq<char>,
    account: Seq<char>,
    other_role: Seq<char>,
    other_account: Seq<char>,
)
    requires
        other_role != role || other_account != account,
    ensures
        state.grant(role, account).has_role(other_role, other_account) == state.has_role(
            other_role,
            other_account,
        ),
        state.revoke(role, account).has_role(other_role, other_account) == state.has_role(
            other_role,
            other_account,
        ),
{
}

/// A refused operation changes nothing, whatever the reason.
pub proof fn refused_calls_change_nothing(state: State, role: Seq<char>, account: Seq<char>)
    ensures
        state.init_result() is Err ==> state.after_init(account) == state,
        state.require_admin() is Err ==> state.after_grant_role(role, account) == state,
        state.require_admin() is Err ==> state.after_revoke_role(role, account) == state,
{
}

} // verus!
