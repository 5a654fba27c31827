//! The registry's operations: the five entry points on [`AccessControl`],
//! the two guards, and the ungated helpers that the entry points are made of.

use vstd::prelude::*;
use crate::error::Error;
use crate::event::{Event, RoleGranted, RoleRevoked};
use crate::host::Host;
use crate::ident::{Account, Role, ADMIN};
use crate::key::DataKey;

verus! {

/// The access-control registry. It has no state of its own: the admin record
/// and the grants live in the store of the [`Host`] that each call is given.
pub struct AccessControl;

impl AccessControl {
    /// Records `admin` as the super admin and gives it the admin role.
    ///
    /// Succeeds exactly once per store: with an admin on record the call is
    /// refused as [`Error::AlreadyInitialized`] and changes nothing.
    pub fn init(host: &mut Host, admin: Account) -> (result: Result<(), Error>)
        ensures
            result == old(host)@.init_result(),
            final(host)@ == old(host)@.after_init(admin@),
    {
        if host.has(&DataKey::Admin) {
            return Err(Error::AlreadyInitialized);
        }
        host.set_admin(admin.clone());
        internal_grant_role(host, Role::new(ADMIN), admin);
        Ok(())
    }

    /// Gives `role` to `account`, if the admin authorized the call.
    ///
    /// Refused as [`Error::NotInitialized`] without an admin on record and as
    /// [`Error::Unauthorized`] without the admin's authorization; a refused
    /// call changes nothing.
    pub fn grant_role(host: &mut Host, role: Role, account: Account) -> (result: Result<
        (),
        Error,
    >)
        ensures
            result == old(host)@.require_admin(),
            final(host)@ == old(host)@.after_grant_role(role@, account@),
    {
        match require_admin(host) {
            Err(error) => Err(error),
            Ok(()) => {
                internal_grant_role(host, role, account);
                Ok(())
            },
        }
    }

    /// Takes `role` from `account`, if the admin authorized the call.
    ///
    /// Refused as [`Error::NotInitialized`] without an admin on record and as
    /// [`Error::Unauthorized`] without the admin's authorization; a refused
    /// call changes nothing.
    pub fn revoke_role(host: &mut Host, role: Role, account: Account) -> (result: Result<
        (),
        Error,
    >)
        ensures
            result == old(host)@.require_admin(),
            final(host)@ == old(host)@.after_revoke_role(role@, account@),
    {
        match require_admin(host) {
            Err(error) => Err(error),
            Ok(()) => {
                internal_revoke_role(host, role, account);
                Ok(())
            },
        }
    }

    /// Whether `account` holds `role`. Anyone may ask.
    pub fn has_role(host: &Host, role: Role, account: Account) -> (held: bool)
        ensures
            held == host@.has_role(role@, account@),
    {
        internal_has_role(host, role, account)
    }

    /// The super admin. Anyone may ask; before `init` the answer is
    /// [`Error::NotInitialized`].
    pub fn get_admin(host: &Host) -> (result: Result<Account, Error>)
        ensures
            match result {
                Ok(admin) => host@.get_admin() == Ok::<Seq<char>, Error>(admin@),
                Err(error) => host@.get_admin() == Err::<Seq<char>, Error>(error),
            },
    {
        match host.admin() {
            Some(admin) => Ok(admin.clone()),
            None => Err(Error::NotInitialized),
        }
    }
}

/// The admin guard: passes if an admin is on record and has authorized the
/// call in progress.
///
/// The record is read first, so without one the verdict is
/// [`Error::NotInitialized`] whoever authorized the call; with one, a call
/// that the admin did not authorize is [`Error::Unauthorized`].
pub fn require_admin(host: &Host) -> (result: Result<(), Error>)
    ensures
        result == host@.require_admin(),
{
    match host.admin() {
        None => Err(Error::NotInitialized),
        Some(admin) => if host.is_authorized(admin) {
            Ok(())
        } else {
            Err(Error::Unauthorized)
        },
    }
}

/// The role guard: passes if `account` holds `role`, else
/// [`Error::MissingRole`].
///
/// It does not ask who authorized the call: `account` may be anyone, and a
/// caller that means "the caller holds `role`" has to check the caller's
/// authorization itself.
pub fn require_role(host: &Host, role: Role, account: Account) -> (result: Result<(), Error>)
    ensures
        result == host@.require_role(role@, account@),
{
    if !internal_has_role(host, role, account) {
        return Err(Error::MissingRole);
    }
    Ok(())
}

/// Gives `role` to `account` without asking who calls.
///
/// If the account holds the role already, nothing is stored and nothing is
/// published; else the grant is stored and one [`RoleGranted`] is published.
pub fn internal_grant_role(host: &mut Host, role: Role, account: Account)
    ensures
        final(host)@ == old(host)@.grant(role@, account@),
{
    let key = DataKey::Role(role.clone(), account.clone());
    if !host.has(&key) {
        host.set_role(role.clone(), account.clone());
        host.publish(Event::Granted(RoleGranted { role, account }));
    }
}

/// Takes `role` from `account` without asking who calls.
///
/// If the account holds the role, the grant is deleted and one
/// [`RoleRevoked`] is published; else nothing is deleted and nothing is
/// published.
pub fn internal_revoke_role(host: &mut Host, role: Role, account: Account)
    ensures
        final(host)@ == old(host)@.revoke(role@, account@),
{
    let key = DataKey::Role(role.clone(), account.clone());
    if host.has(&key) {
        host.remove(&key);
        host.publish(Event::Revoked(RoleRevoked { role, account }));
    }
}

/// Whether the store holds the grant of `role` to `account`.
pub fn internal_has_role(host: &Host, role: Role, account: Account) -> (held: bool)
    ensures
        held == host@.has_role(role@, account@),
{
    host.has(&DataKey::Role(role, account))
}

} // verus!
