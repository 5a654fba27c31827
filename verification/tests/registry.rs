use access_control::{
    internal_grant_role, internal_has_role, internal_revoke_role, require_admin, require_role,
    AccessControl, Account, Error, Event, Host, Role, RoleGranted, RoleRevoked, ADMIN, GAME,
    OPERATOR, PAUSER,
};

const ADMIN_ADDRESS: &str = "GBQKHW4XJ3KEXHCMVLQ2IBY4ZJ7RDGYH6NR2U2XEYLM5ZCCRWDB3ADMN";
const USER_ADDRESS: &str = "GCJ6EF2XUORWBZ3DPMEAC2VQQTTUFYOUSER5TNW3D4QWZ7HBPL5FX2PA";
const OTHER_ADDRESS: &str = "GDLK7CS2VAKQ3NONADMIN4DS6LOHQ6XRTI5TWZTBCHZWNB4MXY3FJ2QE";

fn admin() -> Account {
    Account::new(ADMIN_ADDRESS)
}

fn user() -> Account {
    Account::new(USER_ADDRESS)
}

fn non_admin() -> Account {
    Account::new(OTHER_ADDRESS)
}

fn operator() -> Role {
    Role::new(OPERATOR)
}

fn granted(role: &str, account: &Account) -> Event {
    Event::Granted(RoleGranted { role: Role::new(role), account: account.clone() })
}

fn revoked(role: &str, account: &Account) -> Event {
    Event::Revoked(RoleRevoked { role: Role::new(role), account: account.clone() })
}

/// A host whose admin is on record and has authorized the call in progress.
fn ready() -> Host {
    let mut host = Host::new();
    host.authorize(admin());
    AccessControl::init(&mut host, admin()).unwrap();
    host
}

#[test]
fn test_init_and_has_role() {
    let mut host = Host::new();
    let admin = admin();
    host.authorize(admin.clone());

    AccessControl::init(&mut host, admin.clone()).unwrap();

    assert_eq!(AccessControl::get_admin(&host), Ok(admin.clone()));
    assert!(AccessControl::has_role(&host, Role::new(ADMIN), admin));
}

#[test]
fn test_grant_and_revoke_role() {
    let mut host = Host::new();
    let admin = admin();
    let user = user();
    host.authorize(admin.clone());

    AccessControl::init(&mut host, admin).unwrap();

    AccessControl::grant_role(&mut host, Role::new(OPERATOR), user.clone()).unwrap();
    assert!(AccessControl::has_role(&host, Role::new(OPERATOR), user.clone()));

    assert!(AccessControl::has_role(&host, Role::new(OPERATOR), user.clone()));

    AccessControl::revoke_role(&mut host, Role::new(OPERATOR), user.clone()).unwrap();
    assert!(!AccessControl::has_role(&host, Role::new(OPERATOR), user));
}

#[test]
#[should_panic(expected = "Already initialized")]
fn test_already_initialized() {
    let mut host = Host::new();
    let admin = admin();

    AccessControl::init(&mut host, admin.clone()).unwrap();
    if let Err(error) = AccessControl::init(&mut host, admin) {
        panic!("{}", error.message());
    }
}

#[test]
fn test_non_admin_cannot_grant_role() {
    let mut host = Host::new();
    let admin = admin();
    let non_admin = non_admin();
    let user = user();

    AccessControl::init(&mut host, admin).unwrap();

    host.authorize(non_admin);

    let result = AccessControl::grant_role(&mut host, Role::new(OPERATOR), user);
    assert!(result.is_err());
}

#[test]
fn test_duplicate_grant_revoke() {
    let mut host = Host::new();
    let admin = admin();
    let user = user();
    host.authorize(admin.clone());

    AccessControl::init(&mut host, admin).unwrap();

    AccessControl::grant_role(&mut host, Role::new(OPERATOR), user.clone()).unwrap();
    assert!(AccessControl::has_role(&host, Role::new(OPERATOR), user.clone()));
    AccessControl::grant_role(&mut host, Role::new(OPERATOR), user.clone()).unwrap();
    assert!(AccessControl::has_role(&host, Role::new(OPERATOR), user.clone()));

    AccessControl::revoke_role(&mut host, Role::new(OPERATOR), user.clone()).unwrap();
    assert!(!AccessControl::has_role(&host, Role::new(OPERATOR), user.clone()));
    AccessControl::revoke_role(&mut host, Role::new(OPERATOR), user.clone()).unwrap();
    assert!(!AccessControl::has_role(&host, Role::new(OPERATOR), user));
}

#[test]
fn init_succeeds_on_a_fresh_host_for_any_account() {
    for address in [ADMIN_ADDRESS, USER_ADDRESS, OTHER_ADDRESS, "", "x"] {
        let mut host = Host::new();
        assert_eq!(AccessControl::init(&mut host, Account::new(address)), Ok(()));
        assert_eq!(AccessControl::get_admin(&host), Ok(Account::new(address)));
        assert!(AccessControl::has_role(&host, Role::new(ADMIN), Account::new(address)));
    }
}

#[test]
fn init_needs_no_authorization() {
    let mut host = Host::new();
    assert!(!host.is_authorized(&admin()));
    assert_eq!(AccessControl::init(&mut host, admin()), Ok(()));
}

#[test]
fn init_publishes_the_grant_of_the_admin_role() {
    let mut host = Host::new();
    AccessControl::init(&mut host, admin()).unwrap();
    assert_eq!(host.events().len(), 1);
    assert_eq!(host.events()[0], granted("ADMIN", &admin()));
}

#[test]
fn second_init_is_refused_and_changes_nothing() {
    let mut host = ready();
    let events = host.events().len();

    assert_eq!(AccessControl::init(&mut host, user()), Err(Error::AlreadyInitialized));
    assert_eq!(AccessControl::init(&mut host, admin()), Err(Error::AlreadyInitialized));

    assert_eq!(AccessControl::get_admin(&host), Ok(admin()));
    assert!(!AccessControl::has_role(&host, Role::new(ADMIN), user()));
    assert!(AccessControl::has_role(&host, Role::new(ADMIN), admin()));
    assert_eq!(host.events().len(), events);
}

#[test]
fn init_of_an_account_that_holds_the_admin_role_publishes_nothing() {
    let mut host = Host::new();
    internal_grant_role(&mut host, Role::new(ADMIN), admin());
    assert_eq!(host.events().len(), 1);

    assert_eq!(AccessControl::init(&mut host, admin()), Ok(()));

    assert_eq!(AccessControl::get_admin(&host), Ok(admin()));
    assert!(AccessControl::has_role(&host, Role::new(ADMIN), admin()));
    assert_eq!(host.events().len(), 1);
}

#[test]
fn get_admin_before_init_is_not_initialized() {
    let host = Host::new();
    assert_eq!(AccessControl::get_admin(&host), Err(Error::NotInitialized));
}

#[test]
fn get_admin_needs_no_authorization() {
    let mut host = ready();
    host.clear_authorizations();
    assert_eq!(AccessControl::get_admin(&host), Ok(admin()));
}

#[test]
fn grant_then_has_role() {
    let mut host = ready();
    assert!(!AccessControl::has_role(&host, operator(), user()));
    assert_eq!(AccessControl::grant_role(&mut host, operator(), user()), Ok(()));
    assert!(AccessControl::has_role(&host, operator(), user()));
}

#[test]
fn second_grant_changes_neither_grants_nor_events() {
    let mut host = ready();
    AccessControl::grant_role(&mut host, operator(), user()).unwrap();
    assert_eq!(host.events().len(), 2);
    assert_eq!(host.events()[1], granted("OPERATOR", &user()));

    assert_eq!(AccessControl::grant_role(&mut host, operator(), user()), Ok(()));

    assert!(AccessControl::has_role(&host, operator(), user()));
    assert_eq!(host.events().len(), 2);
}

#[test]
fn revoke_without_grant_is_a_no_op() {
    let mut host = ready();
    assert_eq!(AccessControl::revoke_role(&mut host, operator(), user()), Ok(()));
    assert!(!AccessControl::has_role(&host, operator(), user()));
    assert_eq!(host.events().len(), 1);
}

#[test]
fn revoke_after_grant_removes_the_role_and_publishes_once() {
    let mut host = ready();
    AccessControl::grant_role(&mut host, operator(), user()).unwrap();

    assert_eq!(AccessControl::revoke_role(&mut host, operator(), user()), Ok(()));
    assert!(!AccessControl::has_role(&host, operator(), user()));
    assert_eq!(host.events().len(), 3);
    assert_eq!(host.events()[2], revoked("OPERATOR", &user()));

    assert_eq!(AccessControl::revoke_role(&mut host, operator(), user()), Ok(()));
    assert!(!AccessControl::has_role(&host, operator(), user()));
    assert_eq!(host.events().len(), 3);
}

#[test]
fn a_revoked_role_can_be_granted_again() {
    let mut host = ready();
    AccessControl::grant_role(&mut host, operator(), user()).unwrap();
    AccessControl::revoke_role(&mut host, operator(), user()).unwrap();
    AccessControl::grant_role(&mut host, operator(), user()).unwrap();
    assert!(AccessControl::has_role(&host, operator(), user()));
    assert_eq!(
        host.events().clone(),
        vec![
            granted("ADMIN", &admin()),
            granted("OPERATOR", &user()),
            revoked("OPERATOR", &user()),
            granted("OPERATOR", &user()),
        ]
    );
}

#[test]
fn grant_and_revoke_before_init_are_not_initialized() {
    let mut host = Host::new();
    host.authorize(admin());
    assert_eq!(
        AccessControl::grant_role(&mut host, operator(), user()),
        Err(Error::NotInitialized)
    );
    assert_eq!(
        AccessControl::revoke_role(&mut host, operator(), user()),
        Err(Error::NotInitialized)
    );
    assert!(!AccessControl::has_role(&host, operator(), user()));
    assert_eq!(host.events().len(), 0);
}

#[test]
fn grant_without_authorization_is_unauthorized_and_changes_nothing() {
    let mut host = ready();
    host.clear_authorizations();

    assert_eq!(AccessControl::grant_role(&mut host, operator(), user()), Err(Error::Unauthorized));

    assert!(!AccessControl::has_role(&host, operator(), user()));
    assert_eq!(host.events().len(), 1);
}

#[test]
fn revoke_by_a_non_admin_is_unauthorized_and_changes_nothing() {
    let mut host = ready();
    AccessControl::grant_role(&mut host, operator(), user()).unwrap();
    host.clear_authorizations();
    host.authorize(non_admin());
    host.authorize(user());

    assert_eq!(
        AccessControl::revoke_role(&mut host, operator(), user()),
        Err(Error::Unauthorized)
    );

    assert!(AccessControl::has_role(&host, operator(), user()));
    assert_eq!(host.events().len(), 2);
}

#[test]
fn holding_the_admin_role_does_not_make_an_admin() {
    let mut host = ready();
    AccessControl::grant_role(&mut host, Role::new(ADMIN), user()).unwrap();
    assert!(AccessControl::has_role(&host, Role::new(ADMIN), user()));
    host.clear_authorizations();
    host.authorize(user());

    assert_eq!(AccessControl::grant_role(&mut host, operator(), user()), Err(Error::Unauthorized));
    assert_eq!(AccessControl::get_admin(&host), Ok(admin()));
}

#[test]
fn the_admin_stays_admin_without_the_admin_role() {
    let mut host = ready();
    AccessControl::revoke_role(&mut host, Role::new(ADMIN), admin()).unwrap();
    assert!(!AccessControl::has_role(&host, Role::new(ADMIN), admin()));

    assert_eq!(AccessControl::get_admin(&host), Ok(admin()));
    assert_eq!(AccessControl::grant_role(&mut host, operator(), user()), Ok(()));
}

#[test]
fn roles_and_accounts_are_told_apart_exactly() {
    let mut host = ready();
    AccessControl::grant_role(&mut host, operator(), user()).unwrap();

    assert!(!AccessControl::has_role(&host, Role::new(PAUSER), user()));
    assert!(!AccessControl::has_role(&host, Role::new(GAME), user()));
    assert!(!AccessControl::has_role(&host, Role::new("operator"), user()));
    assert!(!AccessControl::has_role(&host, Role::new("OPERATO"), user()));
    assert!(!AccessControl::has_role(&host, operator(), non_admin()));
    assert!(!AccessControl::has_role(&host, operator(), admin()));

    AccessControl::revoke_role(&mut host, Role::new(PAUSER), user()).unwrap();
    AccessControl::revoke_role(&mut host, operator(), non_admin()).unwrap();
    assert!(AccessControl::has_role(&host, operator(), user()));
}

#[test]
fn custom_roles_work_like_predefined_ones() {
    let mut host = ready();
    let auditor = Role::new("AUDITOR_2");
    AccessControl::grant_role(&mut host, auditor.clone(), user()).unwrap();
    assert!(AccessControl::has_role(&host, auditor.clone(), user()));
    AccessControl::revoke_role(&mut host, auditor.clone(), user()).unwrap();
    assert!(!AccessControl::has_role(&host, auditor, user()));
}

#[test]
fn require_admin_reads_the_record_before_the_authorization() {
    let mut host = Host::new();
    assert_eq!(require_admin(&host), Err(Error::NotInitialized));
    host.authorize(admin());
    assert_eq!(require_admin(&host), Err(Error::NotInitialized));

    AccessControl::init(&mut host, admin()).unwrap();
    assert_eq!(require_admin(&host), Ok(()));

    host.clear_authorizations();
    assert_eq!(require_admin(&host), Err(Error::Unauthorized));
    host.authorize(user());
    assert_eq!(require_admin(&host), Err(Error::Unauthorized));
    host.authorize(admin());
    assert_eq!(require_admin(&host), Ok(()));
}

#[test]
fn require_role_checks_membership_only() {
    let mut host = ready();
    AccessControl::grant_role(&mut host, operator(), user()).unwrap();
    host.clear_authorizations();

    assert_eq!(require_role(&host, operator(), user()), Ok(()));
    assert_eq!(require_role(&host, Role::new(PAUSER), user()), Err(Error::MissingRole));
    assert_eq!(require_role(&host, operator(), non_admin()), Err(Error::MissingRole));
    assert_eq!(require_role(&host, Role::new(ADMIN), admin()), Ok(()));
}

#[test]
fn internal_helpers_ask_nobody() {
    let mut host = Host::new();
    assert!(!internal_has_role(&host, operator(), user()));

    internal_grant_role(&mut host, operator(), user());
    assert!(internal_has_role(&host, operator(), user()));
    assert_eq!(host.events().clone(), vec![granted("OPERATOR", &user())]);

    internal_grant_role(&mut host, operator(), user());
    assert_eq!(host.events().len(), 1);

    internal_revoke_role(&mut host, operator(), user());
    assert!(!internal_has_role(&host, operator(), user()));
    assert_eq!(
        host.events().clone(),
        vec![granted("OPERATOR", &user()), revoked("OPERATOR", &user())]
    );

    internal_revoke_role(&mut host, operator(), user());
    assert_eq!(host.events().len(), 2);
    assert_eq!(AccessControl::get_admin(&host), Err(Error::NotInitialized));
}

#[test]
fn full_scenario() {
    let mut host = Host::new();
    let a = admin();
    let u = user();
    let n = non_admin();

    assert_eq!(AccessControl::init(&mut host, a.clone()), Ok(()));
    host.authorize(a.clone());

    assert_eq!(AccessControl::grant_role(&mut host, operator(), u.clone()), Ok(()));
    assert_eq!(AccessControl::grant_role(&mut host, operator(), u.clone()), Ok(()));
    assert!(AccessControl::has_role(&host, operator(), u.clone()));

    assert_eq!(AccessControl::revoke_role(&mut host, operator(), u.clone()), Ok(()));
    assert_eq!(AccessControl::revoke_role(&mut host, operator(), u.clone()), Ok(()));
    assert!(!AccessControl::has_role(&host, operator(), u.clone()));

    host.clear_authorizations();
    host.authorize(n);
    assert_eq!(
        AccessControl::grant_role(&mut host, operator(), u.clone()),
        Err(Error::Unauthorized)
    );
    assert!(!AccessControl::has_role(&host, operator(), u.clone()));

    assert_eq!(
        host.events().clone(),
        vec![granted("ADMIN", &a), granted("OPERATOR", &u), revoked("OPERATOR", &u)]
    );
}

/// The pairs whose latest event in `events` is a grant.
fn told_by(events: &[Event]) -> Vec<(Role, Account)> {
    let mut held: Vec<(Role, Account)> = Vec::new();
    for event in events {
        match event {
            Event::Granted(granted) => {
                held.retain(|(r, a)| !(*r == granted.role && *a == granted.account));
                held.push((granted.role.clone(), granted.account.clone()));
            }
            Event::Revoked(revoked) => {
                held.retain(|(r, a)| !(*r == revoked.role && *a == revoked.account));
            }
        }
    }
    held
}

#[test]
fn the_event_log_tells_the_grants() {
    let mut host = Host::new();
    let accounts = [admin(), user(), non_admin()];
    let roles = [ADMIN, OPERATOR, PAUSER, GAME];

    AccessControl::grant_role(&mut host, operator(), user()).unwrap_err();
    AccessControl::init(&mut host, admin()).unwrap();
    AccessControl::grant_role(&mut host, operator(), user()).unwrap_err();
    host.authorize(admin());
    AccessControl::grant_role(&mut host, operator(), user()).unwrap();
    AccessControl::grant_role(&mut host, Role::new(PAUSER), user()).unwrap();
    AccessControl::grant_role(&mut host, operator(), user()).unwrap();
    AccessControl::revoke_role(&mut host, Role::new(GAME), user()).unwrap();
    AccessControl::revoke_role(&mut host, operator(), user()).unwrap();
    AccessControl::grant_role(&mut host, Role::new(GAME), non_admin()).unwrap();
    AccessControl::revoke_role(&mut host, Role::new(ADMIN), admin()).unwrap();
    AccessControl::grant_role(&mut host, operator(), user()).unwrap();
    host.clear_authorizations();
    AccessControl::revoke_role(&mut host, operator(), user()).unwrap_err();
    AccessControl::init(&mut host, user()).unwrap_err();

    let told = told_by(host.events());
    assert_eq!(told.len(), 3);
    for role in roles {
        for account in &accounts {
            let expected = told.contains(&(Role::new(role), account.clone()));
            assert_eq!(
                AccessControl::has_role(&host, Role::new(role), account.clone()),
                expected
            );
        }
    }
    assert_eq!(host.events().len(), 7);
}

#[test]
fn the_admin_survives_every_later_call() {
    let mut host = ready();
    AccessControl::grant_role(&mut host, Role::new(ADMIN), user()).unwrap();
    AccessControl::revoke_role(&mut host, Role::new(ADMIN), admin()).unwrap();
    AccessControl::init(&mut host, user()).unwrap_err();
    host.clear_authorizations();
    host.authorize(user());
    AccessControl::grant_role(&mut host, operator(), user()).unwrap_err();
    AccessControl::revoke_role(&mut host, operator(), user()).unwrap_err();
    assert_eq!(AccessControl::get_admin(&host), Ok(admin()));
}

#[test]
fn nothing_happens_before_init() {
    let mut host = Host::new();
    for account in [admin(), user(), non_admin()] {
        host.authorize(account.clone());
        assert_eq!(
            AccessControl::grant_role(&mut host, operator(), account.clone()),
            Err(Error::NotInitialized)
        );
        assert_eq!(
            AccessControl::revoke_role(&mut host, operator(), account.clone()),
            Err(Error::NotInitialized)
        );
        assert!(!AccessControl::has_role(&host, operator(), account));
    }
    assert_eq!(AccessControl::get_admin(&host), Err(Error::NotInitialized));
    assert!(host.events().is_empty());
}
