//! Role-based access control for a ledger-resident program.
//!
//! One super admin, set once, and an open-ended set of `(role, account)`
//! grants. Mutating operations are gated on the admin's authorization, are
//! idempotent, and announce every actual change with an event.

pub mod control;
pub mod error;
pub mod event;
mod grants;
pub mod history;
pub mod host;
pub mod ident;
pub mod key;
pub mod laws;
pub mod model;

pub use control::{
    internal_grant_role, internal_has_role, internal_revoke_role, require_admin, require_role,
    AccessControl,
};
pub use error::Error;
pub use event::{Event, EventView, RoleGranted, RoleRevoked};
pub use host::Host;
pub use ident::{Account, Role, ADMIN, GAME, OPERATOR, PAUSER};
pub use key::{DataKey, KeyView};
pub use model::State;
