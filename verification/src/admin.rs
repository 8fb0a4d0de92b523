use vstd::prelude::*;

use crate::address::{duplicate_opt, opt_view, Address};
use crate::errors::CreditsError;
use crate::storage::Storage;

verus! {

/// The stored administrator, if one was written.
pub fn read_administrator(s: &Storage) -> (r: Option<Address>)
    ensures
        opt_view(r) == s@.admin,
{
    duplicate_opt(&s.admin)
}

pub fn write_administrator(s: &mut Storage, admin: &Address)
    ensures
        final(s)@ == old(s)@.with_admin(admin@),
{
    s.admin = Some(admin.duplicate());
}

/// The administrator whose authorization an admin-only operation needs;
/// it fails when no administrator was ever written.
pub fn check_admin(s: &Storage) -> (r: Result<Address, CreditsError>)
    ensures
        match r {
            Ok(a) => s@.admin == Some(a@),
            Err(e) => s@.admin is None && e == CreditsError::AdminNotSet,
        },
{
    match &s.admin {
        Some(a) => Ok(a.duplicate()),
        None => Err(CreditsError::AdminNotSet),
    }
}

} // verus!
