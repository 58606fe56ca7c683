//! Profiles: reading an account, changing its profile, deleting it.

use vstd::prelude::*;
use crate::database::{Database, DatabaseView};
use crate::error::{failure, outcome, AppError, ErrorKind, Failure};
use crate::models::{User, UserUpdate, UserUpdateView, UserView};
use crate::primitives::{clock_reading, current_timestamp};

verus! {

/// The failure reported when no account has the id asked for.
pub open spec fn user_not_found_failure() -> Failure {
    failure(ErrorKind::NotFound, "User not found"@)
}

/// The snapshot of the account with this id, or the failure to find it.
pub open spec fn profile_of(db: DatabaseView, user_id: i64) -> Result<UserView, Failure> {
    match db.store.by_id(user_id) {
        Some(user) => Ok(user.snapshot()),
        None => Err(user_not_found_failure()),
    }
}

/// A change to a profile: the state afterwards and the result, where the clock read
/// `now`.
pub open spec fn update_profile_outcome(
    db: DatabaseView,
    user_id: i64,
    update: UserUpdateView,
    now: i64,
) -> (DatabaseView, Result<UserView, Failure>) {
    let after = DatabaseView { store: db.store.with_update(user_id, update, now), ..db };
    (after, profile_of(after, user_id))
}

/// The deletion of an account: the state afterwards. The account goes, and with it every
/// refresh token and reset token that belongs to it.
pub open spec fn delete_account_outcome(db: DatabaseView, user_id: i64) -> DatabaseView {
    DatabaseView {
        store: db.store.without_user(user_id),
        ledger: db.ledger.without_user(user_id),
        ..db
    }
}

/// The snapshot of the account with this id, active or not.
pub fn get_user_profile(db: &Database, user_id: i64) -> (r: Result<User, AppError>)
    ensures
        outcome(r) == profile_of(db@, user_id),
{
    match db.store.find_by_id(user_id) {
        Some(record) => Ok(record.snapshot()),
        None => Err(AppError::NotFound(String::from_str("User not found"))),
    }
}

/// Changes a profile at the instant `now` and gives the snapshot afterwards.
pub fn update_user_profile_at(
    db: &mut Database,
    user_id: i64,
    update_data: UserUpdate,
    now: i64,
) -> (r: Result<User, AppError>)
    ensures
        update_profile_outcome(old(db)@, user_id, update_data@, now) == (final(db)@, outcome(r)),
{
    db.store.update(user_id, update_data, now);
    get_user_profile(db, user_id)
}

/// Changes a profile: each field that the change names replaces the stored one, and the
/// account then counts as updated now. Gives the snapshot afterwards.
pub fn update_user_profile(db: &mut Database, user_id: i64, update_data: UserUpdate) -> (r: Result<
    User,
    AppError,
>)
    ensures
        exists|now: i64|
            clock_reading(now) && #[trigger] update_profile_outcome(
                old(db)@,
                user_id,
                update_data@,
                now,
            ) == (
                final(db)@,
                outcome(r),
            ),
{
    let now = current_timestamp();
    update_user_profile_at(db, user_id, update_data, now)
}

/// Deletes an account and every token that belongs to it. An id without an account is
/// no failure.
pub fn delete_user_account(db: &mut Database, user_id: i64) -> (r: Result<(), AppError>)
    ensures
        r is Ok,
        final(db)@ == delete_account_outcome(old(db)@, user_id),
{
    db.store.remove(user_id);
    db.ledger.remove_user(user_id);
    Ok(())
}

} // verus!
