//! What holds of the service across calls, proved over the model functions that the
//! operations' contracts are stated with.

use vstd::prelude::*;
use crate::auth::{
    forgot_password_outcome, invalid_credentials_failure, invalid_reset_token_failure,
    login_outcome, logout_outcome, refresh_outcome, register_outcome, registration_failure,
    reset_password_outcome, rotation_outcome, verification_result,
};
use crate::database::DatabaseView;
use crate::error::{ErrorKind, Failure};
use crate::ledger::{
    consumption, live_refresh_token, other_refresh_token, refresh_token_is,
    reset_token_of_other, session_of_other, unused_reset_token, usable_reset_token,
};
use crate::models::{
    AuthResponseView, LoginRequestView, UserCreateView, UserUpdateView, UserView,
};
use crate::primitives::bcrypt_verdict;
use crate::search::{
    first_index, has_match, is_first_match, lemma_first_index, lemma_first_index_is,
};
use crate::store::{
    email_taken_failure, lemma_insert_keeps_wf, lemma_remove_keeps_wf,
    lemma_set_password_keeps_wf, lemma_update_keeps_wf, with_email, with_id,
};
use crate::token::{invalid_token_failure, session_tokens, token_subject};
use crate::users::{delete_account_outcome, update_profile_outcome};

verus! {

/// Registering the same email twice: where the first registration succeeds, a second one
/// with that email is refused as a conflict and changes nothing, whatever else it asks
/// for.
pub proof fn register_twice_conflicts(
    db: DatabaseView,
    first: UserCreateView,
    first_hashed: Result<Seq<char>, Seq<char>>,
    first_now: i64,
    second: UserCreateView,
    second_hashed: Result<Seq<char>, Seq<char>>,
    second_now: i64,
)
    requires
        register_outcome(db, first, first_hashed, first_now).1 is Ok,
        second.email == first.email,
    ensures
        register_outcome(
            register_outcome(db, first, first_hashed, first_now).0,
            second,
            second_hashed,
            second_now,
        ) == (
            register_outcome(db, first, first_hashed, first_now).0,
            Err::<UserView, Failure>(email_taken_failure()),
        ),
{
    let after = register_outcome(db, first, first_hashed, first_now).0;
    let added = db.store.users.len() as int;
    assert(with_email(first.email)(after.store.users[added]));
}

/// A registration succeeds exactly where the email has the right shape and is not taken,
/// an id is left and the password could be hashed.
pub proof fn registration_succeeds_when_owed(
    db: DatabaseView,
    data: UserCreateView,
    hashed: Result<Seq<char>, Seq<char>>,
    now: i64,
)
    ensures
        register_outcome(db, data, hashed, now).1 is Ok <==> registration_failure(db, data)
            is None && hashed is Ok,
{
}

/// Login with an unknown email and login with a wrong password fail alike: the same kind
/// of failure with the same message, and neither changes the state.
pub proof fn login_failures_are_indistinguishable(
    db: DatabaseView,
    unknown: LoginRequestView,
    unknown_now: i64,
    wrong: LoginRequestView,
    wrong_now: i64,
)
    requires
        !db.store.has_email(unknown.email),
        db.store.active_by_email(wrong.email) matches Some(user) && bcrypt_verdict(
            wrong.password,
            user.password_hash,
        ) == Ok::<bool, Seq<char>>(false),
    ensures
        login_outcome(db, unknown, unknown_now) == (
            db,
            Err::<AuthResponseView, Failure>(invalid_credentials_failure()),
        ),
        login_outcome(db, wrong, wrong_now) == (
            db,
            Err::<AuthResponseView, Failure>(invalid_credentials_failure()),
        ),
        login_outcome(db, unknown, unknown_now).1 == login_outcome(db, wrong, wrong_now).1,
{
}

/// A registered account can log in: after a successful registration, a login with the
/// same email and password gets past the credential check. It succeeds where the two
/// tokens can be issued, and the session is then that of the registered account.
pub proof fn registered_account_can_log_in(
    db: DatabaseView,
    data: UserCreateView,
    hash: Seq<char>,
    registered_at: i64,
    now: i64,
)
    requires
        register_outcome(db, data, Ok(hash), registered_at).1 is Ok,
        bcrypt_verdict(data.password, hash) == Ok::<bool, Seq<char>>(true),
    ensures
        ({
            let after = register_outcome(db, data, Ok(hash), registered_at).0;
            let request = LoginRequestView { email: data.email, password: data.password };
            let login = login_outcome(after, request, now).1;
            &&& login is Ok <==> session_tokens(db.store.next_id, now, db.secret) is Ok
            &&& login matches Ok(response) ==> response.user == register_outcome(
                db,
                data,
                Ok(hash),
                registered_at,
            ).1->Ok_0
            &&& login matches Err(f) ==> f.kind == ErrorKind::Internal
        }),
{
    let after = register_outcome(db, data, Ok(hash), registered_at).0;
    let added = db.store.users.len() as int;
    assert(!db.store.has_email(data.email));
    assert(is_first_match(after.store.users, with_email(data.email), added));
    lemma_first_index_is(after.store.users, with_email(data.email), added);
}

/// Rotation invalidates the token it replaces: after a refresh that succeeded and handed
/// out another refresh token, the old token is no longer in the ledger, and a refresh
/// with it fails as an authentication failure and changes nothing, whatever its signature
/// says and whatever the clock reads.
pub proof fn superseded_refresh_token_fails(
    db: DatabaseView,
    old_token: Seq<char>,
    user_id: i64,
    now: i64,
    verified: Result<i64, Failure>,
    later: i64,
)
    requires
        rotation_outcome(db, old_token, user_id, now).1 matches Ok(response)
            && response.refresh_token != old_token,
        verification_result(old_token, db.secret, verified),
    ensures
        ({
            let after = rotation_outcome(db, old_token, user_id, now).0;
            let again = refresh_outcome(after, old_token, verified, later);
            &&& !after.ledger.holds_refresh_token(old_token)
            &&& again.0 == after
            &&& again.1 matches Err(f) && f.kind == ErrorKind::Auth
            &&& verified is Ok ==> again.1 == Err::<AuthResponseView, Failure>(
                invalid_token_failure(),
            )
        }),
{
    let after = rotation_outcome(db, old_token, user_id, now).0;
    lemma_token_not_held_is_not_live(after, old_token, later);
}

/// A token that the ledger does not hold is not live at any instant.
proof fn lemma_token_not_held_is_not_live(db: DatabaseView, token: Seq<char>, now: i64)
    requires
        !db.ledger.holds_refresh_token(token),
    ensures
        !db.ledger.has_live_refresh_token(token, now),
{
    if db.ledger.has_live_refresh_token(token, now) {
        let i = choose|i: int|
            0 <= i < db.ledger.refresh_tokens.len() && live_refresh_token(token, now)(
                #[trigger] db.ledger.refresh_tokens[i],
            );
        assert(refresh_token_is(token)(db.ledger.refresh_tokens[i]));
    }
}

/// A refresh token that the ledger does not hold is refused: the refresh fails as an
/// authentication failure and changes nothing.
pub proof fn unknown_refresh_token_fails(
    db: DatabaseView,
    token: Seq<char>,
    verified: Result<i64, Failure>,
    now: i64,
)
    requires
        !db.ledger.holds_refresh_token(token),
        verification_result(token, db.secret, verified),
    ensures
        refresh_outcome(db, token, verified, now).0 == db,
        refresh_outcome(db, token, verified, now).1 matches Err(f) && f.kind == ErrorKind::Auth,
{
    lemma_token_not_held_is_not_live(db, token, now);
}

/// Logout revokes: after a logout the ledger no longer holds the token, so a refresh with
/// it is refused. Logging out a second time changes nothing.
pub proof fn logout_revokes_refresh_token(db: DatabaseView, token: Seq<char>)
    ensures
        !logout_outcome(db, token).ledger.holds_refresh_token(token),
        logout_outcome(logout_outcome(db, token), token) == logout_outcome(db, token),
{
    let before = db.ledger.refresh_tokens;
    let keep = other_refresh_token(token);
    let after = before.filter(keep);
    assert forall|i: int| 0 <= i < after.len() implies keep(#[trigger] after[i]) by {
        before.lemma_filter_pred(keep, i);
    }
    lemma_filter_keeps_all(after, keep);
}

/// Filtering by a condition that every element meets changes nothing.
proof fn lemma_filter_keeps_all<T>(s: Seq<T>, keep: spec_fn(T) -> bool)
    requires
        forall|i: int| 0 <= i < s.len() ==> keep(#[trigger] s[i]),
    ensures
        s.filter(keep) == s,
    decreases s.len(),
{
    reveal(Seq::filter);
    if s.len() > 0 {
        lemma_filter_keeps_all(s.drop_last(), keep);
        assert(s.drop_last().push(s.last()) =~= s);
    }
}

/// A reset token can be used once: after a successful reset, a second reset with the same
/// token fails as an invalid token and changes nothing, whatever the clock reads.
pub proof fn reset_token_is_single_use(
    db: DatabaseView,
    token: Seq<char>,
    first_hash: Seq<char>,
    first_now: i64,
    second_hashed: Result<Seq<char>, Seq<char>>,
    second_now: i64,
)
    requires
        reset_password_outcome(db, token, Ok(first_hash), first_now).1 is Ok,
    ensures
        ({
            let after = reset_password_outcome(db, token, Ok(first_hash), first_now).0;
            &&& !after.ledger.has_unused_reset_token(token)
            &&& reset_password_outcome(after, token, second_hashed, second_now) == (
                after,
                Err::<(), Failure>(invalid_reset_token_failure()),
            )
        }),
{
    let after = reset_password_outcome(db, token, Ok(first_hash), first_now).0;
    assert(after.ledger.reset_tokens == db.ledger.reset_tokens.map_values(consumption(token)));
    assert(!has_match(after.ledger.reset_tokens, usable_reset_token(token, second_now)));
}

/// A reset token that the ledger does not hold in an unused row is refused: the reset
/// fails as an invalid token and changes nothing, whatever the clock reads.
pub proof fn unknown_reset_token_fails(
    db: DatabaseView,
    token: Seq<char>,
    hashed: Result<Seq<char>, Seq<char>>,
    now: i64,
)
    requires
        !db.ledger.has_unused_reset_token(token),
    ensures
        reset_password_outcome(db, token, hashed, now) == (
            db,
            Err::<(), Failure>(invalid_reset_token_failure()),
        ),
{
    if has_match(db.ledger.reset_tokens, usable_reset_token(token, now)) {
        let i = choose|i: int|
            0 <= i < db.ledger.reset_tokens.len() && usable_reset_token(token, now)(
                #[trigger] db.ledger.reset_tokens[i],
            );
        assert(unused_reset_token(token)(db.ledger.reset_tokens[i]));
    }
}

/// A password reset revokes the account's sessions: after a successful reset the ledger
/// holds no refresh token of the account that the reset token belongs to, and a refresh
/// with a token that was issued to that account is refused.
pub proof fn reset_revokes_refresh_tokens(
    db: DatabaseView,
    reset_token: Seq<char>,
    hash: Seq<char>,
    now: i64,
    refresh_token: Seq<char>,
    verified: Result<i64, Failure>,
    later: i64,
)
    requires
        reset_password_outcome(db, reset_token, Ok(hash), now).1 is Ok,
        forall|i: int|
            0 <= i < db.ledger.refresh_tokens.len() && (
            #[trigger] db.ledger.refresh_tokens[i]).token == refresh_token
                ==> db.ledger.refresh_tokens[i].user_id == db.ledger.usable_reset_token(
                reset_token,
                now,
            )->Some_0.user_id,
        verification_result(refresh_token, db.secret, verified),
    ensures
        ({
            let owner = db.ledger.usable_reset_token(reset_token, now)->Some_0.user_id;
            let after = reset_password_outcome(db, reset_token, Ok(hash), now).0;
            &&& forall|i: int|
                0 <= i < after.ledger.refresh_tokens.len() ==> (
                #[trigger] after.ledger.refresh_tokens[i]).user_id != owner
            &&& !after.ledger.holds_refresh_token(refresh_token)
            &&& refresh_outcome(after, refresh_token, verified, later).0 == after
            &&& refresh_outcome(after, refresh_token, verified, later).1 matches Err(f) && f.kind
                == ErrorKind::Auth
        }),
{
    let owner = db.ledger.usable_reset_token(reset_token, now)->Some_0.user_id;
    let after = reset_password_outcome(db, reset_token, Ok(hash), now).0;
    let before = db.ledger.refresh_tokens;
    let keep = session_of_other(owner);
    assert(after.ledger.refresh_tokens == before.filter(keep));
    assert forall|i: int| 0 <= i < after.ledger.refresh_tokens.len() implies keep(
        #[trigger] after.ledger.refresh_tokens[i],
    ) && !refresh_token_is(refresh_token)(after.ledger.refresh_tokens[i]) by {
        let row = after.ledger.refresh_tokens[i];
        before.lemma_filter_pred(keep, i);
        assert(before.filter(keep).contains(row));
        before.lemma_filter_contains_rev(keep, row);
    }
    lemma_token_not_held_is_not_live(after, refresh_token, later);
}

/// A request for a password reset for an unknown email succeeds, hands out no token and
/// changes nothing.
pub proof fn forgot_password_hides_unknown_email(
    db: DatabaseView,
    email: Seq<char>,
    token: Seq<char>,
    now: i64,
)
    requires
        !db.store.has_email(email),
    ensures
        forgot_password_outcome(db, email, token, now) == (
            db,
            Ok::<Option<Seq<char>>, Failure>(None),
        ),
{
}

/// The credential store's invariant survives every operation: ids and emails stay
/// unique, and no id is handed out twice.
pub proof fn registration_keeps_invariant(
    db: DatabaseView,
    data: UserCreateView,
    hashed: Result<Seq<char>, Seq<char>>,
    now: i64,
)
    requires
        db.wf(),
    ensures
        register_outcome(db, data, hashed, now).0.wf(),
{
    if registration_failure(db, data) is None && hashed is Ok {
        lemma_insert_keeps_wf(db.store, data, hashed->Ok_0, now);
    }
}

/// Sessions leave the credential store as it is: login, logout, refresh and a request for
/// a password reset change the ledger at most.
pub proof fn sessions_leave_accounts_alone(
    db: DatabaseView,
    request: LoginRequestView,
    token: Seq<char>,
    verified: Result<i64, Failure>,
    email: Seq<char>,
    now: i64,
)
    ensures
        login_outcome(db, request, now).0.store == db.store,
        logout_outcome(db, token).store == db.store,
        refresh_outcome(db, token, verified, now).0.store == db.store,
        forgot_password_outcome(db, email, token, now).0.store == db.store,
{
}

/// A password reset keeps the invariant.
pub proof fn reset_keeps_invariant(
    db: DatabaseView,
    token: Seq<char>,
    hashed: Result<Seq<char>, Seq<char>>,
    now: i64,
)
    requires
        db.wf(),
    ensures
        reset_password_outcome(db, token, hashed, now).0.wf(),
{
    match (db.ledger.usable_reset_token(token, now), hashed) {
        (Some(row), Ok(hash)) => {
            lemma_set_password_keeps_wf(db.store, row.user_id, hash);
        },
        _ => {},
    }
}

/// Changing a profile and deleting an account keep the invariant. After a deletion no
/// account has the id, and the ledger holds no token of it.
pub proof fn profile_changes_keep_invariant(
    db: DatabaseView,
    user_id: i64,
    update: UserUpdateView,
    now: i64,
)
    requires
        db.wf(),
    ensures
        update_profile_outcome(db, user_id, update, now).0.wf(),
        delete_account_outcome(db, user_id).wf(),
        delete_account_outcome(db, user_id).store.by_id(user_id) is None,
        forall|i: int|
            0 <= i < delete_account_outcome(db, user_id).ledger.refresh_tokens.len() ==> (
            #[trigger] delete_account_outcome(db, user_id).ledger.refresh_tokens[i]).user_id
                != user_id,
        forall|i: int|
            0 <= i < delete_account_outcome(db, user_id).ledger.reset_tokens.len() ==> (
            #[trigger] delete_account_outcome(db, user_id).ledger.reset_tokens[i]).user_id
                != user_id,
{
    lemma_update_keeps_wf(db.store, user_id, update, now);
    lemma_remove_keeps_wf(db.store, user_id);
    let after = delete_account_outcome(db, user_id);
    assert forall|i: int| 0 <= i < after.ledger.refresh_tokens.len() implies (
    #[trigger] after.ledger.refresh_tokens[i]).user_id != user_id by {
        db.ledger.refresh_tokens.lemma_filter_pred(session_of_other(user_id), i);
    }
    assert forall|i: int| 0 <= i < after.ledger.reset_tokens.len() implies (
    #[trigger] after.ledger.reset_tokens[i]).user_id != user_id by {
        db.ledger.reset_tokens.lemma_filter_pred(reset_token_of_other(user_id), i);
    }
}

/// A refresh serves the account that the token names: where a refresh succeeds, the token
/// names a subject under the database's secret, that subject is an active account, and
/// the response carries its snapshot.
pub proof fn refresh_serves_the_token_subject(
    db: DatabaseView,
    token: Seq<char>,
    verified: Result<i64, Failure>,
    now: i64,
)
    requires
        verification_result(token, db.secret, verified),
        refresh_outcome(db, token, verified, now).1 is Ok,
    ensures
        token_subject(token, db.secret) matches Ok(user_id) && db.store.active_by_id(
            user_id,
        ) matches Some(user) && refresh_outcome(db, token, verified, now).1->Ok_0.user
            == user.snapshot(),
        db.ledger.has_live_refresh_token(token, now),
{
}

/// A refresh for an account that is missing or inactive is refused: where the token names
/// a subject that is no active account, the refresh fails as an invalid token and changes
/// nothing, whatever the ledger holds and whatever the clock reads.
pub proof fn refresh_for_missing_account_fails(
    db: DatabaseView,
    token: Seq<char>,
    verified: Result<i64, Failure>,
    now: i64,
)
    requires
        verification_result(token, db.secret, verified),
        token_subject(token, db.secret) matches Ok(user_id) && db.store.active_by_id(user_id)
            is None,
    ensures
        refresh_outcome(db, token, verified, now) == (
            db,
            Err::<AuthResponseView, Failure>(invalid_token_failure()),
        ),
{
}

/// A refresh with a token that names no subject is refused: where the token is malformed,
/// signed otherwise or without an integer `user_id`, the refresh fails as an
/// authentication failure and changes nothing.
pub proof fn refresh_with_unsigned_token_fails(
    db: DatabaseView,
    token: Seq<char>,
    verified: Result<i64, Failure>,
    now: i64,
)
    requires
        verification_result(token, db.secret, verified),
        token_subject(token, db.secret) is Err,
    ensures
        refresh_outcome(db, token, verified, now).0 == db,
        refresh_outcome(db, token, verified, now).1 matches Err(f) && f.kind == ErrorKind::Auth,
{
}

/// Rotation does not grow the ledger: a refresh leaves as many rows as it found.
pub proof fn refresh_keeps_ledger_size(
    db: DatabaseView,
    token: Seq<char>,
    verified: Result<i64, Failure>,
    now: i64,
)
    ensures
        refresh_outcome(db, token, verified, now).0.ledger.refresh_tokens.len()
            == db.ledger.refresh_tokens.len(),
        refresh_outcome(db, token, verified, now).0.ledger.reset_tokens
            == db.ledger.reset_tokens,
{
}

/// An account that has an id keeps it when the list of accounts grows or when accounts
/// are changed in place without touching their ids.
proof fn lemma_has_user_survives(before: DatabaseView, after: DatabaseView, user_id: i64)
    requires
        before.has_user(user_id),
        after.store.users.len() >= before.store.users.len(),
        forall|i: int|
            0 <= i < before.store.users.len() ==> (#[trigger] after.store.users[i]).id
                == before.store.users[i].id,
    ensures
        after.has_user(user_id),
{
    let i = choose|i: int|
        0 <= i < before.store.users.len() && with_id(user_id)(#[trigger] before.store.users[i]);
    assert(with_id(user_id)(after.store.users[i]));
}

/// The ledger refers to accounts that exist: where every token of the ledger belongs to
/// an account before an operation of the authentication service, it does so afterwards.
pub proof fn sessions_keep_references(
    db: DatabaseView,
    data: UserCreateView,
    request: LoginRequestView,
    token: Seq<char>,
    email: Seq<char>,
    verified: Result<i64, Failure>,
    hashed: Result<Seq<char>, Seq<char>>,
    now: i64,
)
    requires
        db.references_hold(),
    ensures
        register_outcome(db, data, hashed, now).0.references_hold(),
        login_outcome(db, request, now).0.references_hold(),
        logout_outcome(db, token).references_hold(),
        refresh_outcome(db, token, verified, now).0.references_hold(),
        forgot_password_outcome(db, email, token, now).0.references_hold(),
        reset_password_outcome(db, token, hashed, now).0.references_hold(),
{
    // Registration adds an account and leaves the ledger alone.
    let registered = register_outcome(db, data, hashed, now).0;
    assert forall|user_id: i64| db.has_user(user_id) implies registered.has_user(user_id) by {
        lemma_has_user_survives(db, registered, user_id);
    }

    // Login records a token for an account it found.
    let logged_in = login_outcome(db, request, now).0;
    lemma_first_index(db.store.users, with_email(request.email));
    assert(logged_in.references_hold());

    // Logout keeps some of the rows.
    let logged_out = logout_outcome(db, token);
    assert forall|i: int| 0 <= i < logged_out.ledger.refresh_tokens.len() implies db.has_user(
        (#[trigger] logged_out.ledger.refresh_tokens[i]).user_id,
    ) by {
        lemma_kept_row_was_there(db.ledger.refresh_tokens, other_refresh_token(token), i);
    }

    // Refresh changes tokens and expiries, not owners.
    let refreshed = refresh_outcome(db, token, verified, now).0;
    assert(refreshed.references_hold());

    // A request for a reset records a token for an account it found.
    let requested = forgot_password_outcome(db, email, token, now).0;
    lemma_first_index(db.store.users, with_email(email));
    assert(requested.references_hold());

    // A reset changes a hash, marks rows used and keeps some of the refresh tokens.
    let reset = reset_password_outcome(db, token, hashed, now).0;
    match (db.ledger.usable_reset_token(token, now), hashed) {
        (Some(row), Ok(hash)) => {
            lemma_first_index(db.store.users, with_id(row.user_id));
            assert forall|user_id: i64| db.has_user(user_id) implies reset.has_user(user_id) by {
                lemma_has_user_survives(db, reset, user_id);
            }
            assert forall|i: int| 0 <= i < reset.ledger.refresh_tokens.len() implies db.has_user(
                (#[trigger] reset.ledger.refresh_tokens[i]).user_id,
            ) by {
                lemma_kept_row_was_there(
                    db.ledger.refresh_tokens,
                    session_of_other(row.user_id),
                    i,
                );
            }
        },
        _ => {},
    }
}

/// A row that a filter kept is a row of the sequence that was filtered.
proof fn lemma_kept_row_was_there<T>(rows: Seq<T>, keep: spec_fn(T) -> bool, i: int)
    requires
        0 <= i < rows.filter(keep).len(),
    ensures
        exists|j: int| 0 <= j < rows.len() && #[trigger] rows[j] == rows.filter(keep)[i],
{
    let kept = rows.filter(keep)[i];
    assert(rows.filter(keep).contains(kept));
    rows.lemma_filter_contains_rev(keep, kept);
}

/// A change to a profile keeps the references of the ledger.
pub proof fn profile_update_keeps_references(
    db: DatabaseView,
    user_id: i64,
    update: UserUpdateView,
    now: i64,
)
    requires
        db.references_hold(),
    ensures
        update_profile_outcome(db, user_id, update, now).0.references_hold(),
{
    let after = update_profile_outcome(db, user_id, update, now).0;
    lemma_first_index(db.store.users, with_id(user_id));
    assert forall|other: i64| db.has_user(other) implies after.has_user(other) by {
        lemma_has_user_survives(db, after, other);
    }
}

/// Deleting an account keeps the references of the ledger: the tokens of the deleted
/// account go with it, and every other token still belongs to an account.
pub proof fn deletion_keeps_references(db: DatabaseView, user_id: i64)
    requires
        db.references_hold(),
    ensures
        delete_account_outcome(db, user_id).references_hold(),
{
    let after = delete_account_outcome(db, user_id);
    lemma_first_index(db.store.users, with_id(user_id));
    assert forall|other: i64| other != user_id && db.has_user(other) implies after.has_user(
        other,
    ) by {
        let i = choose|i: int|
            0 <= i < db.store.users.len() && with_id(other)(#[trigger] db.store.users[i]);
        match first_index(db.store.users, with_id(user_id)) {
            Some(gone) => {
                if i < gone {
                    assert(with_id(other)(after.store.users[i]));
                } else {
                    assert(with_id(other)(after.store.users[i - 1]));
                }
            },
            None => {
                assert(with_id(other)(after.store.users[i]));
            },
        }
    }
    assert forall|i: int| 0 <= i < after.ledger.refresh_tokens.len() implies after.has_user(
        (#[trigger] after.ledger.refresh_tokens[i]).user_id,
    ) by {
        db.ledger.refresh_tokens.lemma_filter_pred(session_of_other(user_id), i);
        lemma_kept_row_was_there(db.ledger.refresh_tokens, session_of_other(user_id), i);
    }
    assert forall|i: int| 0 <= i < after.ledger.reset_tokens.len() implies after.has_user(
        (#[trigger] after.ledger.reset_tokens[i]).user_id,
    ) by {
        db.ledger.reset_tokens.lemma_filter_pred(reset_token_of_other(user_id), i);
        lemma_kept_row_was_there(db.ledger.reset_tokens, reset_token_of_other(user_id), i);
    }
}

} // verus!
