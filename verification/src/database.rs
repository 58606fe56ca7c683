//! The state that the service works on: the credential store, the session ledger and the
//! secret that tokens are signed with.

use vstd::prelude::*;
use crate::ledger::{SessionLedger, SessionLedgerView};
use crate::search::has_match;
use crate::store::{with_id, CredentialStore, CredentialStoreView};

verus! {

/// The signing secret of a database made without one. It is meant for development: a
/// deployment injects its own with [`Database::with_secret`].
pub const DEFAULT_JWT_SECRET: &'static str = "your-super-secret-jwt-key-change-in-production";

/// The state of the service.
pub struct Database {
    /// The accounts.
    pub store: CredentialStore,
    /// The refresh tokens in force and the reset tokens handed out.
    pub ledger: SessionLedger,
    /// The secret that tokens are signed with.
    pub secret: String,
}

/// The mathematical value of a [`Database`].
pub struct DatabaseView {
    pub store: CredentialStoreView,
    pub ledger: SessionLedgerView,
    pub secret: Seq<char>,
}

impl View for Database {
    type V = DatabaseView;

    open spec fn view(&self) -> DatabaseView {
        DatabaseView { store: self.store@, ledger: self.ledger@, secret: self.secret@ }
    }
}

impl DatabaseView {
    /// The state without accounts or tokens.
    pub open spec fn empty(secret: Seq<char>) -> DatabaseView {
        DatabaseView {
            store: CredentialStoreView::empty(),
            ledger: SessionLedgerView::empty(),
            secret,
        }
    }

    /// The state's invariant: that of the credential store.
    pub open spec fn wf(self) -> bool {
        self.store.wf()
    }

    /// Whether an account has this id.
    pub open spec fn has_user(self, user_id: i64) -> bool {
        has_match(self.store.users, with_id(user_id))
    }

    /// Whether every token of the ledger belongs to an account of the store.
    pub open spec fn references_hold(self) -> bool {
        &&& forall|i: int|
            0 <= i < self.ledger.refresh_tokens.len() ==> self.has_user(
                (#[trigger] self.ledger.refresh_tokens[i]).user_id,
            )
        &&& forall|i: int|
            0 <= i < self.ledger.reset_tokens.len() ==> self.has_user(
                (#[trigger] self.ledger.reset_tokens[i]).user_id,
            )
    }
}

impl Database {
    /// An empty database that signs with the development secret.
    pub fn new() -> (db: Database)
        ensures
            db@ == DatabaseView::empty(DEFAULT_JWT_SECRET@),
    {
        Database::with_secret(String::from_str(DEFAULT_JWT_SECRET))
    }

    /// An empty database that signs with the given secret.
    pub fn with_secret(secret: String) -> (db: Database)
        ensures
            db@ == DatabaseView::empty(secret@),
    {
        Database { store: CredentialStore::new(), ledger: SessionLedger::new(), secret }
    }

    /// Does nothing when run; to the verifier, it recalls that every database meets the
    /// invariant of its model.
    pub fn recall_wf(&self)
        ensures
            self@.wf(),
    {
        self.store.recall_wf();
    }
}

} // verus!
