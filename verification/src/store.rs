//! The credential store: the accounts, found by id or by email. No two accounts share an
//! email or an id, and an id is never handed out twice.

use vstd::prelude::*;
use crate::error::{failure, AppError, ErrorKind, Failure};
use crate::models::{
    clone_optional_text, clone_texts, optional_text_view, texts_view, User, UserCreate,
    UserCreateView, UserUpdate, UserUpdateView, UserView,
};
use crate::search::{
    first_index, first_match, has_match, is_first_match, lemma_first_index, lemma_first_index_is,
};
use crate::text::same_text;

verus! {

/// An account as the store keeps it: the snapshot's fields and the password hash.
#[derive(Debug)]
pub struct UserRecord {
    pub id: i64,
    pub email: String,
    pub password_hash: String,
    pub first_name: String,
    pub last_name: String,
    pub avatar_url: Option<String>,
    pub goals: Vec<String>,
    pub is_active: bool,
    pub email_verified: bool,
    pub created_at: i64,
    pub updated_at: i64,
}

/// The mathematical value of a [`UserRecord`].
pub struct UserRecordView {
    pub id: i64,
    pub email: Seq<char>,
    pub password_hash: Seq<char>,
    pub first_name: Seq<char>,
    pub last_name: Seq<char>,
    pub avatar_url: Option<Seq<char>>,
    pub goals: Seq<Seq<char>>,
    pub is_active: bool,
    pub email_verified: bool,
    pub created_at: i64,
    pub updated_at: i64,
}

impl View for UserRecord {
    type V = UserRecordView;

    open spec fn view(&self) -> UserRecordView {
        UserRecordView {
            id: self.id,
            email: self.email@,
            password_hash: self.password_hash@,
            first_name: self.first_name@,
            last_name: self.last_name@,
            avatar_url: optional_text_view(self.avatar_url),
            goals: texts_view(self.goals@),
            is_active: self.is_active,
            email_verified: self.email_verified,
            created_at: self.created_at,
            updated_at: self.updated_at,
        }
    }
}

impl UserRecordView {
    /// The account without its password hash.
    pub open spec fn snapshot(self) -> UserView {
        UserView {
            id: self.id,
            email: self.email,
            first_name: self.first_name,
            last_name: self.last_name,
            avatar_url: self.avatar_url,
            goals: self.goals,
            is_active: self.is_active,
            email_verified: self.email_verified,
            created_at: self.created_at,
            updated_at: self.updated_at,
        }
    }
}

impl UserRecord {
    /// The account without its password hash.
    pub fn snapshot(&self) -> (user: User)
        ensures
            user@ == self@.snapshot(),
    {
        User {
            id: self.id,
            email: self.email.clone(),
            first_name: self.first_name.clone(),
            last_name: self.last_name.clone(),
            avatar_url: clone_optional_text(&self.avatar_url),
            goals: clone_texts(&self.goals),
            is_active: self.is_active,
            email_verified: self.email_verified,
            created_at: self.created_at,
            updated_at: self.updated_at,
        }
    }
}

impl Clone for UserRecord {
    fn clone(&self) -> (copy: UserRecord)
        ensures
            copy@ == self@,
    {
        UserRecord {
            id: self.id,
            email: self.email.clone(),
            password_hash: self.password_hash.clone(),
            first_name: self.first_name.clone(),
            last_name: self.last_name.clone(),
            avatar_url: clone_optional_text(&self.avatar_url),
            goals: clone_texts(&self.goals),
            is_active: self.is_active,
            email_verified: self.email_verified,
            created_at: self.created_at,
            updated_at: self.updated_at,
        }
    }
}

/// The mathematical value of each record of a list.
pub open spec fn records_view(records: Seq<UserRecord>) -> Seq<UserRecordView> {
    records.map_values(|r: UserRecord| r@)
}

/// The condition "has this email".
pub open spec fn with_email(email: Seq<char>) -> spec_fn(UserRecordView) -> bool {
    |u: UserRecordView| u.email == email
}

/// The condition "has this id".
pub open spec fn with_id(id: i64) -> spec_fn(UserRecordView) -> bool {
    |u: UserRecordView| u.id == id
}

/// The failure reported when an email is already taken.
pub open spec fn email_taken_failure() -> Failure {
    failure(ErrorKind::Conflict, "User already exists"@)
}

/// The failure reported when every id has been handed out.
pub open spec fn ids_exhausted_failure() -> Failure {
    failure(ErrorKind::Internal, "No user id is left"@)
}

/// A record after a change to its profile: each field that the change names is replaced,
/// and where it names any, the record counts as updated at the instant `now`.
pub open spec fn updated_record(
    record: UserRecordView,
    update: UserUpdateView,
    now: i64,
) -> UserRecordView {
    UserRecordView {
        first_name: match update.first_name {
            Some(name) => name,
            None => record.first_name,
        },
        last_name: match update.last_name {
            Some(name) => name,
            None => record.last_name,
        },
        avatar_url: match update.avatar_url {
            Some(url) => Some(url),
            None => record.avatar_url,
        },
        goals: match update.goals {
            Some(goals) => goals,
            None => record.goals,
        },
        updated_at: if update.has_updates() {
            now
        } else {
            record.updated_at
        },
        ..record
    }
}

/// The mathematical value of a [`CredentialStore`]: the accounts in the order in which
/// they were opened, and the id that the next account will get.
pub struct CredentialStoreView {
    pub users: Seq<UserRecordView>,
    pub next_id: i64,
}

impl CredentialStoreView {
    /// The store without accounts.
    pub open spec fn empty() -> CredentialStoreView {
        CredentialStoreView { users: Seq::empty(), next_id: 1 }
    }

    /// The store's invariant: ids are positive, below the next id and pairwise distinct,
    /// and emails are pairwise distinct.
    pub open spec fn wf(self) -> bool {
        &&& 1 <= self.next_id
        &&& forall|i: int|
            0 <= i < self.users.len() ==> 1 <= (#[trigger] self.users[i]).id < self.next_id
        &&& forall|i: int, j: int|
            0 <= i < j < self.users.len() ==> (#[trigger] self.users[i]).id != (
            #[trigger] self.users[j]).id
        &&& forall|i: int, j: int|
            0 <= i < j < self.users.len() ==> (#[trigger] self.users[i]).email != (
            #[trigger] self.users[j]).email
    }

    /// Whether an account has this email.
    pub open spec fn has_email(self, email: Seq<char>) -> bool {
        has_match(self.users, with_email(email))
    }

    /// The account with this email.
    pub open spec fn by_email(self, email: Seq<char>) -> Option<UserRecordView> {
        first_match(self.users, with_email(email))
    }

    /// The account with this id.
    pub open spec fn by_id(self, id: i64) -> Option<UserRecordView> {
        first_match(self.users, with_id(id))
    }

    /// The account with this email, if it is active.
    pub open spec fn active_by_email(self, email: Seq<char>) -> Option<UserRecordView> {
        match self.by_email(email) {
            Some(u) => if u.is_active {
                Some(u)
            } else {
                None
            },
            None => None,
        }
    }

    /// The account with this id, if it is active.
    pub open spec fn active_by_id(self, id: i64) -> Option<UserRecordView> {
        match self.by_id(id) {
            Some(u) => if u.is_active {
                Some(u)
            } else {
                None
            },
            None => None,
        }
    }

    /// Why an account with this email cannot be added, if it cannot.
    pub open spec fn insertion_failure(self, email: Seq<char>) -> Option<Failure> {
        if self.has_email(email) {
            Some(email_taken_failure())
        } else if self.next_id == i64::MAX {
            Some(ids_exhausted_failure())
        } else {
            None
        }
    }

    /// The record of an account opened at the instant `now`: active, its email not yet
    /// verified, without avatar or goals.
    pub open spec fn new_record(
        self,
        data: UserCreateView,
        password_hash: Seq<char>,
        now: i64,
    ) -> UserRecordView {
        UserRecordView {
            id: self.next_id,
            email: data.email,
            password_hash,
            first_name: data.first_name,
            last_name: data.last_name,
            avatar_url: None,
            goals: Seq::empty(),
            is_active: true,
            email_verified: false,
            created_at: now,
            updated_at: now,
        }
    }

    /// The store after the account with this id, if there is one, got a new password hash.
    pub open spec fn with_password(self, id: i64, password_hash: Seq<char>) -> CredentialStoreView {
        match first_index(self.users, with_id(id)) {
            Some(i) => CredentialStoreView {
                users: self.users.update(
                    i,
                    UserRecordView { password_hash, ..self.users[i] },
                ),
                ..self
            },
            None => self,
        }
    }

    /// The store after a change was applied to the profile of the account with this id,
    /// if there is one.
    pub open spec fn with_update(self, id: i64, update: UserUpdateView, now: i64) -> CredentialStoreView {
        match first_index(self.users, with_id(id)) {
            Some(i) => CredentialStoreView {
                users: self.users.update(i, updated_record(self.users[i], update, now)),
                ..self
            },
            None => self,
        }
    }

    /// The store without the account with this id.
    pub open spec fn without_user(self, id: i64) -> CredentialStoreView {
        match first_index(self.users, with_id(id)) {
            Some(i) => CredentialStoreView { users: self.users.remove(i), ..self },
            None => self,
        }
    }

    /// The store after an account was added.
    pub open spec fn with_inserted(
        self,
        data: UserCreateView,
        password_hash: Seq<char>,
        now: i64,
    ) -> CredentialStoreView {
        CredentialStoreView {
            users: self.users.push(self.new_record(data, password_hash, now)),
            next_id: (self.next_id + 1) as i64,
        }
    }
}

/// Adding an account keeps the invariant.
pub proof fn lemma_insert_keeps_wf(
    store: CredentialStoreView,
    data: UserCreateView,
    password_hash: Seq<char>,
    now: i64,
)
    requires
        store.wf(),
        store.insertion_failure(data.email) is None,
    ensures
        store.with_inserted(data, password_hash, now).wf(),
{
    let after = store.with_inserted(data, password_hash, now);
    assert forall|i: int, j: int| 0 <= i < j < after.users.len() implies (
    #[trigger] after.users[i]).email != (#[trigger] after.users[j]).email by {}
}

/// Replacing a password hash keeps the invariant.
pub proof fn lemma_set_password_keeps_wf(
    store: CredentialStoreView,
    id: i64,
    password_hash: Seq<char>,
)
    requires
        store.wf(),
    ensures
        store.with_password(id, password_hash).wf(),
{
    lemma_first_index(store.users, with_id(id));
}

/// Changing a profile keeps the invariant.
pub proof fn lemma_update_keeps_wf(
    store: CredentialStoreView,
    id: i64,
    update: UserUpdateView,
    now: i64,
)
    requires
        store.wf(),
    ensures
        store.with_update(id, update, now).wf(),
{
    lemma_first_index(store.users, with_id(id));
}

/// Removing an account keeps the invariant, and no account has the id afterwards.
pub proof fn lemma_remove_keeps_wf(store: CredentialStoreView, id: i64)
    requires
        store.wf(),
    ensures
        store.without_user(id).wf(),
        store.without_user(id).by_id(id) is None,
{
    lemma_first_index(store.users, with_id(id));
    let after = store.without_user(id);
    assert forall|j: int| 0 <= j < after.users.len() implies !with_id(id)(
        #[trigger] after.users[j],
    ) by {}
}

/// The accounts, with the id that the next one will get.
pub struct CredentialStore {
    users: Vec<UserRecord>,
    next_id: i64,
}

impl View for CredentialStore {
    type V = CredentialStoreView;

    closed spec fn view(&self) -> CredentialStoreView {
        CredentialStoreView { users: records_view(self.users@), next_id: self.next_id }
    }
}

impl CredentialStore {
    #[verifier::type_invariant]
    spec fn well_formed(&self) -> bool {
        self@.wf()
    }

    /// Does nothing when run; to the verifier, it recalls that every store meets the
    /// invariant of its model.
    pub fn recall_wf(&self)
        ensures
            self@.wf(),
    {
        proof {
            use_type_invariant(self);
        }
    }

    /// A store without accounts.
    pub fn new() -> (store: CredentialStore)
        ensures
            store@ == CredentialStoreView::empty(),
    {
        let store = CredentialStore { users: Vec::new(), next_id: 1 };
        assert(store@.users =~= Seq::empty());
        store
    }

    /// A store made of records that were kept elsewhere, with the id that the next account
    /// will get. The records are accepted only if they meet the store's invariant.
    pub fn restore(users: Vec<UserRecord>, next_id: i64) -> (r: Option<CredentialStore>)
        ensures
            match r {
                Some(store) => store@ == (CredentialStoreView {
                    users: records_view(users@),
                    next_id,
                }),
                None => !(CredentialStoreView { users: records_view(users@), next_id }).wf(),
            },
    {
        if next_id < 1 {
            return None;
        }
        let ghost model = CredentialStoreView { users: records_view(users@), next_id };
        let mut j: usize = 0;
        while j < users.len()
            invariant
                j <= users.len(),
                1 <= next_id,
                model == (CredentialStoreView { users: records_view(users@), next_id }),
                forall|k: int| 0 <= k < j ==> 1 <= (#[trigger] model.users[k]).id < next_id,
                forall|a: int, b: int|
                    0 <= a < b < j ==> (#[trigger] model.users[a]).id != (
                    #[trigger] model.users[b]).id && model.users[a].email
                        != model.users[b].email,
            decreases users.len() - j,
        {
            if users[j].id < 1 || users[j].id >= next_id {
                return None;
            }
            let mut i: usize = 0;
            while i < j
                invariant
                    i <= j < users.len(),
                    model == (CredentialStoreView { users: records_view(users@), next_id }),
                    forall|a: int|
                        0 <= a < i ==> (#[trigger] model.users[a]).id != model.users[j as int].id
                            && model.users[a].email != model.users[j as int].email,
                decreases j - i,
            {
                if users[i].id == users[j].id || same_text(
                    users[i].email.as_str(),
                    users[j].email.as_str(),
                ) {
                    assert(model.users[i as int].id == model.users[j as int].id
                        || model.users[i as int].email == model.users[j as int].email);
                    return None;
                }
                i += 1;
            }
            j += 1;
        }
        Some(CredentialStore { users, next_id })
    }

    /// The records, in the order in which the accounts were opened.
    pub fn records(&self) -> (records: &Vec<UserRecord>)
        ensures
            records_view(records@) == self@.users,
    {
        &self.users
    }

    /// The id that the next account will get.
    pub fn next_id(&self) -> (id: i64)
        ensures
            id == self@.next_id,
    {
        self.next_id
    }

    /// Moves the records out, leaving a store without accounts.
    fn take_users(&mut self) -> (users: Vec<UserRecord>)
        ensures
            users == old(self).users,
            final(self).users@ == Seq::<UserRecord>::empty(),
            final(self).next_id == old(self).next_id,
    {
        proof {
            use_type_invariant(&*self);
        }
        let mut users: Vec<UserRecord> = Vec::new();
        std::mem::swap(&mut self.users, &mut users);
        users
    }

    /// The position of the account with this email.
    fn index_of_email(&self, email: &str) -> (r: Option<usize>)
        ensures
            match r {
                Some(i) => is_first_match(self@.users, with_email(email@), i as int),
                None => !self@.has_email(email@),
            },
    {
        let mut i: usize = 0;
        while i < self.users.len()
            invariant
                i <= self.users.len(),
                forall|j: int| 0 <= j < i ==> !with_email(email@)(#[trigger] self@.users[j]),
            decreases self.users.len() - i,
        {
            if same_text(self.users[i].email.as_str(), email) {
                return Some(i);
            }
            i += 1;
        }
        None
    }

    /// The position of the account with this id.
    fn index_of_id(&self, id: i64) -> (r: Option<usize>)
        ensures
            match r {
                Some(i) => is_first_match(self@.users, with_id(id), i as int),
                None => !has_match(self@.users, with_id(id)),
            },
    {
        let mut i: usize = 0;
        while i < self.users.len()
            invariant
                i <= self.users.len(),
                forall|j: int| 0 <= j < i ==> !with_id(id)(#[trigger] self@.users[j]),
            decreases self.users.len() - i,
        {
            if self.users[i].id == id {
                return Some(i);
            }
            i += 1;
        }
        None
    }

    /// The account with this email.
    pub fn find_by_email(&self, email: &str) -> (r: Option<&UserRecord>)
        ensures
            match r {
                Some(record) => self@.by_email(email@) == Some(record@),
                None => self@.by_email(email@) is None,
            },
    {
        match self.index_of_email(email) {
            Some(i) => {
                proof {
                    lemma_first_index_is(self@.users, with_email(email@), i as int);
                }
                Some(&self.users[i])
            },
            None => None,
        }
    }

    /// The account with this id.
    pub fn find_by_id(&self, id: i64) -> (r: Option<&UserRecord>)
        ensures
            match r {
                Some(record) => self@.by_id(id) == Some(record@),
                None => self@.by_id(id) is None,
            },
    {
        match self.index_of_id(id) {
            Some(i) => {
                proof {
                    lemma_first_index_is(self@.users, with_id(id), i as int);
                }
                Some(&self.users[i])
            },
            None => None,
        }
    }

    /// Why an account with this email cannot be added, if it cannot.
    pub fn insertion_error(&self, email: &str) -> (r: Option<AppError>)
        ensures
            match r {
                Some(e) => self@.insertion_failure(email@) == Some(e@),
                None => self@.insertion_failure(email@) is None,
            },
    {
        if self.index_of_email(email).is_some() {
            Some(AppError::Conflict(String::from_str("User already exists")))
        } else if self.next_id == i64::MAX {
            Some(AppError::Internal(String::from_str("No user id is left")))
        } else {
            None
        }
    }

    /// Adds an account, unless its email is taken or no id is left. The email's shape is
    /// the caller's to check; that it is unique is enforced here.
    pub fn insert(&mut self, data: UserCreate, password_hash: String, now: i64) -> (r: Result<
        User,
        AppError,
    >)
        ensures
            match old(self)@.insertion_failure(data@.email) {
                Some(f) => r matches Err(e) && e@ == f && final(self)@ == old(self)@,
                None => r matches Ok(user) && user@ == old(self)@.new_record(
                    data@,
                    password_hash@,
                    now,
                ).snapshot() && final(self)@ == old(self)@.with_inserted(
                    data@,
                    password_hash@,
                    now,
                ),
            },
    {
        proof {
            use_type_invariant(&*self);
        }
        if let Some(e) = self.insertion_error(data.email.as_str()) {
            return Err(e);
        }
        let record = UserRecord {
            id: self.next_id,
            email: data.email,
            password_hash,
            first_name: data.first_name,
            last_name: data.last_name,
            avatar_url: None,
            goals: Vec::new(),
            is_active: true,
            email_verified: false,
            created_at: now,
            updated_at: now,
        };
        let user = record.snapshot();
        assert(record@ == old(self)@.new_record(data@, password_hash@, now)) by {
            assert(record@.goals =~= Seq::empty());
        }
        let mut users = self.take_users();
        users.push(record);
        assert(records_view(users@) =~= old(self)@.users.push(record@));
        self.next_id = self.next_id + 1;
        self.users = users;
        Ok(user)
    }

    /// Replaces the password hash of the account with this id; without such an account
    /// nothing changes.
    pub fn set_password(&mut self, id: i64, password_hash: String)
        ensures
            final(self)@ == old(self)@.with_password(id, password_hash@),
    {
        proof {
            use_type_invariant(&*self);
        }
        match self.index_of_id(id) {
            None => {},
            Some(i) => {
                proof {
                    lemma_first_index_is(self@.users, with_id(id), i as int);
                }
                let mut users = self.take_users();
                users[i].password_hash = password_hash;
                assert(records_view(users@) =~= old(self)@.with_password(id, password_hash@).users);
                self.users = users;
            },
        }
    }

    /// Applies a change to the profile of the account with this id; without such an
    /// account nothing changes.
    pub fn update(&mut self, id: i64, update: UserUpdate, now: i64)
        ensures
            final(self)@ == old(self)@.with_update(id, update@, now),
    {
        proof {
            use_type_invariant(&*self);
        }
        match self.index_of_id(id) {
            None => {},
            Some(i) => {
                proof {
                    lemma_first_index_is(self@.users, with_id(id), i as int);
                }
                let mut users = self.take_users();
                let touched = update.first_name.is_some() || update.last_name.is_some()
                    || update.avatar_url.is_some() || update.goals.is_some();
                if let Some(name) = update.first_name {
                    users[i].first_name = name;
                }
                if let Some(name) = update.last_name {
                    users[i].last_name = name;
                }
                if let Some(url) = update.avatar_url {
                    users[i].avatar_url = Some(url);
                }
                if let Some(goals) = update.goals {
                    users[i].goals = goals;
                }
                if touched {
                    users[i].updated_at = now;
                }
                assert(records_view(users@) =~= old(self)@.with_update(id, update@, now).users);
                self.users = users;
            },
        }
    }

    /// Removes the account with this id; without such an account nothing changes.
    pub fn remove(&mut self, id: i64)
        ensures
            final(self)@ == old(self)@.without_user(id),
    {
        proof {
            use_type_invariant(&*self);
        }
        match self.index_of_id(id) {
            None => {},
            Some(i) => {
                proof {
                    lemma_first_index_is(self@.users, with_id(id), i as int);
                }
                let mut users = self.take_users();
                let _ = users.remove(i);
                assert(records_view(users@) =~= old(self)@.without_user(id).users);
                self.users = users;
            },
        }
    }
}

} // verus!
