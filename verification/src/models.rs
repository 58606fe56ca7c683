//! The values that cross the service's boundary: requests, user snapshots and session
//! responses, each with the mathematical value that the contracts speak of.

use vstd::prelude::*;

verus! {

/// The text of each string of a list.
pub open spec fn texts_view(texts: Seq<String>) -> Seq<Seq<char>> {
    texts.map_values(|t: String| t@)
}

/// The text of an optional string.
pub open spec fn optional_text_view(text: Option<String>) -> Option<Seq<char>> {
    match text {
        Some(t) => Some(t@),
        None => None,
    }
}

/// A copy of a list of strings.
pub fn clone_texts(texts: &Vec<String>) -> (copy: Vec<String>)
    ensures
        texts_view(copy@) == texts_view(texts@),
{
    let mut copy: Vec<String> = Vec::new();
    let mut i: usize = 0;
    while i < texts.len()
        invariant
            i <= texts.len(),
            copy.len() == i,
            forall|k: int| 0 <= k < i ==> copy[k]@ == texts[k]@,
        decreases texts.len() - i,
    {
        copy.push(texts[i].clone());
        i += 1;
    }
    copy
}

/// A copy of an optional string.
pub fn clone_optional_text(text: &Option<String>) -> (copy: Option<String>)
    ensures
        optional_text_view(copy) == optional_text_view(*text),
{
    match text {
        Some(t) => Some(t.clone()),
        None => None,
    }
}

/// What is known of an account outside the credential store. The password hash is not
/// part of it. Instants are whole seconds since the Unix epoch.
#[derive(Debug)]
pub struct User {
    pub id: i64,
    pub email: String,
    pub first_name: String,
    pub last_name: String,
    pub avatar_url: Option<String>,
    pub goals: Vec<String>,
    pub is_active: bool,
    pub email_verified: bool,
    pub created_at: i64,
    pub updated_at: i64,
}

/// The mathematical value of a [`User`].
pub struct UserView {
    pub id: i64,
    pub email: Seq<char>,
    pub first_name: Seq<char>,
    pub last_name: Seq<char>,
    pub avatar_url: Option<Seq<char>>,
    pub goals: Seq<Seq<char>>,
    pub is_active: bool,
    pub email_verified: bool,
    pub created_at: i64,
    pub updated_at: i64,
}

impl View for User {
    type V = UserView;

    open spec fn view(&self) -> UserView {
        UserView {
            id: self.id,
            email: self.email@,
            first_name: self.first_name@,
            last_name: self.last_name@,
            avatar_url: optional_text_view(self.avatar_url),
            goals: texts_view(self.goals@),
            is_active: self.is_active,
            email_verified: self.email_verified,
            created_at: self.created_at,
            updated_at: self.updated_at,
        }
    }
}

impl Clone for User {
    fn clone(&self) -> (copy: User)
        ensures
            copy@ == self@,
    {
        User {
            id: self.id,
            email: self.email.clone(),
            first_name: self.first_name.clone(),
            last_name: self.last_name.clone(),
            avatar_url: clone_optional_text(&self.avatar_url),
            goals: clone_texts(&self.goals),
            is_active: self.is_active,
            email_verified: self.email_verified,
            created_at: self.created_at,
            updated_at: self.updated_at,
        }
    }
}

/// A request to open an account.
#[derive(Debug)]
pub struct UserCreate {
    pub email: String,
    pub password: String,
    pub first_name: String,
    pub last_name: String,
}

/// The mathematical value of a [`UserCreate`].
pub struct UserCreateView {
    pub email: Seq<char>,
    pub password: Seq<char>,
    pub first_name: Seq<char>,
    pub last_name: Seq<char>,
}

impl View for UserCreate {
    type V = UserCreateView;

    open spec fn view(&self) -> UserCreateView {
        UserCreateView {
            email: self.email@,
            password: self.password@,
            first_name: self.first_name@,
            last_name: self.last_name@,
        }
    }
}

impl Clone for UserCreate {
    fn clone(&self) -> (copy: UserCreate)
        ensures
            copy@ == self@,
    {
        UserCreate {
            email: self.email.clone(),
            password: self.password.clone(),
            first_name: self.first_name.clone(),
            last_name: self.last_name.clone(),
        }
    }
}

/// A change to a profile: each field that is present replaces the stored one.
#[derive(Debug)]
pub struct UserUpdate {
    pub first_name: Option<String>,
    pub last_name: Option<String>,
    pub avatar_url: Option<String>,
    pub goals: Option<Vec<String>>,
}

/// The mathematical value of a [`UserUpdate`].
pub struct UserUpdateView {
    pub first_name: Option<Seq<char>>,
    pub last_name: Option<Seq<char>>,
    pub avatar_url: Option<Seq<char>>,
    pub goals: Option<Seq<Seq<char>>>,
}

impl View for UserUpdate {
    type V = UserUpdateView;

    open spec fn view(&self) -> UserUpdateView {
        UserUpdateView {
            first_name: optional_text_view(self.first_name),
            last_name: optional_text_view(self.last_name),
            avatar_url: optional_text_view(self.avatar_url),
            goals: match self.goals {
                Some(goals) => Some(texts_view(goals@)),
                None => None,
            },
        }
    }
}

impl UserUpdateView {
    /// Whether the change names at least one field.
    pub open spec fn has_updates(self) -> bool {
        self.first_name is Some || self.last_name is Some || self.avatar_url is Some
            || self.goals is Some
    }
}

/// Credentials presented at login.
#[derive(Debug)]
pub struct LoginRequest {
    pub email: String,
    pub password: String,
}

/// The mathematical value of a [`LoginRequest`].
pub struct LoginRequestView {
    pub email: Seq<char>,
    pub password: Seq<char>,
}

impl View for LoginRequest {
    type V = LoginRequestView;

    open spec fn view(&self) -> LoginRequestView {
        LoginRequestView { email: self.email@, password: self.password@ }
    }
}

/// A request to notify an account. Without a type, a notification counts as information.
#[derive(Debug)]
pub struct NotificationCreate {
    pub user_id: i64,
    pub title: String,
    pub message: String,
    pub notification_type: Option<String>,
}

/// The mathematical value of a [`NotificationCreate`].
pub struct NotificationCreateView {
    pub user_id: i64,
    pub title: Seq<char>,
    pub message: Seq<char>,
    pub notification_type: Option<Seq<char>>,
}

impl View for NotificationCreate {
    type V = NotificationCreateView;

    open spec fn view(&self) -> NotificationCreateView {
        NotificationCreateView {
            user_id: self.user_id,
            title: self.title@,
            message: self.message@,
            notification_type: optional_text_view(self.notification_type),
        }
    }
}

impl NotificationCreateView {
    /// The type that the notification is stored with: the one asked for, or `info`.
    pub open spec fn stored_type(self) -> Seq<char> {
        match self.notification_type {
            Some(kind) => kind,
            None => "info"@,
        }
    }
}

impl NotificationCreate {
    /// The type that the notification is stored with: the one asked for, or `info`.
    pub fn stored_type(&self) -> (kind: String)
        ensures
            kind@ == self@.stored_type(),
    {
        match &self.notification_type {
            Some(kind) => kind.clone(),
            None => String::from_str("info"),
        }
    }
}

/// What a successful login or refresh hands out: a short-lived access token, a long-lived
/// refresh token, and the account they belong to.
#[derive(Debug)]
pub struct AuthResponse {
    pub access_token: String,
    pub refresh_token: String,
    pub user: User,
}

/// The mathematical value of an [`AuthResponse`].
pub struct AuthResponseView {
    pub access_token: Seq<char>,
    pub refresh_token: Seq<char>,
    pub user: UserView,
}

impl View for AuthResponse {
    type V = AuthResponseView;

    open spec fn view(&self) -> AuthResponseView {
        AuthResponseView {
            access_token: self.access_token@,
            refresh_token: self.refresh_token@,
            user: self.user@,
        }
    }
}

} // verus!
