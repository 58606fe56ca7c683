//! Accounts and sessions for a progress tracker: registration, login, refresh-token
//! rotation and password reset over an in-memory credential store and session ledger.
//!
//! The state lives in a [`Database`]. The operations of the authentication service are in
//! [`auth`], those on profiles in [`users`]; the token codec is in [`token`]. What holds
//! across calls is proved in [`laws`].

pub mod auth;
pub mod database;
pub mod error;
pub mod laws;
pub mod ledger;
pub mod models;
pub mod primitives;
pub mod search;
pub mod store;
pub mod text;
pub mod token;
pub mod users;

pub use auth::{
    forgot_password, get_current_user, login_user, logout_user, refresh_token, register_user,
    reset_password,
};
pub use database::Database;
pub use error::{AppError, ErrorKind};
pub use models::{
    AuthResponse, LoginRequest, NotificationCreate, User, UserCreate, UserUpdate,
};
pub use users::{delete_user_account, get_user_profile, update_user_profile};
