use progress2win::{
    login_user, register_user, update_user_profile, AppError, Database, LoginRequest, UserCreate,
    UserUpdate,
};

fn setup_test_db() -> Database {
    Database::new()
}

#[test]
fn test_register_user() {
    let mut db = setup_test_db();

    let user_data = UserCreate {
        email: "test@example.com".to_string(),
        password: "password123".to_string(),
        first_name: "John".to_string(),
        last_name: "Doe".to_string(),
    };

    let result = register_user(&mut db, user_data);
    assert!(result.is_ok());

    let user = result.unwrap();
    assert_eq!(user.email, "test@example.com");
    assert_eq!(user.first_name, "John");
    assert_eq!(user.last_name, "Doe");
}

#[test]
fn test_register_duplicate_user() {
    let mut db = setup_test_db();

    let user_data = UserCreate {
        email: "test@example.com".to_string(),
        password: "password123".to_string(),
        first_name: "John".to_string(),
        last_name: "Doe".to_string(),
    };

    // Register first user
    let result1 = register_user(&mut db, user_data.clone());
    assert!(result1.is_ok());

    // Try to register duplicate
    let result2 = register_user(&mut db, user_data);
    assert!(result2.is_err());
    assert!(matches!(result2.unwrap_err(), AppError::Conflict(_)));
}

#[test]
fn test_login_user() {
    let mut db = setup_test_db();

    // Register user first
    let user_data = UserCreate {
        email: "test@example.com".to_string(),
        password: "password123".to_string(),
        first_name: "John".to_string(),
        last_name: "Doe".to_string(),
    };

    let user = register_user(&mut db, user_data).unwrap();

    // Login with correct credentials
    let login_data = LoginRequest {
        email: "test@example.com".to_string(),
        password: "password123".to_string(),
    };

    let result = login_user(&mut db, login_data);
    assert!(result.is_ok());

    let auth_response = result.unwrap();
    assert_eq!(auth_response.user.id, user.id);
    assert!(!auth_response.access_token.is_empty());
    assert!(!auth_response.refresh_token.is_empty());
}

#[test]
fn test_login_invalid_credentials() {
    let mut db = setup_test_db();

    let login_data = LoginRequest {
        email: "nonexistent@example.com".to_string(),
        password: "wrongpassword".to_string(),
    };

    let result = login_user(&mut db, login_data);
    assert!(result.is_err());
    assert!(matches!(result.unwrap_err(), AppError::Auth(_)));
}

#[test]
fn test_update_user_profile() {
    let mut db = setup_test_db();

    // Register user
    let user_data = UserCreate {
        email: "test@example.com".to_string(),
        password: "password123".to_string(),
        first_name: "John".to_string(),
        last_name: "Doe".to_string(),
    };

    let user = register_user(&mut db, user_data).unwrap();

    // Update profile
    let update_data = UserUpdate {
        first_name: Some("Jane".to_string()),
        last_name: Some("Smith".to_string()),
        avatar_url: Some("https://example.com/avatar.jpg".to_string()),
        goals: Some(vec!["Lose weight".to_string(), "Run 5k".to_string()]),
    };

    let result = update_user_profile(&mut db, user.id, update_data);
    assert!(result.is_ok());

    let updated_user = result.unwrap();
    assert_eq!(updated_user.first_name, "Jane");
    assert_eq!(updated_user.last_name, "Smith");
    assert_eq!(updated_user.goals.len(), 2);
}
