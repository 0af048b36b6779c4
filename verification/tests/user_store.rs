use chat_server::error::AppError;
use chat_server::password::{hash_password, verify_password};

use chat_server::table::UserTable;
use chat_server::user::{CreateUser, SignInUser, User};

const NOW: i64 = 1_700_000_000_000_000;

#[test]
fn test_find_by_email_not_found() {
    let table = UserTable::new();
    let email = "nonexistent@example.com".to_string();
    let user = User::find_by_email(&email, 1, &table).unwrap();
    println!("查找到的用户信息: {:?}", user);
    assert!(user.is_none());
}

#[test]
fn test_find_by_email_found() {
    let mut table = UserTable::new();

    let email = "zhangsan@test.com".to_string();
    let create_user = CreateUser {
        ws_id: 1,
        full_name: "Zhang San".to_string(),
        email: email.clone(),
        workspace: "test_workspace".to_string(),
        password: "password123".to_string(),
    };
    User::create(create_user, &mut table, NOW).unwrap();

    let user = User::find_by_email(&email, 1, &table).unwrap();
    println!("查找到的用户信息: {:?}", user);
    assert!(Some(user).is_some());
    let r = User::delete_by_email(&email, 1, &mut table).unwrap();
    println!("删除用户:{}", &email);
    assert_eq!(true, r);
}

#[test]
fn test_verify_user_success() {
    let mut table = UserTable::new();

    let create_user = CreateUser {
        ws_id: 1,
        full_name: "Verify User".to_string(),
        email: "verify@example.com".to_string(),
        workspace: "test_workspace".to_string(),
        password: "correct_password".to_string(),
    };
    User::create(create_user, &mut table, NOW).unwrap();

    let signin_user = SignInUser {
        ws_id: 1,
        email: "verify@example.com".to_string(),
        password: "correct_password".to_string(),
    };

    let verified_user = User::verify(&signin_user, &table).unwrap();
    assert!(&verified_user.is_some());

    let user = verified_user.unwrap();
    assert_eq!(user.email, "verify@example.com");

    User::delete(user.id, &mut table).unwrap();
}

#[test]
fn test_verify_nonexistent_user() {
    let table = UserTable::new();

    let signin_user = SignInUser {
        ws_id: 1,
        email: "nonexistent_verify@example.com".to_string(),
        password: "any_password".to_string(),
    };

    let verified_user = User::verify(&signin_user, &table).unwrap();
    assert!(verified_user.is_none());
}

#[test]
fn test_password_hashing() {
    let password = "test_password";
    let hashed = hash_password(password).unwrap();

    assert_ne!(hashed, password);

    let is_valid = verify_password(password, &hashed).unwrap();
    assert!(is_valid);

    let is_invalid = verify_password("wrong_password", &hashed).unwrap();
    assert!(!is_invalid);
}

#[test]
fn test_delete_user_by_id() {
    let mut table = UserTable::new();

    let create_user = CreateUser {
        ws_id: 1,
        full_name: "Delete Test User".to_string(),
        email: "delete_test@example.com".to_string(),
        workspace: "test_workspace".to_string(),
        password: "password123".to_string(),
    };
    let user = User::create(create_user, &mut table, NOW).unwrap();

    let found_user = User::find_by_email("delete_test@example.com", 1, &table).unwrap();
    assert!(found_user.is_some());

    let deleted = User::delete(user.id, &mut table).unwrap();
    assert!(deleted);

    let not_found_user = User::find_by_email("delete_test@example.com", 1, &table).unwrap();
    assert!(not_found_user.is_none());
}

#[test]
fn test_delete_user_by_email() {
    let mut table = UserTable::new();

    let create_user = CreateUser {
        ws_id: 1,
        full_name: "Delete By Email User".to_string(),
        email: "delete_by_email@example.com".to_string(),
        workspace: "test_workspace".to_string(),
        password: "password123".to_string(),
    };
    User::create(create_user, &mut table, NOW).unwrap();

    let found_user = User::find_by_email("delete_by_email@example.com", 1, &table).unwrap();
    assert!(found_user.is_some());

    let deleted = User::delete_by_email("delete_by_email@example.com", 1, &mut table).unwrap();
    assert!(deleted);

    let not_found_user =
        User::find_by_email("delete_by_email@example.com", 1, &table).unwrap();
    assert!(not_found_user.is_none());
}

#[test]
fn test_delete_nonexistent_user_by_id() {
    let mut table = UserTable::new();

    let deleted = User::delete(99999, &mut table).unwrap();
    assert!(!deleted);
}

#[test]
fn test_delete_nonexistent_user_by_email() {
    let mut table = UserTable::new();

    let deleted = User::delete_by_email("nonexistent@example.com", 1, &mut table).unwrap();
    assert!(!deleted);
}

#[test]
fn hashing_failure_is_a_password_hash_error() {
    let err = verify_password("pw", "").unwrap_err();
    assert!(matches!(err, AppError::PasswordHashError(_)));
}
