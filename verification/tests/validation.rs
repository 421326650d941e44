use auth_core::helpers::{is_valid_password, is_valid_user_role, is_valid_username};

#[test]
fn test_is_valid_user_role() {
    assert!(is_valid_user_role("team_manager"));
    assert!(is_valid_user_role("insurance"));
    assert!(!is_valid_user_role("invalid_role"));
}

#[test]
fn test_is_valid_username() {
    assert!(is_valid_username("validuser"));
    assert!(!is_valid_username("ali"));
}

#[test]
fn test_is_valid_password() {
    assert!(is_valid_password("validpassword"));
    assert!(!is_valid_password("123"));
}

#[test]
fn test_empty_role_rejected() {
    assert!(!is_valid_user_role(""));
}

#[test]
fn test_boundary_lengths() {
    // Exactly three characters is still too short; four is enough.
    assert!(!is_valid_username("abc"));
    assert!(is_valid_username("abcd"));
    assert!(!is_valid_password("abc"));
    assert!(is_valid_password("abcd"));
}
