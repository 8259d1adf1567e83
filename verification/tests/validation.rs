use aphanite::service::validation::{validate_nickname, validate_password, validate_profile_name};

#[test]
fn nickname_within_limits_is_accepted() {
    assert!(validate_nickname("a").is_ok());
    assert!(validate_nickname("Steve").is_ok());
    assert!(validate_nickname("二十个字的昵称也是可以接受的没错就是这").is_ok());
}

#[test]
fn nickname_empty_is_accepted() {
    assert!(validate_nickname("").is_ok());
}

#[test]
fn nickname_too_long_is_refused() {
    let e = validate_nickname("abcdefghijklmnopqrstu").unwrap_err();
    assert_eq!(e.status(), 418);
    assert_eq!(e.reason(), "Nickname must not exceed 20 characters, got 21 characters");
}

#[test]
fn profile_name_rules() {
    assert!(validate_profile_name("Steve_01").is_ok());
    let e = validate_profile_name("ab").unwrap_err();
    assert_eq!(e.status(), 400);
    assert_eq!(e.reason(), "Profile name must be between 3 and 16 characters, got 2");
    let e = validate_profile_name("abcdefghijklmnopq").unwrap_err();
    assert_eq!(e.reason(), "Profile name must be between 3 and 16 characters, got 17");
    let e = validate_profile_name("bad name").unwrap_err();
    assert_eq!(e.status(), 400);
    assert_eq!(e.reason(), "Profile name must only contain letters, numbers, and underscores");
}

#[test]
fn profile_name_length_counts_bytes() {
    // two characters of three bytes each: six bytes, so the length is accepted
    let e = validate_profile_name("名字").unwrap_err();
    assert_eq!(e.reason(), "Profile name must only contain letters, numbers, and underscores");
}

#[test]
fn password_rules() {
    assert!(validate_password("12345678").is_ok());
    let e = validate_password("1234567").unwrap_err();
    assert_eq!(e.status(), 422);
    assert_eq!(e.reason(), "Password must be at least 8 characters, got 7");
    let long = "x".repeat(129);
    let e = validate_password(&long).unwrap_err();
    assert_eq!(e.status(), 422);
    assert_eq!(e.reason(), "Password must be at most 128 characters, got 129");
    assert!(validate_password(&"x".repeat(128)).is_ok());
}

#[test]
fn password_length_counts_characters() {
    let e = validate_password("éééé").unwrap_err();
    assert_eq!(e.status(), 422);
    assert_eq!(e.reason(), "Password must be at least 8 characters, got 4");
    assert!(validate_password("éééééééé").is_ok());
    assert!(validate_password(&"é".repeat(128)).is_ok());
    let e = validate_password(&"é".repeat(129)).unwrap_err();
    assert_eq!(e.reason(), "Password must be at most 128 characters, got 129");
}
