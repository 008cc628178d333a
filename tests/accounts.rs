use slac::account::{
    authenticate, check_registration, judge_login, register_user, registration_record,
    validate_password, AccountError, InvalidInput, LoginReq, RegisterRequest,
};
use slac::channel::{channel_record, check_membership_change, ChannelError, CreateChannelRequest};
use slac::strength;

fn request(name: &str, display: &str, pwd: &str) -> RegisterRequest {
    RegisterRequest {
        username: name.to_string(),
        password: pwd.to_string(),
        avatar: "http://localhost/a.png".to_string(),
        display_name: display.to_string(),
    }
}

#[test]
fn password_rules_in_order() {
    assert_eq!(validate_password("Ab1!", 8, 20), Err(InvalidInput::PasswordLength));
    assert_eq!(validate_password("Ab1!Ab1!Ab1!Ab1!Ab1!x", 8, 20), Err(InvalidInput::PasswordLength));
    assert_eq!(validate_password("Abcdef1!é", 8, 20), Err(InvalidInput::PasswordNotAscii));
    assert_eq!(validate_password("ABCDEF1!", 8, 20), Err(InvalidInput::PasswordNoLower));
    assert_eq!(validate_password("abcdef1!", 8, 20), Err(InvalidInput::PasswordNoUpper));
    assert_eq!(validate_password("Abcdefg!", 8, 20), Err(InvalidInput::PasswordNoDigit));
    assert_eq!(validate_password("Abcdefg1", 8, 20), Err(InvalidInput::PasswordNoSpecial));
    assert_eq!(validate_password("Abc def1~", 8, 20), Ok(()));
    assert_eq!(validate_password("Abcdef1!", 8, 8), Ok(()));
}

#[test]
fn error_messages() {
    assert_eq!(InvalidInput::PasswordLength.message(), "password too short/long");
    assert_eq!(InvalidInput::UserName.message(), "user name is invalid");
}

#[test]
fn strength_test() {
    assert!(strength::validate_password("Abcdef1!"));
    assert!(strength::validate_password("xY9{zzzzzz"));
    assert!(!strength::validate_password("Abcde1!"));
    assert!(!strength::validate_password("Abcdef1?"));
    assert!(!strength::validate_password("abcdef1!"));
    assert!(!strength::validate_password("ABCDEF1!"));
    assert!(!strength::validate_password("Abcdefg!"));
    assert!(!strength::validate_password("Abcd\nef1!"));
    assert!(!strength::validate_password(""));
}

#[test]
fn registration_checks_in_order() {
    assert_eq!(
        check_registration(&request("bob", "Bob", "Abcdef1!"), false),
        Err(AccountError::Invalid(InvalidInput::UserName))
    );
    assert_eq!(check_registration(&request("bobby1", "Bob", "Abcdef1!"), true), Err(AccountError::NameTaken));
    assert_eq!(
        check_registration(&request("bobby1", "", "Abcdef1!"), false),
        Err(AccountError::Invalid(InvalidInput::DisplayName))
    );
    assert_eq!(
        check_registration(&request("bobby1", "Bob", "abcdef1!"), false),
        Err(AccountError::Invalid(InvalidInput::PasswordNoUpper))
    );
    assert_eq!(check_registration(&request("bobby1", "Bob", "Abcdef1!"), false), Ok(()));
}

#[test]
fn registration_record_fields() {
    let r = registration_record(&request("bobby1", "Bob", "Abcdef1!"), "h".to_string());
    assert_eq!(r.username, "bobby1");
    assert_eq!(r.avatar_url, "http://localhost/a.png");
    assert_eq!(r.password_hash, "h");
    assert_eq!(r.display_name, "Bob");
    assert!(r.is_active);
}

#[test]
fn register_then_log_in() {
    let req = request("bobby1", "Bob", "Abcdef1!");
    let user = register_user(&req, false).unwrap();
    assert_ne!(user.password_hash, "Abcdef1!");
    assert!(user.password_hash.starts_with("$argon2id$"));
    let good = LoginReq { username: "bobby1".to_string(), password: "Abcdef1!".to_string() };
    assert_eq!(authenticate(&good, Some(&user.password_hash)), Ok(()));
    let bad = LoginReq { username: "bobby1".to_string(), password: "Abcdef1?".to_string() };
    assert_eq!(authenticate(&bad, Some(&user.password_hash)), Err(AccountError::Unauthorized));
    assert_eq!(register_user(&req, true), Err(AccountError::NameTaken));
}

#[test]
fn log_in_failures() {
    let req = LoginReq { username: "nobody".to_string(), password: "x".to_string() };
    assert_eq!(authenticate(&req, None), Err(AccountError::NotFound));
    assert_eq!(authenticate(&req, Some("not a hash")), Err(AccountError::Hashing));
    assert_eq!(judge_login(None), Err(AccountError::Hashing));
    assert_eq!(judge_login(Some(false)), Err(AccountError::Unauthorized));
    assert_eq!(judge_login(Some(true)), Ok(()));
}

#[test]
fn channel_checks() {
    let req = CreateChannelRequest {
        ch_name: "general".to_string(),
        ch_desc: "everything".to_string(),
        creator_id: 3,
        is_private: true,
    };
    assert_eq!(channel_record(&req, false), Err(ChannelError::UserNotFound(3)));
    let ch = channel_record(&req, true).unwrap();
    assert_eq!(ch.ch_name, "general");
    assert_eq!(ch.ch_description, "everything");
    assert_eq!(ch.creator_id, 3);
    assert!(ch.is_private);
    assert!(!ch.is_archived);
    assert_eq!(check_membership_change(5, false, false), Err(ChannelError::ChannelNotFound));
    assert_eq!(check_membership_change(5, true, false), Err(ChannelError::UserNotFound(5)));
    assert_eq!(check_membership_change(5, true, true), Ok(()));
}
