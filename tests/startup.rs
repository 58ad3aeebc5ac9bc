use fishbot::startup::{require_token, StartupError, TOKEN_KEY};

#[test]
fn token_present_is_returned() {
    assert_eq!(require_token(Some("abc".to_string())), Ok("abc".to_string()));
}

#[test]
fn token_missing_is_fatal() {
    let e = require_token(None).unwrap_err();
    assert_eq!(e, StartupError::MissingToken);
    assert_eq!(e.message(), "'DISCORD_TOKEN' was not found");
    assert_eq!(TOKEN_KEY, "DISCORD_TOKEN");
}

#[test]
fn startup_error_messages() {
    assert_eq!(
        StartupError::RegistrationFailed { reason: "denied".to_string() }.message(),
        "command registration failed: denied"
    );
}
