use acp::error::AppError;

#[test]
fn messages_name_the_kind_and_the_detail() {
    assert_eq!(AppError::Browser("b".to_string()).message(), "Browser error: b");
    assert_eq!(AppError::Keyring("k".to_string()).message(), "Keyring error: k");
    assert_eq!(AppError::Network("n".to_string()).message(), "Network error: n");
    assert_eq!(AppError::Io("i".to_string()).message(), "IO error: i");
    assert_eq!(AppError::LoginFailed("l".to_string()).message(), "Login failed: l");
    assert_eq!(AppError::Service("s".to_string()).message(), "Service error: s");
    assert_eq!(AppError::Service(String::new()).message(), "Service error: ");
}
