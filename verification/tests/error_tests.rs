use rust_url_shortener::config::Config;
use rust_url_shortener::error::AppError;

#[test]
fn errors_render_with_the_prefix_of_their_kind() {
    assert_eq!(
        AppError::DbError("locked".to_string()).to_string(),
        "Database error: locked"
    );
    assert_eq!(
        AppError::NotFound("abc".to_string()).to_string(),
        "Not found: abc"
    );
    assert_eq!(
        AppError::InvalidInput("empty".to_string()).to_string(),
        "Invalid input: empty"
    );
    assert_eq!(
        AppError::InternalError("oops".to_string()).to_string(),
        "Internal error: oops"
    );
}

#[test]
fn errors_render_an_empty_message() {
    assert_eq!(AppError::DbError(String::new()).to_string(), "Database error: ");
}

#[test]
fn error_clone_keeps_kind_and_message() {
    let errors = vec![
        AppError::DbError("a".to_string()),
        AppError::NotFound("b".to_string()),
        AppError::InvalidInput("c".to_string()),
        AppError::InternalError("d".to_string()),
    ];
    for error in &errors {
        assert_eq!(&error.clone(), error);
    }
    assert_ne!(
        AppError::DbError("a".to_string()),
        AppError::NotFound("a".to_string())
    );
}

#[test]
fn config_takes_both_settings() {
    let config = Config::from_vars(
        Some("urls.db".to_string()),
        Some("https://sho.rt".to_string()),
    )
    .unwrap();
    assert_eq!(config.database_url, "urls.db");
    assert_eq!(config.base_url, "https://sho.rt");
}

#[test]
fn config_base_url_falls_back_to_the_default() {
    let config = Config::from_vars(Some("urls.db".to_string()), None).unwrap();
    assert_eq!(config.database_url, "urls.db");
    assert_eq!(config.base_url, "http://localhost:8080");
}

#[test]
fn config_needs_the_connection_string() {
    let expected = Err(AppError::InternalError(
        "DATABASE_URL must be set".to_string(),
    ));
    assert_eq!(Config::from_vars(None, None), expected);
    assert_eq!(
        Config::from_vars(None, Some("https://sho.rt".to_string())),
        expected
    );
}
