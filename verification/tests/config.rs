use session_service::config::{Config, SECRET_LENGTH};

#[test]
fn default_settings() {
    let config = Config::default();
    assert_eq!(config.port, "3002");
    assert_eq!(config.domain, "localhost:3002");
    assert_eq!(config.token_lifetime, 3600);
    assert_eq!(config.granted_emails, Vec::<String>::new());
    assert_eq!(config.allowed_origins, vec!["http://localhost:3000".to_string()]);
}

#[test]
fn default_secret_is_made_up() {
    let config = Config::default();
    assert_eq!(SECRET_LENGTH, 256);
    assert_eq!(config.secret.chars().count(), 256);
    assert!(config.secret.chars().all(|c| c.is_ascii_alphanumeric()));
    assert_ne!(config.secret, Config::default().secret);
}

#[test]
fn settings_are_copied_field_by_field() {
    let config = Config {
        port: "8080".to_string(),
        secret: "secret".to_string(),
        domain: "example.com".to_string(),
        token_lifetime: 60,
        granted_emails: vec!["john@doe.com".to_string(), "jane@doe.com".to_string()],
        allowed_origins: vec!["https://example.com".to_string()],
    };
    let copy = config.clone();
    assert_eq!(copy.port, "8080");
    assert_eq!(copy.secret, "secret");
    assert_eq!(copy.domain, "example.com");
    assert_eq!(copy.token_lifetime, 60);
    assert_eq!(copy.granted_emails, config.granted_emails);
    assert_eq!(copy.allowed_origins, config.allowed_origins);
}
