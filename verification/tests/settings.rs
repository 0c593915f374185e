use keyguard::config::Config;
use keyguard::ui::{is_valid_email, sanitize_file_stem, Operation};

#[test]
fn default_config_values() {
    let config = Config::default();
    assert_eq!(config.default_key_type, "ECC");
    assert_eq!(config.default_curve, "P-256");
    assert_eq!(config.encryption_iterations, 100_000);
    assert_eq!(config.key_expiry_days, 365 * 5);
    assert_eq!(config.abu_contact, "contact@abu.mc");
}

#[test]
fn load_returns_defaults_and_save_succeeds() {
    let config = Config::load();
    assert_eq!(config.encryption_iterations, 100_000);
    assert!(config.save().is_ok());
}

#[test]
fn menu_indices_map_to_operations() {
    assert_eq!(Operation::from_index(0), Operation::Generate);
    assert_eq!(Operation::from_index(1), Operation::Decrypt);
    assert_eq!(Operation::from_index(2), Operation::Exit);
    assert_eq!(Operation::from_index(7), Operation::Exit);
}

#[test]
fn email_needs_an_at_sign_and_a_dot() {
    assert!(is_valid_email("alice@example.org"));
    assert!(!is_valid_email("alice@example"));
    assert!(!is_valid_email("alice.example"));
    assert!(!is_valid_email(""));
}

#[test]
fn file_stems_replace_spaces() {
    assert_eq!(sanitize_file_stem(b"Alpha Bank"), b"Alpha_Bank".to_vec());
    assert_eq!(sanitize_file_stem(b"plain"), b"plain".to_vec());
    assert_eq!(sanitize_file_stem(b""), Vec::<u8>::new());
    assert_eq!(sanitize_file_stem(b"  "), b"__".to_vec());
}
