use treewalk::{configure, provision_key, ConfigError, Key, KeyError, KEY_LEN};

const GOOD: &str = "0123456789abcdef0123456789abcdef";

fn args(list: &[&str]) -> Vec<String> {
    list.iter().map(|s| s.to_string()).collect()
}

#[test]
fn key_of_exact_length_is_accepted() {
    let k = Key::new(GOOD.to_string()).unwrap();
    assert_eq!(k.as_str(), GOOD);
    assert_eq!(k.as_bytes().len(), KEY_LEN);
}

#[test]
fn short_and_long_keys_are_refused() {
    assert_eq!(Key::new("short".to_string()).err(), Some(KeyError::WrongLength { len: 5 }));
    let long = format!("{}x", GOOD);
    assert_eq!(Key::new(long).err(), Some(KeyError::WrongLength { len: 33 }));
    assert_eq!(Key::new(String::new()).err(), Some(KeyError::WrongLength { len: 0 }));
}

#[test]
fn key_length_counts_bytes_not_chars() {
    // sixteen two-byte characters make a 32-byte key
    let k = Key::new("é".repeat(16)).unwrap();
    assert_eq!(k.as_bytes().len(), 32);
    // thirty-two of them make 64 bytes
    assert_eq!(Key::new("é".repeat(32)).err(), Some(KeyError::WrongLength { len: 64 }));
}

#[test]
fn custom_key_wins_over_default() {
    let other = "ffffffffffffffffffffffffffffffff".to_string();
    let k = provision_key(Some(other.clone()), GOOD.to_string()).unwrap();
    assert_eq!(k.as_str(), other);
    let d = provision_key(None, GOOD.to_string()).unwrap();
    assert_eq!(d.as_str(), GOOD);
}

#[test]
fn bad_custom_key_is_refused_even_with_good_default() {
    let r = provision_key(Some("abc".to_string()), GOOD.to_string());
    assert_eq!(r.err(), Some(KeyError::WrongLength { len: 3 }));
}

#[test]
fn missing_target_is_refused() {
    assert_eq!(configure(&args(&[]), GOOD.to_string()).err(), Some(ConfigError::MissingTarget));
    assert_eq!(configure(&args(&["prog"]), GOOD.to_string()).err(), Some(ConfigError::MissingTarget));
    assert_eq!(
        configure(&args(&["prog", "-e"]), GOOD.to_string()).err(),
        Some(ConfigError::MissingTarget)
    );
}

#[test]
fn configure_uses_target_and_default_key() {
    let c = configure(&args(&["prog", "-e", "/data"]), GOOD.to_string()).unwrap();
    assert_eq!(c.target, "/data");
    assert_eq!(c.action, treewalk::Action::Encrypt);
    assert_eq!(c.key.as_str(), GOOD);
}

#[test]
fn configure_uses_custom_key() {
    let custom = "ffffffffffffffffffffffffffffffff";
    let c = configure(&args(&["prog", "-e", "/data", custom]), GOOD.to_string()).unwrap();
    assert_eq!(c.key.as_str(), custom);
}

#[test]
fn configure_refuses_key_of_wrong_length() {
    let r = configure(&args(&["prog", "-e", "/data", "tooshort"]), GOOD.to_string());
    assert_eq!(r.err(), Some(ConfigError::InvalidKey(KeyError::WrongLength { len: 8 })));
    let r = configure(&args(&["prog", "-e", "/data"]), "x".to_string());
    assert_eq!(r.err(), Some(ConfigError::InvalidKey(KeyError::WrongLength { len: 1 })));
}
