use likes_scraper::credentials::{Credentials, KeyPair, Token, UserID};
use likes_scraper::migration::Migration;

fn pair(key: &str, secret: &str) -> KeyPair {
    KeyPair::new(key.to_string(), secret.to_string())
}

#[test]
fn credentials_keep_what_they_were_made_of() {
    let token = Token::Access { consumer: pair("ck", "cs"), access: pair("ak", "as") };
    let creds = Credentials::new(token, 42, "someone".to_string());
    assert_eq!(creds.user_id, 42);
    assert_eq!(creds.username, "someone");
    assert_eq!(
        creds.token,
        Token::Access { consumer: pair("ck", "cs"), access: pair("ak", "as") }
    );
}

#[test]
fn user_is_addressed_by_number() {
    let creds = Credentials::new(Token::Bearer("b".to_string()), u64::MAX, String::new());
    assert_eq!(creds.user_id(), UserID::ID(u64::MAX));
    let creds = Credentials::new(Token::Bearer("b".to_string()), 0, "zero".to_string());
    assert_eq!(creds.user_id(), UserID::ID(0));
}

#[test]
fn key_pair_duplicate_is_equal() {
    let p = pair("k", "s");
    assert_eq!(p.duplicate(), p);
    assert_eq!(p.key, "k");
    assert_eq!(p.secret, "s");
}

#[test]
fn migration_needs_a_conforming_name() {
    let m = Migration::new(
        "m20200713065658_create_tweets.rs".to_string(),
        "CREATE TABLE t (id INTEGER);".to_string(),
        "DROP TABLE t;".to_string(),
    )
    .unwrap();
    assert_eq!(m.version(), "20200713065658");
    assert_eq!(m.run(), "CREATE TABLE t (id INTEGER);");
    assert_eq!(m.revert(), "DROP TABLE t;");
    assert_eq!(m.file_name, "m20200713065658_create_tweets.rs");
    assert_eq!(Migration::new("create_tweets.rs".to_string(), String::new(), String::new()), None);
    assert_eq!(Migration::new("mod.rs".to_string(), String::new(), String::new()), None);
}
