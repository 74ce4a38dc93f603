use likes_scraper::naming::{
    char_is_digit, name_has_source_extension, validate_migration_name, version_from_filename,
    TIMESTAMP_DIGITS,
};

#[test]
fn accepts_conforming_names() {
    assert!(validate_migration_name("m20200101000000_a.rs"));
    assert!(validate_migration_name("m20200102000000_b.rs"));
    assert!(validate_migration_name("m20200713065658_create_tweets.rs"));
    assert!(validate_migration_name("m00000000000000__.rs"));
}

#[test]
fn rejects_missing_marker() {
    assert!(!validate_migration_name("x20200101000000_a.rs"));
    assert!(!validate_migration_name("20200101000000_a.rs"));
    assert!(!validate_migration_name("M20200101000000_a.rs"));
}

#[test]
fn rejects_wrong_digit_count() {
    assert!(!validate_migration_name("m2020010100000_a.rs"));
    assert!(!validate_migration_name("m202001010000000_a.rs"));
    assert!(!validate_migration_name("m_a.rs"));
}

#[test]
fn rejects_non_digits_in_timestamp() {
    assert!(!validate_migration_name("m2020010100000a_b.rs"));
    assert!(!validate_migration_name("m2020-01-01T000_b.rs"));
    assert!(!validate_migration_name("m\u{0662}0200101000000_a.rs"));
}

#[test]
fn rejects_missing_underscore() {
    assert!(!validate_migration_name("m20200101000000-a.rs"));
    assert!(!validate_migration_name("m20200101000000a.rs"));
}

#[test]
fn rejects_empty_description() {
    assert!(!validate_migration_name("m20200101000000_.rs"));
}

#[test]
fn rejects_names_without_source_extension() {
    assert!(!validate_migration_name("m20200101000000_a"));
    assert!(!validate_migration_name("m20200101000000_a.txt"));
    assert!(!validate_migration_name("m20200101000000_ars"));
}

#[test]
fn rejects_short_and_reserved_names() {
    assert!(!validate_migration_name(""));
    assert!(!validate_migration_name("m"));
    assert!(!validate_migration_name(".rs"));
    assert!(!validate_migration_name("mod.rs"));
}

#[test]
fn accepts_description_beyond_ascii() {
    assert!(validate_migration_name("m20200101000000_caf\u{e9}.rs"));
}

#[test]
fn source_extension_needs_a_stem() {
    assert!(name_has_source_extension("a.rs"));
    assert!(name_has_source_extension("mod.rs"));
    assert!(name_has_source_extension("a.b.rs"));
    assert!(!name_has_source_extension(".rs"));
    assert!(!name_has_source_extension("rs"));
    assert!(!name_has_source_extension("a.txt"));
    assert!(!name_has_source_extension("a.RS"));
    assert!(!name_has_source_extension(""));
}

#[test]
fn version_is_the_timestamp() {
    assert_eq!(version_from_filename("m20200713065658_create_tweets.rs"), "20200713065658");
    assert_eq!(version_from_filename("m20200101000000_a.rs"), "20200101000000");
    assert_eq!(version_from_filename("m20200101000000_a_b_c.rs").len(), TIMESTAMP_DIGITS);
}

#[test]
fn digits_are_zero_to_nine() {
    assert!(char_is_digit('0'));
    assert!(char_is_digit('9'));
    assert!(!char_is_digit('a'));
    assert!(!char_is_digit('/'));
    assert!(!char_is_digit(':'));
    assert!(!char_is_digit('\u{0661}'));
}
