use likes_scraper::discovery::{discover, ScanEntry};
use likes_scraper::registry::{rerun_directive, write_entry, write_migrations_mod};

const HEAD: &str = "use {\n    diesel::sqlite::SqliteConnection,\n    diesel::migration::Migration,\n};\n\n// Each migration is handed the full connection rather than a SimpleConnection.\npub fn embedded_migrations<'a>(conn: &'a SqliteConnection) -> Vec<Box<dyn Migration + 'a>> {\n    vec![\n        ";
const TAIL: &str = "\n    ]\n}\n";

#[test]
fn registry_lists_a_before_b() {
    let names = vec!["m20200101000000_a.rs".to_string(), "m20200102000000_b.rs".to_string()];
    let mut out = String::new();
    write_migrations_mod(&mut out, &names);
    let expected = format!(
        "{}Box::new(m20200101000000_a::Migration{{conn}}),\n        Box::new(m20200102000000_b::Migration{{conn}}),{}",
        HEAD, TAIL
    );
    assert_eq!(out, expected);
    let a = out.find("m20200101000000_a").unwrap();
    let b = out.find("m20200102000000_b").unwrap();
    assert!(a < b);
}

#[test]
fn registry_of_a_discovered_listing_is_in_time_order() {
    let entries = vec![
        ScanEntry { name: "m20200102000000_b.rs".to_string(), is_file: true },
        ScanEntry { name: "mod.rs".to_string(), is_file: true },
        ScanEntry { name: "m20200101000000_a.rs".to_string(), is_file: true },
    ];
    let names = discover(&entries).unwrap();
    let mut out = String::new();
    write_migrations_mod(&mut out, &names);
    let a = out.find("m20200101000000_a::Migration{conn}").unwrap();
    let b = out.find("m20200102000000_b::Migration{conn}").unwrap();
    assert!(a < b);
    assert!(!out.contains("mod::Migration"));
}

#[test]
fn registry_of_one_migration() {
    let names = vec!["m20200713065658_create_tweets.rs".to_string()];
    let mut out = String::new();
    write_migrations_mod(&mut out, &names);
    let expected =
        format!("{}Box::new(m20200713065658_create_tweets::Migration{{conn}}),{}", HEAD, TAIL);
    assert_eq!(out, expected);
}

#[test]
fn registry_of_no_migration() {
    let mut out = String::new();
    write_migrations_mod(&mut out, &Vec::new());
    assert_eq!(out, format!("{}{}", HEAD, TAIL));
}

#[test]
fn registry_is_appended() {
    let mut out = String::from("// above\n");
    write_migrations_mod(&mut out, &Vec::new());
    assert_eq!(out, format!("// above\n{}{}", HEAD, TAIL));
}

#[test]
fn entry_names_the_module() {
    let mut out = String::from("[");
    write_entry(&mut out, "m20200101000000_a.rs");
    assert_eq!(out, "[Box::new(m20200101000000_a::Migration{conn}),");
    let mut out = String::new();
    write_entry(&mut out, "m20200101000000_caf\u{e9}.rs");
    assert_eq!(out, "Box::new(m20200101000000_caf\u{e9}::Migration{conn}),");
}

#[test]
fn rerun_directive_names_the_directory() {
    assert_eq!(rerun_directive("src/migrations/"), "cargo:rerun-if-changed=src/migrations/");
    assert_eq!(rerun_directive(""), "cargo:rerun-if-changed=");
}
