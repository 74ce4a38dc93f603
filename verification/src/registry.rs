//! The source text of the migration registry.
//!
//! The registry is a function that takes a database connection and returns
//! the migrations, each bound to that connection, in the order in which the
//! file names were given. Its text is built here from the file names.

use vstd::prelude::*;
use vstd::string::*;
use crate::naming::{has_source_extension, stem_of};
use crate::ordering::name_seq;

verus! {

/// The text before the first entry.
pub open spec fn registry_head() -> Seq<char> {
    "use {\n    diesel::sqlite::SqliteConnection,\n    diesel::migration::Migration,\n};\n\n// Each migration is handed the full connection rather than a SimpleConnection.\npub fn embedded_migrations<'a>(conn: &'a SqliteConnection) -> Vec<Box<dyn Migration + 'a>> {\n    vec![\n        "@
}

/// The text after the last entry.
pub open spec fn registry_tail() -> Seq<char> {
    "\n    ]\n}\n"@
}

/// What stands between two entries.
pub open spec fn entry_separator() -> Seq<char> {
    "\n        "@
}

/// What an entry starts with.
pub open spec fn entry_open() -> Seq<char> {
    "Box::new("@
}

/// What an entry ends with.
pub open spec fn entry_close() -> Seq<char> {
    "::Migration{conn}),"@
}

/// The entry of one migration: its module, named like the file without the
/// extension, bound to the connection.
pub open spec fn entry_for(file_name: Seq<char>) -> Seq<char> {
    entry_open() + stem_of(file_name) + entry_close()
}

/// The entries of `names`, in their order, with a separator between each two.
pub open spec fn joined_entries(names: Seq<Seq<char>>) -> Seq<char>
    decreases names.len(),
{
    if names.len() == 0 {
        Seq::empty()
    } else if names.len() == 1 {
        entry_for(names[0])
    } else {
        joined_entries(names.drop_last()) + entry_separator() + entry_for(names.last())
    }
}

/// The whole text of the registry for `names`.
pub open spec fn registry_source(names: Seq<Seq<char>>) -> Seq<char> {
    registry_head() + joined_entries(names) + registry_tail()
}

/// What tells the build to run this step again when `dir` has changed.
pub open spec fn rerun_line(dir: Seq<char>) -> Seq<char> {
    "cargo:rerun-if-changed="@ + dir
}

/// The line that tells the build to run this step again when the
/// directory `dir` has changed: when a migration was added, removed or
/// renamed.
pub fn rerun_directive(dir: &str) -> (line: String)
    ensures
        line@ == rerun_line(dir@),
{
    let mut line = String::from_str("cargo:rerun-if-changed=");
    line.append(dir);
    line
}

/// Appends the entry of one migration file to `out`.
pub fn write_entry(out: &mut String, file_name: &str)
    requires
        has_source_extension(file_name@),
    ensures
        final(out)@ == old(out)@ + entry_for(file_name@),
{
    let n: usize = file_name.unicode_len();
    out.append("Box::new(");
    out.append(file_name.substring_char(0, n - 3));
    out.append("::Migration{conn}),");
    assert(out@ =~= old(out)@ + entry_for(file_name@));
}

/// Appends to `out` the source of the registry that lists `migrations` in
/// the order given.
pub fn write_migrations_mod(out: &mut String, migrations: &Vec<String>)
    requires
        forall|i: int|
            0 <= i < migrations@.len() ==> has_source_extension(#[trigger] migrations@[i]@),
    ensures
        final(out)@ == old(out)@ + registry_source(name_seq(migrations@)),
{
    let ghost names = name_seq(migrations@);
    out.append(
        "use {\n    diesel::sqlite::SqliteConnection,\n    diesel::migration::Migration,\n};\n\n// Each migration is handed the full connection rather than a SimpleConnection.\npub fn embedded_migrations<'a>(conn: &'a SqliteConnection) -> Vec<Box<dyn Migration + 'a>> {\n    vec![\n        ",
    );
    let mut i: usize = 0;
    assert(names.take(0) =~= Seq::<Seq<char>>::empty());
    assert(out@ =~= old(out)@ + registry_head() + joined_entries(names.take(0)));
    while i < migrations.len()
        invariant
            i <= migrations@.len(),
            names == name_seq(migrations@),
            forall|k: int|
                0 <= k < migrations@.len() ==> has_source_extension(#[trigger] migrations@[k]@),
            out@ == old(out)@ + registry_head() + joined_entries(names.take(i as int)),
        decreases migrations@.len() - i,
    {
        let ghost so_far = out@;
        if i > 0 {
            out.append("\n        ");
        }
        write_entry(out, migrations[i].as_str());
        proof {
            let upto = names.take(i + 1);
            assert(upto.drop_last() =~= names.take(i as int));
            assert(upto.last() == migrations@[i as int]@);
            if i == 0 {
                assert(joined_entries(names.take(0)) =~= Seq::<char>::empty());
                assert(joined_entries(upto) == entry_for(upto[0]));
            }
            assert(out@ =~= old(out)@ + registry_head() + joined_entries(upto));
        }
        i += 1;
    }
    assert(names.take(i as int) =~= names);
    out.append("\n    ]\n}\n");
    assert(out@ =~= old(out)@ + registry_source(names));
}

} // verus!
