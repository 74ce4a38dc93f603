//! The naming convention of migration source files.
//!
//! A migration lives in a file named `m<14 digits>_<description>.rs`. The
//! fourteen digits are a UTC timestamp and double as the migration's version.

use vstd::prelude::*;
use vstd::string::*;

verus! {

/// How many digits the timestamp of a migration file name has.
pub const TIMESTAMP_DIGITS: usize = 14;

/// Whether `c` is one of `0` to `9`.
pub open spec fn is_ascii_digit(c: char) -> bool {
    '0' <= c && c <= '9'
}

/// The extension of a source file, dot included.
pub open spec fn source_suffix() -> Seq<char> {
    seq!['.', 'r', 's']
}

/// Whether a file name has the source extension: it ends in `.rs` and
/// something stands before the dot.
pub open spec fn has_source_extension(name: Seq<char>) -> bool {
    name.len() > 3 && name.subrange(name.len() - 3, name.len() as int) == source_suffix()
}

/// A file name without its last three characters (its extension).
pub open spec fn stem_of(name: Seq<char>) -> Seq<char> {
    name.subrange(0, name.len() - 3)
}

/// Whether a module name follows the convention: the marker `m`, exactly
/// fourteen digits, an underscore, and a description that is not empty.
pub open spec fn is_migration_stem(stem: Seq<char>) -> bool {
    &&& stem.len() >= 17
    &&& stem[0] == 'm'
    &&& forall|i: int| 1 <= i <= 14 ==> is_ascii_digit(#[trigger] stem[i])
    &&& stem[15] == '_'
}

/// Whether a file name is that of a migration: a conforming module name
/// followed by the source extension.
pub open spec fn is_migration_file_name(name: Seq<char>) -> bool {
    has_source_extension(name) && is_migration_stem(stem_of(name))
}

/// The version that a migration file name carries: its fourteen digits.
pub open spec fn version_of(name: Seq<char>) -> Seq<char> {
    name.subrange(1, 15)
}

/// Tells whether `c` is an ASCII digit.
pub fn char_is_digit(c: char) -> (r: bool)
    ensures
        r == is_ascii_digit(c),
{
    '0' <= c && c <= '9'
}

/// Tells whether `name` ends in `.rs` with something before the dot.
pub fn name_has_source_extension(name: &str) -> (r: bool)
    ensures
        r == has_source_extension(name@),
{
    let n: usize = name.unicode_len();
    if n <= 3 {
        return false;
    }
    let r = name.get_char(n - 3) == '.' && name.get_char(n - 2) == 'r' && name.get_char(n - 1)
        == 's';
    proof {
        let tail = name@.subrange(n - 3, n as int);
        assert(tail[0] == name@[n - 3]);
        assert(tail[1] == name@[n - 2]);
        assert(tail[2] == name@[n - 1]);
        if r {
            assert(tail =~= source_suffix());
        }
    }
    r
}

/// Validates a migration file name against the convention
/// `m<14 digits>_<description>.rs`.
pub fn validate_migration_name(name: &str) -> (ok: bool)
    ensures
        ok == is_migration_file_name(name@),
{
    if !name_has_source_extension(name) {
        return false;
    }
    let n: usize = name.unicode_len();
    if n < 20 {
        return false;
    }
    let ghost stem = stem_of(name@);
    assert(forall|i: int| 0 <= i < n - 3 ==> stem[i] == name@[i]);
    if name.get_char(0) != 'm' {
        return false;
    }
    let mut i: usize = 1;
    while i <= TIMESTAMP_DIGITS
        invariant
            1 <= i <= TIMESTAMP_DIGITS + 1,
            n == name@.len(),
            n >= 20,
            stem == stem_of(name@),
            forall|k: int| 0 <= k < n - 3 ==> stem[k] == name@[k],
            forall|k: int| 1 <= k < i ==> is_ascii_digit(#[trigger] stem[k]),
        decreases TIMESTAMP_DIGITS + 1 - i,
    {
        if !char_is_digit(name.get_char(i)) {
            assert(!is_ascii_digit(stem[i as int]));
            return false;
        }
        i += 1;
    }
    name.get_char(TIMESTAMP_DIGITS + 1) == '_'
}

/// Extracts the version of a migration from its file name.
pub fn version_from_filename(name: &str) -> (version: String)
    requires
        is_migration_file_name(name@),
    ensures
        version@ == version_of(name@),
        version@.len() == TIMESTAMP_DIGITS,
        forall|i: int| 0 <= i < version@.len() ==> is_ascii_digit(#[trigger] version@[i]),
{
    let version = String::from_str(name.substring_char(1, TIMESTAMP_DIGITS + 1));
    proof {
        let stem = stem_of(name@);
        assert forall|i: int| 0 <= i < version@.len() implies is_ascii_digit(
            #[trigger] version@[i],
        ) by {
            assert(version@[i] == stem[i + 1]);
        }
    }
    version
}

/// What the convention says of a name that follows it: the marker, then
/// exactly fourteen digits, then an underscore, then a description that is
/// not empty, then the source extension.
pub proof fn lemma_conforming_name_shape(name: Seq<char>)
    requires
        is_migration_file_name(name),
    ensures
        name[0] == 'm',
        forall|i: int| 1 <= i <= 14 ==> is_ascii_digit(#[trigger] name[i]),
        name[15] == '_',
        !is_ascii_digit(name[15]),
        name.len() >= 20,
        name.subrange(16, name.len() - 3).len() >= 1,
        name.subrange(name.len() - 3, name.len() as int) == source_suffix(),
{
    let stem = stem_of(name);
    assert(stem[0] == name[0]);
    assert(stem[15] == name[15]);
    assert forall|i: int| 1 <= i <= 14 implies is_ascii_digit(#[trigger] name[i]) by {
        assert(is_ascii_digit(stem[i]));
    }
}

} // verus!
