//! Discovery of the migrations in a directory listing.
//!
//! The caller lists the directory and hands over one entry per item found
//! there. Discovery checks the entries, sets the aggregator file aside,
//! checks the names that remain and puts them in order.

use vstd::prelude::*;
use vstd::string::*;
use vstd::seq_lib::*;
use crate::naming::{
    has_source_extension, is_migration_file_name, name_has_source_extension,
    validate_migration_name,
};
use crate::ordering::{lemma_sorted_is_unique, name_seq, sort_names, sorted};

verus! {

/// One item of a directory listing.
#[derive(Debug, PartialEq, Eq)]
pub struct ScanEntry {
    /// The item's file name, without the directory.
    pub name: String,
    /// Whether the item is a regular file.
    pub is_file: bool,
}

/// Why a directory listing holds no valid set of migrations.
#[derive(Debug, PartialEq, Eq)]
pub enum DiscoveryError {
    /// The named entry is not a file.
    Subdirectory(String),
    /// The named file does not have the source extension.
    NotSource(String),
    /// The named files do not follow the naming convention.
    BadNames(Vec<String>),
}

/// The name of the file that gathers the migrations and is none itself.
pub open spec fn aggregator_name() -> Seq<char> {
    seq!['m', 'o', 'd', '.', 'r', 's']
}

/// Whether an entry may stand in a migrations directory: a file with the
/// source extension.
pub open spec fn acceptable(e: ScanEntry) -> bool {
    e.is_file && has_source_extension(e.name@)
}

/// Whether every entry is acceptable.
pub open spec fn all_acceptable(entries: Seq<ScanEntry>) -> bool {
    forall|j: int| 0 <= j < entries.len() ==> acceptable(#[trigger] entries[j])
}

/// Whether entry `i` is the first that is not acceptable.
pub open spec fn first_unacceptable(entries: Seq<ScanEntry>, i: int) -> bool {
    &&& 0 <= i < entries.len()
    &&& !acceptable(entries[i])
    &&& all_acceptable(entries.take(i))
}

/// The names of the entries, in the order of the listing.
pub open spec fn entry_names(entries: Seq<ScanEntry>) -> Seq<Seq<char>> {
    Seq::new(entries.len(), |i: int| entries[i].name@)
}

/// The test that sets the aggregator file aside.
pub open spec fn is_candidate() -> spec_fn(Seq<char>) -> bool {
    |n: Seq<char>| n != aggregator_name()
}

/// The test that picks the names which break the convention.
pub open spec fn is_bad_name() -> spec_fn(Seq<char>) -> bool {
    |n: Seq<char>| !is_migration_file_name(n)
}

/// The names that are held against the convention: all but the aggregator's,
/// in the order of the listing.
pub open spec fn candidates(entries: Seq<ScanEntry>) -> Seq<Seq<char>> {
    entry_names(entries).filter(is_candidate())
}

/// The names among `names` that break the convention, in the same order.
pub open spec fn bad_names(names: Seq<Seq<char>>) -> Seq<Seq<char>> {
    names.filter(is_bad_name())
}

/// Whether `result` is what discovery owes for `entries`.
///
/// The first entry that is not acceptable decides: it is reported as a
/// subdirectory if it is no file, else as not being source. With every entry
/// acceptable, the candidates that break the convention are reported, all
/// of them. With none of those, the result is the candidates in lexical
/// order.
pub open spec fn discovered(
    entries: Seq<ScanEntry>,
    result: Result<Vec<String>, DiscoveryError>,
) -> bool {
    match result {
        Ok(names) => {
            &&& all_acceptable(entries)
            &&& bad_names(candidates(entries)).len() == 0
            &&& sorted(name_seq(names@))
            &&& name_seq(names@).to_multiset() == candidates(entries).to_multiset()
        },
        Err(DiscoveryError::Subdirectory(name)) => exists|i: int|
            #[trigger] first_unacceptable(entries, i) && !entries[i].is_file && name@
                == entries[i].name@,
        Err(DiscoveryError::NotSource(name)) => exists|i: int|
            #[trigger] first_unacceptable(entries, i) && entries[i].is_file && name@
                == entries[i].name@,
        Err(DiscoveryError::BadNames(bad)) => {
            &&& all_acceptable(entries)
            &&& bad@.len() > 0
            &&& name_seq(bad@) == bad_names(candidates(entries))
        },
    }
}

/// Tells whether `name` is the aggregator's.
pub fn is_aggregator(name: &String) -> (r: bool)
    ensures
        r == (name@ == aggregator_name()),
{
    let reserved = String::from_str("mod.rs");
    proof {
        reveal_strlit("mod.rs");
        assert(reserved@ =~= aggregator_name());
    }
    *name == reserved
}

/// Checks the entries one by one and gathers the candidates' names.
///
/// Fails at the first entry that is no file or has not the source extension.
pub fn collect_candidates(entries: &Vec<ScanEntry>) -> (r: Result<Vec<String>, DiscoveryError>)
    ensures
        match r {
            Ok(names) => all_acceptable(entries@) && name_seq(names@) == candidates(entries@),
            Err(DiscoveryError::Subdirectory(name)) => exists|i: int|
                #[trigger] first_unacceptable(entries@, i) && !entries@[i].is_file && name@
                    == entries@[i].name@,
            Err(DiscoveryError::NotSource(name)) => exists|i: int|
                #[trigger] first_unacceptable(entries@, i) && entries@[i].is_file && name@
                    == entries@[i].name@,
            Err(DiscoveryError::BadNames(_)) => false,
        },
{
    let mut names: Vec<String> = Vec::new();
    let mut i: usize = 0;
    proof {
        reveal(Seq::filter);
        assert(entry_names(entries@).take(0) =~= Seq::<Seq<char>>::empty());
        assert(name_seq(names@) =~= entry_names(entries@).take(0).filter(is_candidate()));
    }
    while i < entries.len()
        invariant
            i <= entries@.len(),
            all_acceptable(entries@.take(i as int)),
            name_seq(names@) == entry_names(entries@).take(i as int).filter(is_candidate()),
        decreases entries@.len() - i,
    {
        let entry = &entries[i];
        if !entry.is_file {
            assert(first_unacceptable(entries@, i as int));
            return Err(DiscoveryError::Subdirectory(entry.name.clone()));
        }
        if !name_has_source_extension(entry.name.as_str()) {
            assert(first_unacceptable(entries@, i as int));
            return Err(DiscoveryError::NotSource(entry.name.clone()));
        }
        proof {
            let all = entry_names(entries@);
            assert(all.take(i + 1) =~= all.take(i as int).push(entry.name@));
            all.take(i as int).lemma_filter_push(entry.name@, is_candidate());
            assert forall|j: int| 0 <= j < i + 1 implies acceptable(
                #[trigger] entries@.take(i + 1)[j],
            ) by {
                if j < i {
                    assert(entries@.take(i + 1)[j] == entries@.take(i as int)[j]);
                }
            }
        }
        if !is_aggregator(&entry.name) {
            let ghost before = name_seq(names@);
            names.push(entry.name.clone());
            assert(name_seq(names@) =~= before.push(entry.name@));
        }
        i += 1;
    }
    proof {
        assert(entries@.take(i as int) =~= entries@);
        assert(entry_names(entries@).take(i as int) =~= entry_names(entries@));
    }
    Ok(names)
}

/// Gathers the names that break the naming convention, in their order.
pub fn collect_bad_names(names: &Vec<String>) -> (bad: Vec<String>)
    ensures
        name_seq(bad@) == bad_names(name_seq(names@)),
        bad@.len() == 0 <==> forall|j: int|
            0 <= j < names@.len() ==> is_migration_file_name(#[trigger] names@[j]@),
{
    let mut bad: Vec<String> = Vec::new();
    let mut i: usize = 0;
    proof {
        reveal(Seq::filter);
        assert(name_seq(names@).take(0) =~= Seq::<Seq<char>>::empty());
        assert(name_seq(bad@) =~= name_seq(names@).take(0).filter(is_bad_name()));
    }
    while i < names.len()
        invariant
            i <= names@.len(),
            name_seq(bad@) == name_seq(names@).take(i as int).filter(is_bad_name()),
            bad@.len() == 0 <==> forall|j: int|
                0 <= j < i ==> is_migration_file_name(#[trigger] names@[j]@),
        decreases names@.len() - i,
    {
        proof {
            let all = name_seq(names@);
            assert(all.take(i + 1) =~= all.take(i as int).push(names@[i as int]@));
            all.take(i as int).lemma_filter_push(names@[i as int]@, is_bad_name());
        }
        if !validate_migration_name(names[i].as_str()) {
            let ghost before = name_seq(bad@);
            bad.push(names[i].clone());
            assert(name_seq(bad@) =~= before.push(names@[i as int]@));
        }
        i += 1;
    }
    proof {
        assert(name_seq(names@).take(i as int) =~= name_seq(names@));
    }
    bad
}

/// Discovers the migrations in a directory listing.
///
/// Returns their file names in lexical order, or the reason why the listing
/// is refused, with the offending name or names.
pub fn discover(entries: &Vec<ScanEntry>) -> (r: Result<Vec<String>, DiscoveryError>)
    ensures
        discovered(entries@, r),
        r matches Ok(names) ==> forall|k: int|
            0 <= k < names@.len() ==> is_migration_file_name(#[trigger] names@[k]@),
{
    let names = match collect_candidates(entries) {
        Ok(names) => names,
        Err(e) => {
            return Err(e);
        },
    };
    let bad = collect_bad_names(&names);
    if bad.len() > 0 {
        return Err(DiscoveryError::BadNames(bad));
    }
    let out = sort_names(&names);
    proof {
        broadcast use group_to_multiset_ensures;

        assert(name_seq(bad@).len() == bad@.len());
        let found = name_seq(out@);
        let given = name_seq(names@);
        assert forall|k: int| 0 <= k < out@.len() implies is_migration_file_name(
            #[trigger] out@[k]@,
        ) by {
            assert(found[k] == out@[k]@);
            assert(found.contains(found[k]));
            assert(given.to_multiset().count(found[k]) > 0);
            assert(given.contains(found[k]));
            let j = choose|j: int| 0 <= j < given.len() && given[j] == found[k];
            assert(given[j] == names@[j]@);
        }
    }
    Ok(out)
}

/// A listing that holds a subdirectory, or a file without the source
/// extension, is refused, and the error names such an entry: the first of
/// them in the listing.
pub proof fn lemma_stray_entry_is_reported(
    entries: Seq<ScanEntry>,
    result: Result<Vec<String>, DiscoveryError>,
    k: int,
)
    requires
        discovered(entries, result),
        0 <= k < entries.len(),
        !acceptable(entries[k]),
    ensures
        match result {
            Err(DiscoveryError::Subdirectory(name)) => exists|i: int|
                0 <= i <= k && !(#[trigger] entries[i]).is_file && entries[i].name@ == name@,
            Err(DiscoveryError::NotSource(name)) => exists|i: int|
                0 <= i <= k && (#[trigger] entries[i]).is_file && !has_source_extension(
                    entries[i].name@,
                ) && entries[i].name@ == name@,
            _ => false,
        },
{
    match result {
        Err(DiscoveryError::Subdirectory(name)) => {
            let i = choose|i: int|
                #[trigger] first_unacceptable(entries, i) && !entries[i].is_file && name@
                    == entries[i].name@;
            if i > k {
                assert(acceptable(entries.take(i)[k]));
            }
        },
        Err(DiscoveryError::NotSource(name)) => {
            let i = choose|i: int|
                #[trigger] first_unacceptable(entries, i) && entries[i].is_file && name@
                    == entries[i].name@;
            if i > k {
                assert(acceptable(entries.take(i)[k]));
            }
        },
        _ => {
            assert(acceptable(entries[k]));
        },
    }
}

/// A listing has one outcome. Two results that discovery may give for the
/// same entries agree: both succeed with the same names in the same order,
/// or both fail in the same way with the same name or names.
pub proof fn lemma_discovery_has_one_outcome(
    entries: Seq<ScanEntry>,
    first: Result<Vec<String>, DiscoveryError>,
    second: Result<Vec<String>, DiscoveryError>,
)
    requires
        discovered(entries, first),
        discovered(entries, second),
    ensures
        match (first, second) {
            (Ok(a), Ok(b)) => name_seq(a@) == name_seq(b@),
            (
                Err(DiscoveryError::Subdirectory(a)),
                Err(DiscoveryError::Subdirectory(b)),
            ) => a@ == b@,
            (Err(DiscoveryError::NotSource(a)), Err(DiscoveryError::NotSource(b))) => a@ == b@,
            (Err(DiscoveryError::BadNames(a)), Err(DiscoveryError::BadNames(b))) => name_seq(a@)
                == name_seq(b@),
            _ => false,
        },
{
    let stray_first: int = match first {
        Err(DiscoveryError::Subdirectory(name)) => choose|i: int|
            #[trigger] first_unacceptable(entries, i) && !entries[i].is_file && name@
                == entries[i].name@,
        Err(DiscoveryError::NotSource(name)) => choose|i: int|
            #[trigger] first_unacceptable(entries, i) && entries[i].is_file && name@
                == entries[i].name@,
        _ => -1,
    };
    let stray_second: int = match second {
        Err(DiscoveryError::Subdirectory(name)) => choose|i: int|
            #[trigger] first_unacceptable(entries, i) && !entries[i].is_file && name@
                == entries[i].name@,
        Err(DiscoveryError::NotSource(name)) => choose|i: int|
            #[trigger] first_unacceptable(entries, i) && entries[i].is_file && name@
                == entries[i].name@,
        _ => -1,
    };
    if stray_first >= 0 && stray_second >= 0 {
        if stray_first < stray_second {
            assert(acceptable(entries.take(stray_second)[stray_first]));
        } else if stray_second < stray_first {
            assert(acceptable(entries.take(stray_first)[stray_second]));
        }
    } else if stray_first >= 0 {
        assert(acceptable(entries[stray_first]));
    } else if stray_second >= 0 {
        assert(acceptable(entries[stray_second]));
    } else {
        match (first, second) {
            (Ok(a), Ok(b)) => {
                lemma_sorted_is_unique(name_seq(a@), name_seq(b@));
            },
            (Err(DiscoveryError::BadNames(a)), Ok(_)) => {
                assert(name_seq(a@).len() == a@.len());
            },
            (Ok(_), Err(DiscoveryError::BadNames(b))) => {
                assert(name_seq(b@).len() == b@.len());
            },
            _ => {},
        }
    }
}

/// With every entry acceptable, discovery succeeds exactly when every name
/// but the aggregator's follows the naming convention.
pub proof fn lemma_discovery_succeeds_iff_names_conform(
    entries: Seq<ScanEntry>,
    result: Result<Vec<String>, DiscoveryError>,
)
    requires
        discovered(entries, result),
        all_acceptable(entries),
    ensures
        result is Ok <==> forall|j: int|
            0 <= j < entries.len() && entries[j].name@ != aggregator_name()
                ==> is_migration_file_name(#[trigger] entries[j].name@),
{
    broadcast use group_filter_ensures;

    let names = entry_names(entries);
    let cands = candidates(entries);
    let bad = bad_names(cands);
    match result {
        Err(DiscoveryError::Subdirectory(name)) => {
            let i = choose|i: int|
                #[trigger] first_unacceptable(entries, i) && !entries[i].is_file && name@
                    == entries[i].name@;
            assert(acceptable(entries[i]));
        },
        Err(DiscoveryError::NotSource(name)) => {
            let i = choose|i: int|
                #[trigger] first_unacceptable(entries, i) && entries[i].is_file && name@
                    == entries[i].name@;
            assert(acceptable(entries[i]));
        },
        Err(DiscoveryError::BadNames(b)) => {
            assert(name_seq(b@).len() == b@.len());
            assert(bad.len() > 0);
            let x = bad[0];
            cands.lemma_filter_pred(is_bad_name(), 0);
            assert(bad.contains(x));
            cands.lemma_filter_contains_rev(is_bad_name(), x);
            names.lemma_filter_contains_rev(is_candidate(), x);
            names.lemma_filter_pred(is_candidate(), cands.index_of(x));
            let j = names.index_of(x);
            assert(names[j] == entries[j].name@);
            assert(!is_migration_file_name(entries[j].name@));
        },
        Ok(_) => {
            assert forall|j: int|
                0 <= j < entries.len() && entries[j].name@
                    != aggregator_name() implies is_migration_file_name(
                #[trigger] entries[j].name@,
            ) by {
                assert(names[j] == entries[j].name@);
                names.lemma_filter_contains(is_candidate(), j);
                let c = cands.index_of(names[j]);
                if !is_migration_file_name(names[j]) {
                    cands.lemma_filter_contains(is_bad_name(), c);
                    assert(bad.len() > 0);
                }
            }
        },
    }
}

} // verus!
