//! What holds of every resolution: which entry of the table counts, where the
//! search falls back to, and which candidate wins.

use crate::bytes::{joined, lemma_first_sep_is, split, COLON};
use crate::elf::EntryModel;
use crate::resolve::{
    candidates, default_search_path, first_existing, first_runpath, first_runtime_dep, is_runpath,
    is_runtime_dep, resolved, search_dirs, under_each, ResolveError,
};
use vstd::prelude::*;

verus! {

/// Of the entries that hold a search path, the first counts: later ones do not
/// change the search path.
pub proof fn first_runpath_counts(entries: Seq<EntryModel>, i: int)
    requires
        0 <= i < entries.len(),
        is_runpath(entries[i]),
        forall|j: int| 0 <= j < i ==> !is_runpath(entries[j]),
    ensures
        first_runpath(entries) == entries[i].text(),
    decreases i,
{
    if i > 0 {
        let rest = entries.subrange(1, entries.len() as int);
        assert(rest[i - 1] == entries[i]);
        assert forall|j: int| 0 <= j < i - 1 implies !is_runpath(rest[j]) by {
            assert(rest[j] == entries[j + 1]);
        }
        first_runpath_counts(rest, i - 1);
    }
}

/// A table without an entry that holds a search path has no search path.
pub proof fn no_runpath_entry(entries: Seq<EntryModel>)
    requires
        forall|j: int| 0 <= j < entries.len() ==> !is_runpath(entries[j]),
    ensures
        first_runpath(entries) is None,
    decreases entries.len(),
{
    if entries.len() > 0 {
        let rest = entries.subrange(1, entries.len() as int);
        assert forall|j: int| 0 <= j < rest.len() implies !is_runpath(rest[j]) by {
            assert(rest[j] == entries[j + 1]);
        }
        no_runpath_entry(rest);
    }
}

/// Of the needed libraries that have the runtime's prefix, the first counts.
pub proof fn first_runtime_dep_counts(entries: Seq<EntryModel>, i: int)
    requires
        0 <= i < entries.len(),
        is_runtime_dep(entries[i]),
        forall|j: int| 0 <= j < i ==> !is_runtime_dep(entries[j]),
    ensures
        first_runtime_dep(entries) == entries[i].text(),
    decreases i,
{
    if i > 0 {
        let rest = entries.subrange(1, entries.len() as int);
        assert(rest[i - 1] == entries[i]);
        assert forall|j: int| 0 <= j < i - 1 implies !is_runtime_dep(rest[j]) by {
            assert(rest[j] == entries[j + 1]);
        }
        first_runtime_dep_counts(rest, i - 1);
    }
}

/// A table in which no needed library has the runtime's prefix asks for no
/// runtime, and a table that asks for none holds no such entry.
pub proof fn runtime_dep_absent(entries: Seq<EntryModel>)
    ensures
        first_runtime_dep(entries) is None <==> forall|j: int|
            0 <= j < entries.len() ==> !is_runtime_dep(#[trigger] entries[j]),
    decreases entries.len(),
{
    if entries.len() > 0 {
        let rest = entries.subrange(1, entries.len() as int);
        runtime_dep_absent(rest);
        if is_runtime_dep(entries[0]) {
        } else if first_runtime_dep(rest) is None {
            assert forall|j: int| 0 <= j < entries.len() implies !is_runtime_dep(
                #[trigger] entries[j],
            ) by {
                if j > 0 {
                    assert(rest[j - 1] == entries[j]);
                }
            }
        } else {
            let j = choose|j: int| 0 <= j < rest.len() && is_runtime_dep(#[trigger] rest[j]);
            assert(entries[j + 1] == rest[j]);
        }
    }
}

/// Without a search path in the table, `/usr/lib` is the one directory that is
/// searched, and the runtime's path under it the one candidate.
pub proof fn search_falls_back_to_default(entries: Seq<EntryModel>)
    requires
        first_runpath(entries) is None,
    ensures
        search_dirs(entries) == seq![default_search_path()],
        first_runtime_dep(entries) matches Some(name) ==> candidates(entries) == Some(
            seq![joined(default_search_path(), name)],
        ),
{
    let path = default_search_path();
    lemma_first_sep_is(path, COLON, path.len() as int);
    assert(split(path, COLON) == seq![path]);
    if first_runtime_dep(entries) is Some {
        let name = first_runtime_dep(entries)->0;
        assert(under_each(seq![path], name) =~= seq![joined(path, name)]);
    }
}

/// A table that asks for no C runtime has no candidates, and its resolution
/// fails with `NoRuntimeDependency` whatever files exist.
pub proof fn no_dependency_no_candidates(entries: Seq<EntryModel>, files: Set<Seq<u8>>)
    requires
        forall|j: int| 0 <= j < entries.len() ==> !is_runtime_dep(#[trigger] entries[j]),
    ensures
        candidates(entries) is None,
        resolved(entries, files) == Err::<Seq<u8>, ResolveError>(
            ResolveError::NoRuntimeDependency,
        ),
{
    runtime_dep_absent(entries);
}

/// The first path that exists wins, whatever exists after it.
pub proof fn first_match_wins(paths: Seq<Seq<u8>>, files: Set<Seq<u8>>, i: int)
    requires
        0 <= i < paths.len(),
        files.contains(paths[i]),
        forall|j: int| 0 <= j < i ==> !files.contains(paths[j]),
    ensures
        first_existing(paths, files) == Some(paths[i]),
    decreases i,
{
    if i > 0 {
        let rest = paths.subrange(1, paths.len() as int);
        assert(rest[i - 1] == paths[i]);
        assert forall|j: int| 0 <= j < i - 1 implies !files.contains(rest[j]) by {
            assert(rest[j] == paths[j + 1]);
        }
        first_match_wins(rest, files, i - 1);
    }
}

/// A path is found exactly when one of the paths exists, and the path found
/// is then one of them, exists, and has no existing path before it.
pub proof fn found_is_first_match(paths: Seq<Seq<u8>>, files: Set<Seq<u8>>)
    ensures
        match first_existing(paths, files) {
            Some(path) => exists|i: int|
                0 <= i < paths.len() && #[trigger] paths[i] == path && files.contains(path)
                    && forall|j: int| 0 <= j < i ==> !files.contains(#[trigger] paths[j]),
            None => forall|i: int| 0 <= i < paths.len() ==> !files.contains(#[trigger] paths[i]),
        },
    decreases paths.len(),
{
    if paths.len() > 0 {
        if files.contains(paths[0]) {
            assert(paths[0] == first_existing(paths, files)->0);
        } else {
            let rest = paths.subrange(1, paths.len() as int);
            found_is_first_match(rest, files);
            match first_existing(rest, files) {
                Some(path) => {
                    let i = choose|i: int|
                        0 <= i < rest.len() && #[trigger] rest[i] == path && files.contains(path)
                            && forall|j: int| 0 <= j < i ==> !files.contains(#[trigger] rest[j]);
                    assert(paths[i + 1] == path);
                    assert forall|j: int| 0 <= j < i + 1 implies !files.contains(
                        #[trigger] paths[j],
                    ) by {
                        if j > 0 {
                            assert(rest[j - 1] == paths[j]);
                        }
                    }
                },
                None => {
                    assert forall|i: int| 0 <= i < paths.len() implies !files.contains(
                        #[trigger] paths[i],
                    ) by {
                        if i > 0 {
                            assert(rest[i - 1] == paths[i]);
                        }
                    }
                },
            }
        }
    }
}

/// Resolution returns the candidate of highest precedence that exists.
pub proof fn resolution_takes_first_existing(
    entries: Seq<EntryModel>,
    files: Set<Seq<u8>>,
    i: int,
)
    requires
        candidates(entries) is Some,
        0 <= i < candidates(entries)->0.len(),
        files.contains(candidates(entries)->0[i]),
        forall|j: int| 0 <= j < i ==> !files.contains(candidates(entries)->0[j]),
    ensures
        resolved(entries, files) == Ok::<Seq<u8>, ResolveError>(candidates(entries)->0[i]),
{
    first_match_wins(candidates(entries)->0, files, i);
}

/// Where the table asks for a runtime and no candidate exists, resolution
/// fails with `RuntimeLibraryNotFound`.
pub proof fn resolution_without_candidate_on_disk(entries: Seq<EntryModel>, files: Set<Seq<u8>>)
    requires
        candidates(entries) is Some,
        forall|j: int|
            0 <= j < candidates(entries)->0.len() ==> !files.contains(candidates(entries)->0[j]),
    ensures
        resolved(entries, files) == Err::<Seq<u8>, ResolveError>(
            ResolveError::RuntimeLibraryNotFound,
        ),
{
    found_is_first_match(candidates(entries)->0, files);
}

/// Two directories with a colon between them are searched in that order.
pub proof fn two_directories_split(first: Seq<u8>, second: Seq<u8>)
    requires
        forall|i: int| 0 <= i < first.len() ==> first[i] != COLON,
        forall|i: int| 0 <= i < second.len() ==> second[i] != COLON,
    ensures
        split(first + seq![COLON] + second, COLON) == seq![first, second],
{
    let path = first + seq![COLON] + second;
    lemma_first_sep_is(path, COLON, first.len() as int);
    assert(path.subrange(0, first.len() as int) =~= first);
    assert(path.subrange(first.len() as int + 1, path.len() as int) =~= second);
    lemma_first_sep_is(second, COLON, second.len() as int);
    assert(split(second, COLON) == seq![second]);
    assert(seq![first] + seq![second] =~= seq![first, second]);
}

/// Where the search path names two directories and the runtime exists under
/// the second alone, resolution returns its path under the second.
pub proof fn second_directory_wins(
    entries: Seq<EntryModel>,
    files: Set<Seq<u8>>,
    first: Seq<u8>,
    second: Seq<u8>,
    name: Seq<u8>,
)
    requires
        forall|i: int| 0 <= i < first.len() ==> first[i] != COLON,
        forall|i: int| 0 <= i < second.len() ==> second[i] != COLON,
        first_runpath(entries) == Some(first + seq![COLON] + second),
        first_runtime_dep(entries) == Some(name),
        !files.contains(joined(first, name)),
        files.contains(joined(second, name)),
    ensures
        candidates(entries) == Some(seq![joined(first, name), joined(second, name)]),
        resolved(entries, files) == Ok::<Seq<u8>, ResolveError>(joined(second, name)),
{
    two_directories_split(first, second);
    let paths = under_each(seq![first, second], name);
    assert(paths =~= seq![joined(first, name), joined(second, name)]);
    first_match_wins(paths, files, 1);
}

/// Two sets of files that agree on every path of `paths` give the same find.
pub proof fn find_reads_paths_only(paths: Seq<Seq<u8>>, a: Set<Seq<u8>>, b: Set<Seq<u8>>)
    requires
        forall|k: int| 0 <= k < paths.len() ==> a.contains(paths[k]) == b.contains(paths[k]),
    ensures
        first_existing(paths, a) == first_existing(paths, b),
    decreases paths.len(),
{
    if paths.len() > 0 {
        let rest = paths.subrange(1, paths.len() as int);
        assert(a.contains(paths[0]) == b.contains(paths[0]));
        assert forall|k: int| 0 <= k < rest.len() implies a.contains(rest[k]) == b.contains(
            rest[k],
        ) by {
            assert(rest[k] == paths[k + 1]);
        }
        find_reads_paths_only(rest, a, b);
    }
}

/// Resolution is a function of the table and of which candidates exist: run
/// again on the same table, against files that agree on every candidate, it
/// gives the same outcome.
pub proof fn resolution_is_repeatable(entries: Seq<EntryModel>, a: Set<Seq<u8>>, b: Set<Seq<u8>>)
    requires
        candidates(entries) matches Some(paths) ==> forall|k: int|
            0 <= k < paths.len() ==> a.contains(paths[k]) == b.contains(paths[k]),
    ensures
        resolved(entries, a) == resolved(entries, b),
{
    if candidates(entries) is Some {
        find_reads_paths_only(candidates(entries)->0, a, b);
    }
}

} // verus!
