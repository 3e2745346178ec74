//! Resolution of the C runtime that a target will load: what the dynamic table
//! asks for, where the search path says to look, and which candidate exists.

use crate::bytes::{
    copy_bytes, has_prefix, join_path, joined, opt_view, split, split_on, starts_with, views, COLON,
};
use crate::elf::{table, DynValue, DynamicEntry, EntryModel, DT_NEEDED, DT_RUNPATH};
use vstd::prelude::*;

verus! {

/// Why no runtime library was resolved.
#[derive(Clone, Copy, Debug, PartialEq, Eq, Structural)]
pub enum ResolveError {
    /// No needed library has the name of the C runtime.
    NoRuntimeDependency,
    /// No directory of the search path holds the C runtime.
    RuntimeLibraryNotFound,
}

/// The prefix by which the C runtime is known among the needed libraries:
/// `libc.so`.
pub open spec fn runtime_prefix() -> Seq<u8> {
    seq![0x6c, 0x69, 0x62, 0x63, 0x2e, 0x73, 0x6f]
}

/// The search path of an image that declares none: `/usr/lib`.
pub open spec fn default_search_path() -> Seq<u8> {
    seq![0x2f, 0x75, 0x73, 0x72, 0x2f, 0x6c, 0x69, 0x62]
}

/// The entry holds a runtime search path.
pub open spec fn is_runpath(e: EntryModel) -> bool {
    e.tag == DT_RUNPATH && e.text() is Some
}

/// The entry names the C runtime as a needed library.
pub open spec fn is_runtime_dep(e: EntryModel) -> bool {
    e.tag == DT_NEEDED && e.text() is Some && has_prefix(e.text()->0, runtime_prefix())
}

/// The search path of the first entry that holds one.
pub open spec fn first_runpath(entries: Seq<EntryModel>) -> Option<Seq<u8>>
    decreases entries.len(),
{
    if entries.len() == 0 {
        None
    } else if is_runpath(entries[0]) {
        entries[0].text()
    } else {
        first_runpath(entries.subrange(1, entries.len() as int))
    }
}

/// The name of the first needed library that is the C runtime.
pub open spec fn first_runtime_dep(entries: Seq<EntryModel>) -> Option<Seq<u8>>
    decreases entries.len(),
{
    if entries.len() == 0 {
        None
    } else if is_runtime_dep(entries[0]) {
        entries[0].text()
    } else {
        first_runtime_dep(entries.subrange(1, entries.len() as int))
    }
}

/// The directories to search, in order of precedence.
pub open spec fn search_dirs(entries: Seq<EntryModel>) -> Seq<Seq<u8>> {
    match first_runpath(entries) {
        Some(path) => split(path, COLON),
        None => split(default_search_path(), COLON),
    }
}

/// The path of `name` under each of `dirs`, in the same order.
pub open spec fn under_each(dirs: Seq<Seq<u8>>, name: Seq<u8>) -> Seq<Seq<u8>> {
    Seq::new(dirs.len(), |i: int| joined(dirs[i], name))
}

/// The candidate paths of the C runtime, in order of precedence; none where
/// the image does not depend on it.
pub open spec fn candidates(entries: Seq<EntryModel>) -> Option<Seq<Seq<u8>>> {
    match first_runtime_dep(entries) {
        Some(name) => Some(under_each(search_dirs(entries), name)),
        None => None,
    }
}

/// The first of `paths` that is among `files`.
pub open spec fn first_existing(paths: Seq<Seq<u8>>, files: Set<Seq<u8>>) -> Option<Seq<u8>>
    decreases paths.len(),
{
    if paths.len() == 0 {
        None
    } else if files.contains(paths[0]) {
        Some(paths[0])
    } else {
        first_existing(paths.subrange(1, paths.len() as int), files)
    }
}

/// The outcome of resolution for a dynamic table and a set of regular files.
pub open spec fn resolved(entries: Seq<EntryModel>, files: Set<Seq<u8>>) -> Result<
    Seq<u8>,
    ResolveError,
> {
    match candidates(entries) {
        None => Err(ResolveError::NoRuntimeDependency),
        Some(paths) => match first_existing(paths, files) {
            Some(path) => Ok(path),
            None => Err(ResolveError::RuntimeLibraryNotFound),
        },
    }
}

/// The prefix `libc.so` as bytes.
pub fn runtime_prefix_bytes() -> (prefix: Vec<u8>)
    ensures
        prefix@ == runtime_prefix(),
{
    let mut prefix: Vec<u8> = Vec::new();
    prefix.push(0x6c);
    prefix.push(0x69);
    prefix.push(0x62);
    prefix.push(0x63);
    prefix.push(0x2e);
    prefix.push(0x73);
    prefix.push(0x6f);
    assert(prefix@ =~= runtime_prefix());
    prefix
}

/// The path `/usr/lib` as bytes.
pub fn default_search_path_bytes() -> (path: Vec<u8>)
    ensures
        path@ == default_search_path(),
{
    let mut path: Vec<u8> = Vec::new();
    path.push(0x2f);
    path.push(0x75);
    path.push(0x73);
    path.push(0x72);
    path.push(0x2f);
    path.push(0x6c);
    path.push(0x69);
    path.push(0x62);
    assert(path@ =~= default_search_path());
    path
}

/// What one pass over the dynamic table retains.
#[derive(Clone, Debug, PartialEq, Eq)]
pub struct Scan {
    /// The runtime search path, where the table holds one.
    pub runpath: Option<Vec<u8>>,
    /// The name under which the table asks for the C runtime.
    pub runtime: Option<Vec<u8>>,
}

/// Scans the dynamic table once. Of repeated entries the first counts.
pub fn scan(entries: &[DynamicEntry]) -> (found: Scan)
    ensures
        opt_view(found.runpath) == first_runpath(table(entries@)),
        opt_view(found.runtime) == first_runtime_dep(table(entries@)),
{
    let prefix = runtime_prefix_bytes();
    let mut runpath: Option<Vec<u8>> = None;
    let mut runtime: Option<Vec<u8>> = None;
    let mut i: usize = 0;
    let ghost all = table(entries@);
    assert(all.subrange(0, all.len() as int) =~= all);
    while i < entries.len()
        invariant
            i <= entries@.len(),
            all == table(entries@),
            prefix@ == runtime_prefix(),
            match runpath {
                Some(p) => first_runpath(all) == Some(p@),
                None => first_runpath(all) == first_runpath(all.subrange(i as int, all.len() as int)),
            },
            match runtime {
                Some(n) => first_runtime_dep(all) == Some(n@),
                None => first_runtime_dep(all) == first_runtime_dep(
                    all.subrange(i as int, all.len() as int),
                ),
            },
        decreases entries@.len() - i,
    {
        let ghost rest = all.subrange(i as int, all.len() as int);
        assert(rest[0] == entries@[i as int]@);
        assert(rest.subrange(1, rest.len() as int) =~= all.subrange(i + 1, all.len() as int));
        let entry = &entries[i];
        match &entry.value {
            DynValue::Text(text) => {
                if entry.tag == DT_RUNPATH && runpath.is_none() {
                    runpath = Some(copy_bytes(text.as_slice()));
                }
                if entry.tag == DT_NEEDED && runtime.is_none() && starts_with(
                    text.as_slice(),
                    prefix.as_slice(),
                ) {
                    runtime = Some(copy_bytes(text.as_slice()));
                }
            },
            DynValue::Raw(_) => {},
        }
        i += 1;
    }
    Scan { runpath, runtime }
}

/// Builds the path of `name` under each directory of `dirs`.
pub fn paths_under(dirs: &Vec<Vec<u8>>, name: &[u8]) -> (paths: Vec<Vec<u8>>)
    ensures
        views(paths@) == under_each(views(dirs@), name@),
{
    let mut paths: Vec<Vec<u8>> = Vec::new();
    let mut i: usize = 0;
    while i < dirs.len()
        invariant
            i <= dirs@.len(),
            paths@.len() == i,
            forall|j: int| 0 <= j < i ==> (#[trigger] paths@[j])@ == joined(dirs@[j]@, name@),
        decreases dirs@.len() - i,
    {
        let path = join_path(dirs[i].as_slice(), name);
        paths.push(path);
        i += 1;
    }
    assert(views(paths@) =~= under_each(views(dirs@), name@));
    paths
}

/// Lists the candidate paths of the C runtime, in order of precedence.
///
/// Fails with `NoRuntimeDependency` exactly when no needed library has the
/// runtime's prefix. An image without a search path is searched under
/// `/usr/lib`.
pub fn candidate_paths(entries: &[DynamicEntry]) -> (res: Result<Vec<Vec<u8>>, ResolveError>)
    ensures
        match candidates(table(entries@)) {
            Some(paths) => res matches Ok(found) && views(found@) == paths,
            None => res == Err::<Vec<Vec<u8>>, ResolveError>(ResolveError::NoRuntimeDependency),
        },
{
    let found = scan(entries);
    let name = match found.runtime {
        Some(name) => name,
        None => {
            return Err(ResolveError::NoRuntimeDependency);
        },
    };
    let runpath = match found.runpath {
        Some(path) => path,
        None => default_search_path_bytes(),
    };
    let dirs = split_on(runpath.as_slice(), COLON);
    Ok(paths_under(&dirs, name.as_slice()))
}

} // verus!
