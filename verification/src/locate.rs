//! From the bytes of an image to the path of the C runtime that it will load.

use crate::bytes::views;
use crate::elf::{analysis, dynamic_entries, EntryModel};
use crate::error::{Fault, FaultModel};
use crate::precedence::resolution_is_repeatable;
use crate::resolve::{candidates, resolved, ResolveError};
use crate::search::{resolve_in, Search};
use vstd::prelude::*;

verus! {

/// The fault that a failed resolution stands for.
pub open spec fn resolution_fault(error: ResolveError) -> FaultModel {
    match error {
        ResolveError::NoRuntimeDependency => FaultModel::NoRuntimeDependency,
        ResolveError::RuntimeLibraryNotFound => FaultModel::RuntimeLibraryNotFound,
    }
}

/// The outcome of locating the runtime of a table among a set of files.
pub open spec fn located_from(entries: Seq<EntryModel>, files: Set<Seq<u8>>) -> Result<
    Seq<u8>,
    FaultModel,
> {
    match resolved(entries, files) {
        Ok(path) => Ok(path),
        Err(error) => Err(resolution_fault(error)),
    }
}

/// The outcome of locating the runtime of an image among a set of files.
pub open spec fn located(image: Seq<u8>, files: Set<Seq<u8>>) -> Result<Seq<u8>, FaultModel> {
    match analysis(image) {
        None => Err(FaultModel::MalformedBinary),
        Some(entries) => located_from(entries, files),
    }
}

/// The view of an outcome that holds a path.
pub open spec fn located_view(res: Result<Vec<u8>, Fault>) -> Result<Seq<u8>, FaultModel> {
    match res {
        Ok(path) => Ok(path@),
        Err(fault) => Err(fault@),
    }
}

/// Analyses an image and starts the search for its runtime.
///
/// Fails with `MalformedBinary` where the image has no dynamic table, and with
/// `NoRuntimeDependency` where the table asks for no C runtime. In both cases
/// no search exists, so nothing is probed.
pub fn begin_search(image: &[u8]) -> (res: Result<Search, Fault>)
    ensures
        match analysis(image@) {
            None => res matches Err(fault) && fault@ == FaultModel::MalformedBinary,
            Some(entries) => match candidates(entries) {
                None => res matches Err(fault) && fault@ == FaultModel::NoRuntimeDependency,
                Some(paths) => res matches Ok(search) && search.wf() && search.paths() == paths
                    && search.position() == 0 && !search.probing(),
            },
        },
{
    let entries = match dynamic_entries(image) {
        Ok(entries) => entries,
        Err(error) => {
            return Err(Fault::from_analysis(error));
        },
    };
    match Search::begin(entries.as_slice()) {
        Ok(search) => Ok(search),
        Err(error) => Err(Fault::from_resolution(error)),
    }
}

/// Locates the runtime of an image against a list of the regular files that
/// exist.
pub fn locate_in(image: &[u8], files: &Vec<Vec<u8>>) -> (res: Result<Vec<u8>, Fault>)
    ensures
        located_view(res) == located(image@, views(files@).to_set()),
{
    let entries = match dynamic_entries(image) {
        Ok(entries) => entries,
        Err(error) => {
            return Err(Fault::from_analysis(error));
        },
    };
    match resolve_in(entries.as_slice(), files) {
        Ok(path) => Ok(path),
        Err(error) => Err(Fault::from_resolution(error)),
    }
}

/// Locating is a function of the image and of the files: run again on the
/// same bytes, against files that agree on every candidate of the image, it
/// gives the same outcome.
pub proof fn location_is_repeatable(image: Seq<u8>, a: Set<Seq<u8>>, b: Set<Seq<u8>>)
    requires
        analysis(image) matches Some(entries) ==> (candidates(entries) matches Some(paths)
            ==> forall|k: int|
            0 <= k < paths.len() ==> a.contains(paths[k]) == b.contains(paths[k])),
    ensures
        located(image, a) == located(image, b),
{
    if analysis(image) is Some {
        resolution_is_repeatable(analysis(image)->0, a, b);
    }
}

/// An image that does not depend on the C runtime fails with
/// `NoRuntimeDependency` whatever files exist.
pub proof fn no_dependency_never_reads_files(image: Seq<u8>, files: Set<Seq<u8>>)
    requires
        analysis(image) matches Some(entries) && candidates(entries) is None,
    ensures
        located(image, files) == Err::<Seq<u8>, FaultModel>(FaultModel::NoRuntimeDependency),
{
}

} // verus!
