//! The search for the first candidate that exists. The library decides which
//! path to probe next and what an answer means; the caller looks at the disk.

use crate::bytes::{copy_bytes, same_bytes, views};
use crate::elf::{table, DynamicEntry};
use crate::resolve::{candidate_paths, candidates, first_existing, resolved, ResolveError};
use vstd::prelude::*;

verus! {

/// What the caller is to do next.
#[derive(Clone, Debug, PartialEq, Eq)]
pub enum SearchAction {
    /// Tell whether this path is a regular file, and hand the answer back.
    Probe(Vec<u8>),
    /// The search is over: this path is the runtime library.
    Found(Vec<u8>),
    /// The search is over: no candidate exists.
    NotFound,
}

/// A search in progress over the candidates of one image.
#[derive(Debug)]
pub struct Search {
    paths: Vec<Vec<u8>>,
    position: usize,
    probing: bool,
}

/// The position at which the search stands once `answer` is taken in.
pub open spec fn position_after(position: int, probing: bool, answer: Option<bool>) -> int {
    if probing && answer == Some(false) {
        position + 1
    } else {
        position
    }
}

impl Search {
    /// The candidates, in order of precedence.
    pub closed spec fn paths(&self) -> Seq<Seq<u8>> {
        views(self.paths@)
    }

    /// Index of the candidate under consideration.
    pub closed spec fn position(&self) -> int {
        self.position as int
    }

    /// A probe of the candidate at `position` has been asked for.
    pub closed spec fn probing(&self) -> bool {
        self.probing
    }

    /// The position lies within the candidates, and on one while probing.
    pub open spec fn wf(&self) -> bool {
        &&& 0 <= self.position() <= self.paths().len()
        &&& self.probing() ==> self.position() < self.paths().len()
    }

    #[verifier::type_invariant]
    spec fn valid(&self) -> bool {
        &&& self.position <= self.paths@.len()
        &&& self.probing ==> self.position < self.paths@.len()
    }

    /// Starts a search over the candidates of a dynamic table.
    ///
    /// Fails with `NoRuntimeDependency` exactly when the table asks for no C
    /// runtime: then no search exists, and nothing is probed.
    pub fn begin(entries: &[DynamicEntry]) -> (res: Result<Search, ResolveError>)
        ensures
            match candidates(table(entries@)) {
                Some(paths) => res matches Ok(search) && search.wf() && search.paths() == paths
                    && search.position() == 0 && !search.probing(),
                None => res matches Err(e) && e == ResolveError::NoRuntimeDependency,
            },
    {
        match candidate_paths(entries) {
            Ok(paths) => Ok(Search { paths, position: 0, probing: false }),
            Err(e) => Err(e),
        }
    }

    /// A search over the given candidates, in the given order.
    pub fn over(paths: Vec<Vec<u8>>) -> (search: Search)
        ensures
            search.wf(),
            search.paths() == views(paths@),
            search.position() == 0,
            !search.probing(),
    {
        Search { paths, position: 0, probing: false }
    }

    /// Takes in the answer to the last probe and says what to do next.
    ///
    /// A candidate that exists ends the search with that path. One that does
    /// not moves the search to the next candidate, which is probed in turn;
    /// after the last, the search ends without a path. An answer that no probe
    /// asked for is set aside, and the pending step is given again.
    pub fn step(&mut self, answer: Option<bool>) -> (action: SearchAction)
        ensures
            old(self).wf(),
            final(self).wf(),
            final(self).paths() == old(self).paths(),
            old(self).probing() && answer == Some(true) ==> {
                &&& action matches SearchAction::Found(path)
                &&& path@ == old(self).paths()[old(self).position()]
                &&& final(self).position() == old(self).position()
                &&& !final(self).probing()
            },
            !(old(self).probing() && answer == Some(true)) ==> {
                let next = position_after(old(self).position(), old(self).probing(), answer);
                &&& final(self).position() == next
                &&& next < old(self).paths().len() ==> {
                    &&& action matches SearchAction::Probe(path)
                    &&& path@ == old(self).paths()[next]
                    &&& final(self).probing()
                }
                &&& next >= old(self).paths().len() ==> {
                    &&& action == SearchAction::NotFound
                    &&& !final(self).probing()
                }
            },
    {
        proof {
            use_type_invariant(&*self);
        }
        let count = self.paths.len();
        assert(self.paths().len() == count);
        if self.probing {
            match answer {
                Some(true) => {
                    self.probing = false;
                    return SearchAction::Found(copy_bytes(self.paths[self.position].as_slice()));
                },
                Some(false) => {
                    self.probing = false;
                    self.position = self.position + 1;
                },
                None => {},
            }
        }
        if self.position < count {
            self.probing = true;
            SearchAction::Probe(copy_bytes(self.paths[self.position].as_slice()))
        } else {
            self.probing = false;
            SearchAction::NotFound
        }
    }
}

/// Tells whether `path` is among `files`.
pub fn listed(files: &Vec<Vec<u8>>, path: &[u8]) -> (res: bool)
    ensures
        res == views(files@).contains(path@),
{
    let mut i: usize = 0;
    while i < files.len()
        invariant
            i <= files@.len(),
            forall|j: int| 0 <= j < i ==> views(files@)[j] != path@,
        decreases files@.len() - i,
    {
        if same_bytes(files[i].as_slice(), path) {
            assert(views(files@)[i as int] == path@);
            return true;
        }
        i += 1;
    }
    false
}

/// The view of a resolution outcome.
pub open spec fn outcome_view(res: Result<Vec<u8>, ResolveError>) -> Result<Seq<u8>, ResolveError> {
    match res {
        Ok(path) => Ok(path@),
        Err(e) => Err(e),
    }
}

/// Dropping a candidate that does not exist from the front changes nothing.
proof fn lemma_skip_missing(paths: Seq<Seq<u8>>, files: Set<Seq<u8>>, at: int)
    requires
        0 <= at < paths.len(),
        !files.contains(paths[at]),
    ensures
        first_existing(paths.subrange(at, paths.len() as int), files) == first_existing(
            paths.subrange(at + 1, paths.len() as int),
            files,
        ),
{
    let rest = paths.subrange(at, paths.len() as int);
    assert(rest[0] == paths[at]);
    assert(rest.subrange(1, rest.len() as int) =~= paths.subrange(at + 1, paths.len() as int));
}

/// Resolves the C runtime of a dynamic table against a list of the regular
/// files that exist: runs the search, answering each probe from the list.
pub fn resolve_in(entries: &[DynamicEntry], files: &Vec<Vec<u8>>) -> (res: Result<
    Vec<u8>,
    ResolveError,
>)
    ensures
        outcome_view(res) == resolved(table(entries@), views(files@).to_set()),
{
    let mut search = match Search::begin(entries) {
        Ok(search) => search,
        Err(e) => {
            return Err(e);
        },
    };
    let ghost paths = search.paths();
    let ghost on_disk = views(files@).to_set();
    let mut answer: Option<bool> = None;
    assert(paths.subrange(0, paths.len() as int) =~= paths);
    loop
        invariant
            search.wf(),
            search.paths() == paths,
            candidates(table(entries@)) == Some(paths),
            on_disk == views(files@).to_set(),
            first_existing(paths, on_disk) == first_existing(
                paths.subrange(search.position(), paths.len() as int),
                on_disk,
            ),
            search.probing() ==> answer == Some(on_disk.contains(paths[search.position()])),
            !search.probing() ==> answer is None,
        decreases 2 * (paths.len() - search.position()) + (if search.probing() { 0int } else { 1int }),
    {
        let ghost at = search.position();
        let ghost was_probing = search.probing();
        let action = search.step(answer);
        match action {
            SearchAction::Found(path) => {
                proof {
                    let rest = paths.subrange(at, paths.len() as int);
                    assert(rest[0] == paths[at]);
                }
                return Ok(path);
            },
            SearchAction::NotFound => {
                proof {
                    if was_probing {
                        lemma_skip_missing(paths, on_disk, at);
                    }
                }
                return Err(ResolveError::RuntimeLibraryNotFound);
            },
            SearchAction::Probe(path) => {
                proof {
                    if was_probing && answer == Some(false) {
                        lemma_skip_missing(paths, on_disk, at);
                    }
                }
                answer = Some(listed(files, path.as_slice()));
            },
        }
    }
}

} // verus!
