//! The walk that looks for the configuration file.
//!
//! The walk starts in the working directory and climbs towards the root of
//! the filesystem. A directory is a level: level 0 is the working directory,
//! the last level is the root. At each level the caller says what the
//! filesystem holds under the configuration file's name; the walk ends at
//! the first level where that is anything at all.

use crate::error::LintsError;
use crate::lints::Lints;
use vstd::prelude::*;

verus! {

/// What a directory holds under the configuration file's name.
#[derive(Clone, Copy, Debug, PartialEq, Eq, Structural)]
pub enum Entry {
    /// Nothing.
    Missing,
    /// A regular file.
    File,
    /// Something that is not a regular file, such as a directory.
    Other,
}

/// Where the walk stands: what it asks for next, or how it ended.
#[derive(Clone, Copy, Debug, PartialEq, Eq, Structural)]
pub enum Search {
    /// The entry at this level is to be looked at.
    Look(usize),
    /// The configuration file is the entry at this level.
    Found(usize),
    /// The entry at this level is not a regular file.
    NotAFile(usize),
    /// No level holds an entry.
    NotFound,
}

/// Where a walk over `levels` levels begins.
pub open spec fn first_step(levels: usize) -> Search {
    if levels == 0 {
        Search::NotFound
    } else {
        Search::Look(0)
    }
}

/// Where a walk over `levels` levels stands after it has seen `seen` at level
/// `depth`: it ends at an entry, climbs past a missing one, and ends without
/// a file where no level is left above.
pub open spec fn next_step(levels: usize, depth: usize, seen: Entry) -> Search {
    match seen {
        Entry::File => Search::Found(depth),
        Entry::Other => Search::NotAFile(depth),
        Entry::Missing => if depth + 1 < levels {
            Search::Look((depth + 1) as usize)
        } else {
            Search::NotFound
        },
    }
}

/// The first level at or above `from` whose entry is not missing.
pub open spec fn nearest_from(entries: Seq<Entry>, from: int) -> Option<int>
    decreases entries.len() - from,
{
    if from < 0 || from >= entries.len() {
        None
    } else if entries[from] != Entry::Missing {
        Some(from)
    } else {
        nearest_from(entries, from + 1)
    }
}

/// The level nearest to the working directory whose entry is not missing.
pub open spec fn nearest(entries: Seq<Entry>) -> Option<int> {
    nearest_from(entries, 0)
}

/// How the walk over `entries` ends.
pub open spec fn walk_result(entries: Seq<Entry>) -> Result<Option<usize>, LintsError> {
    match nearest(entries) {
        None => Ok(None),
        Some(level) => if entries[level] == Entry::File {
            Ok(Some(level as usize))
        } else {
            Err(LintsError::NotAFile(level as usize))
        },
    }
}

/// `nearest_from` names a level only if that level holds an entry and no
/// level between `from` and it does, and names none only if no level from
/// `from` on holds one.
pub proof fn lemma_nearest_from(entries: Seq<Entry>, from: int)
    requires
        0 <= from <= entries.len(),
    ensures
        match nearest_from(entries, from) {
            Some(level) => {
                &&& from <= level < entries.len()
                &&& entries[level] != Entry::Missing
                &&& forall|below: int| from <= below < level ==> entries[below] == Entry::Missing
            },
            None => forall|level: int| from <= level < entries.len() ==> entries[level] == Entry::Missing,
        },
    decreases entries.len() - from,
{
    if from < entries.len() && entries[from] == Entry::Missing {
        lemma_nearest_from(entries, from + 1);
    }
}

/// Where a walk over `levels` levels begins.
pub fn start(levels: usize) -> (step: Search)
    ensures
        step == first_step(levels),
{
    if levels == 0 {
        Search::NotFound
    } else {
        Search::Look(0)
    }
}

/// Where a walk over `levels` levels stands after it has seen `seen` at level
/// `depth`: it ends at an entry, climbs past a missing one, and ends without
/// a file where no level is left above.
pub fn advance(levels: usize, depth: usize, seen: Entry) -> (step: Search)
    ensures
        step == next_step(levels, depth, seen),
{
    match seen {
        Entry::File => Search::Found(depth),
        Entry::Other => Search::NotAFile(depth),
        Entry::Missing => if levels > 0 && depth < levels - 1 {
            Search::Look(depth + 1)
        } else {
            Search::NotFound
        },
    }
}

impl Lints {
    /// Walks over the entries of all levels, from the working directory's at
    /// index 0 to the root's, and says at which level the configuration file is.
    ///
    /// Where every entry is missing there is no file, and that is no error.
    /// Otherwise the nearest entry decides: a regular file is the configuration
    /// file, and anything else is an error that names its level.
    pub fn find_config_file(entries: &[Entry]) -> (found: Result<Option<usize>, LintsError>)
        ensures
            found == walk_result(entries@),
    {
        let levels = entries.len();
        let mut step = start(levels);
        loop
            invariant
                levels == entries@.len(),
                match step {
                    Search::Look(depth) => depth < levels && nearest(entries@) == nearest_from(
                        entries@,
                        depth as int,
                    ),
                    Search::Found(depth) => depth < levels && nearest(entries@) == Some(depth as int)
                        && entries@[depth as int] == Entry::File,
                    Search::NotAFile(depth) => depth < levels && nearest(entries@) == Some(
                        depth as int,
                    ) && entries@[depth as int] == Entry::Other,
                    Search::NotFound => nearest(entries@) is None,
                },
            decreases
                match step {
                    Search::Look(depth) => levels - depth,
                    _ => 0,
                },
        {
            match step {
                Search::Look(depth) => {
                    proof {
                        assert(nearest_from(entries@, depth as int) == if entries@[depth as int]
                            != Entry::Missing {
                            Some(depth as int)
                        } else {
                            nearest_from(entries@, depth + 1)
                        });
                        assert(nearest_from(entries@, levels as int) is None);
                    }
                    step = advance(levels, depth, entries[depth]);
                },
                Search::Found(depth) => {
                    return Ok(Some(depth));
                },
                Search::NotAFile(depth) => {
                    return Err(LintsError::NotAFile(depth));
                },
                Search::NotFound => {
                    return Ok(None);
                },
            }
        }
    }
}

} // verus!
