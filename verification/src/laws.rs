//! What holds of the library as a whole.

use crate::error::LintsError;
use crate::flags::{lemma_ruling_flag_append, ruling_flag};
use crate::lints::{all_flags, file_text, is_sorted_form, lists_of, LintsView};
use crate::order::lemma_sort_is_unique;
use crate::search::{
    first_step, lemma_nearest_from, nearest, nearest_from, next_step, walk_result, Entry, Search,
};
use crate::severity::Severity;
use vstd::prelude::*;

verus! {

/// Where a walk that is driven step by step ends: each look is answered from
/// `entries`, until the walk asks for no more.
pub open spec fn walk_end(entries: Seq<Entry>, step: Search) -> Search
    decreases
        match step {
            Search::Look(depth) => entries.len() - depth,
            _ => 0,
        },
{
    match step {
        Search::Look(depth) => if depth < entries.len() <= usize::MAX {
            walk_end(entries, next_step(entries.len() as usize, depth, entries[depth as int]))
        } else {
            Search::NotFound
        },
        _ => step,
    }
}

/// What the end of a walk means to its caller.
pub open spec fn step_result(step: Search) -> Result<Option<usize>, LintsError> {
    match step {
        Search::Found(level) => Ok(Some(level)),
        Search::NotAFile(level) => Err(LintsError::NotAFile(level)),
        _ => Ok(None),
    }
}

proof fn lemma_walk_end_from(entries: Seq<Entry>, depth: usize)
    requires
        depth < entries.len() <= usize::MAX,
    ensures
        step_result(walk_end(entries, Search::Look(depth))) == match nearest_from(
            entries,
            depth as int,
        ) {
            None => Ok(None),
            Some(level) => if entries[level] == Entry::File {
                Ok(Some(level as usize))
            } else {
                Err(LintsError::NotAFile(level as usize))
            },
        },
    decreases entries.len() - depth,
{
    let next = next_step(entries.len() as usize, depth, entries[depth as int]);
    assert(walk_end(entries, Search::Look(depth)) == walk_end(entries, next));
    if entries[depth as int] == Entry::Missing {
        assert(nearest_from(entries, depth as int) == nearest_from(entries, depth + 1));
        if depth + 1 < entries.len() {
            lemma_walk_end_from(entries, (depth + 1) as usize);
        } else {
            assert(nearest_from(entries, depth + 1) is None);
            assert(walk_end(entries, next) == Search::NotFound);
        }
    } else {
        assert(nearest_from(entries, depth as int) == Some(depth as int));
        assert(walk_end(entries, next) == next);
    }
}

/// A walk that is driven step by step, from the first step on and with each
/// look answered from `entries`, ends as the walk over `entries` does.
pub proof fn lemma_steps_walk(entries: Seq<Entry>)
    requires
        entries.len() <= usize::MAX,
    ensures
        step_result(walk_end(entries, first_step(entries.len() as usize))) == walk_result(entries),
{
    if entries.len() > 0 {
        lemma_walk_end_from(entries, 0);
    }
}

/// The walk finds the nearest entry and no other: it ends without a file
/// exactly where every level's entry is missing; it finds the file at a level
/// exactly where that level holds a regular file and every level below it
/// holds nothing; and it fails at a level exactly where that level holds
/// something else and every level below it holds nothing.
pub proof fn lemma_walk_finds_nearest(entries: Seq<Entry>, level: usize)
    requires
        entries.len() <= usize::MAX,
    ensures
        walk_result(entries) == Ok::<Option<usize>, LintsError>(None) <==> forall|i: int|
            0 <= i < entries.len() ==> entries[i] == Entry::Missing,
        walk_result(entries) == Ok::<Option<usize>, LintsError>(Some(level)) <==> {
            &&& level < entries.len()
            &&& entries[level as int] == Entry::File
            &&& forall|i: int| 0 <= i < level ==> entries[i] == Entry::Missing
        },
        walk_result(entries) == Err::<Option<usize>, LintsError>(LintsError::NotAFile(level)) <==> {
            &&& level < entries.len()
            &&& entries[level as int] == Entry::Other
            &&& forall|i: int| 0 <= i < level ==> entries[i] == Entry::Missing
        },
{
    lemma_nearest_from(entries, 0);
}

/// The levels of `entries` with `below` more levels underneath, none of
/// which holds an entry.
pub open spec fn seen_from_below(entries: Seq<Entry>, below: nat) -> Seq<Entry> {
    Seq::new(below, |i: int| Entry::Missing) + entries
}

/// Starting the walk deeper changes nothing about what it finds: with
/// `below` more levels underneath, none of which holds an entry, the walk
/// ends at the same directory, which is now `below` levels further up, and
/// ends there in the same way.
pub proof fn lemma_walk_from_below(entries: Seq<Entry>, below: nat)
    requires
        entries.len() + below <= usize::MAX,
    ensures
        nearest(seen_from_below(entries, below)) == match nearest(entries) {
            Some(level) => Some(level + below),
            None => None,
        },
        walk_result(seen_from_below(entries, below)) == match walk_result(entries) {
            Ok(Some(level)) => Ok(Some((level + below) as usize)),
            Err(LintsError::NotAFile(level)) => Err(LintsError::NotAFile((level + below) as usize)),
            other => other,
        },
{
    let deeper = seen_from_below(entries, below);
    lemma_nearest_from(entries, 0);
    lemma_nearest_from(deeper, 0);
    match nearest(entries) {
        Some(level) => {
            assert(deeper[level + below] == entries[level]);
            match nearest(deeper) {
                Some(other) => {
                    if other < below {
                    } else if other < level + below {
                        assert(deeper[other] == entries[other - below]);
                    }
                },
                None => {},
            }
        },
        None => {
            match nearest(deeper) {
                Some(other) => {
                    if other >= below {
                        assert(deeper[other] == entries[other - below]);
                    }
                },
                None => {},
            }
        },
    }
}

/// Formatting is idempotent: a configuration that is the sorted form of
/// another is its own sorted form and no other, so formatting it again
/// changes nothing and writes the same text.
pub proof fn lemma_format_twice(before: LintsView, once: LintsView, twice: LintsView)
    requires
        is_sorted_form(once, before),
        is_sorted_form(twice, once),
    ensures
        twice == once,
        file_text(twice) == file_text(once),
{
    lemma_sort_is_unique(twice.deny, once.deny);
    lemma_sort_is_unique(twice.allow, once.allow);
    lemma_sort_is_unique(twice.warn, once.warn);
}

/// The sorted form of a configuration is one value: it does not depend on
/// how the sorting was done.
pub proof fn lemma_sorted_form_is_unique(before: LintsView, one: LintsView, other: LintsView)
    requires
        is_sorted_form(one, before),
        is_sorted_form(other, before),
    ensures
        one == other,
{
    lemma_sort_is_unique(one.deny, other.deny);
    lemma_sort_is_unique(one.allow, other.allow);
    lemma_sort_is_unique(one.warn, other.warn);
}

/// The lists are handed to the serializer in the order deny, allow, warn.
pub proof fn lemma_keys_in_order(lints: LintsView)
    ensures
        lists_of(lints).len() == 3,
        lists_of(lints)[0].0 == Severity::Deny.key_text(),
        lists_of(lints)[1].0 == Severity::Allow.key_text(),
        lists_of(lints)[2].0 == Severity::Warn.key_text(),
{
}

/// Among the flags of a configuration the allowed lints rule over the warned
/// and the warned over the denied: the last flag for a name is that of the
/// allowed where the name is allowed; else that of the warned where it is
/// warned; else that of the denied where it is denied; and no flag names a
/// lint that is in no list.
pub proof fn lemma_allow_rules(lints: LintsView, name: Seq<char>)
    ensures
        ruling_flag(all_flags(lints), name) == if lints.allow.contains(name) {
            Some(Severity::Allow.flag_text())
        } else if lints.warn.contains(name) {
            Some(Severity::Warn.flag_text())
        } else if lints.deny.contains(name) {
            Some(Severity::Deny.flag_text())
        } else {
            None
        },
{
    let deny = crate::flags::flag_pairs(Severity::Deny.flag_text(), lints.deny);
    let warn = crate::flags::flag_pairs(Severity::Warn.flag_text(), lints.warn);
    let none = Seq::<Seq<char>>::empty();
    assert(none + deny =~= deny);
    lemma_ruling_flag_append(none, Severity::Deny.flag_text(), lints.deny, name);
    lemma_ruling_flag_append(deny, Severity::Warn.flag_text(), lints.warn, name);
    lemma_ruling_flag_append(deny + warn, Severity::Allow.flag_text(), lints.allow, name);
}

} // verus!
