//! Command-line flags for lists of lint names.
//!
//! Each name becomes two arguments: the flag of its list and the name
//! itself. The linter lets a later flag override an earlier one for the same
//! name, so where the flags stand decides which list wins.

use vstd::prelude::*;

verus! {

/// Each name of `names`, in order, with `flag` in front of it.
pub open spec fn flag_pairs(flag: Seq<char>, names: Seq<Seq<char>>) -> Seq<Seq<char>> {
    Seq::new(
        2 * names.len(),
        |i: int|
            if i % 2 == 0 {
                flag
            } else {
                names[i / 2]
            },
    )
}

/// The flag that the linter goes by for `name`: that of the last pair of
/// `flags` that holds `name`, if any pair does.
pub open spec fn ruling_flag(flags: Seq<Seq<char>>, name: Seq<char>) -> Option<Seq<char>>
    decreases flags.len(),
{
    if flags.len() < 2 {
        None
    } else if flags[flags.len() - 1] == name {
        Some(flags[flags.len() - 2])
    } else {
        ruling_flag(flags.take(flags.len() - 2), name)
    }
}

/// One more name adds one more pair at the end.
pub proof fn lemma_flag_pairs_push(flag: Seq<char>, names: Seq<Seq<char>>, name: Seq<char>)
    ensures
        flag_pairs(flag, names.push(name)) == flag_pairs(flag, names).push(flag).push(name),
{
    assert(flag_pairs(flag, names.push(name)) =~= flag_pairs(flag, names).push(flag).push(name));
}

/// Behind any arguments, the pairs of a list rule for the names of that list
/// and leave every other name as it was ruled before.
pub proof fn lemma_ruling_flag_append(
    front: Seq<Seq<char>>,
    flag: Seq<char>,
    names: Seq<Seq<char>>,
    name: Seq<char>,
)
    ensures
        ruling_flag(front + flag_pairs(flag, names), name) == if names.contains(name) {
            Some(flag)
        } else {
            ruling_flag(front, name)
        },
    decreases names.len(),
{
    let whole = front + flag_pairs(flag, names);
    if names.len() == 0 {
        assert(whole =~= front);
    } else {
        let last = names.last();
        let rest = names.drop_last();
        assert(names =~= rest.push(last));
        lemma_flag_pairs_push(flag, rest, last);
        assert(whole.take(whole.len() - 2) =~= front + flag_pairs(flag, rest));
        assert(whole[whole.len() - 1] == last);
        assert(whole[whole.len() - 2] == flag);
        lemma_ruling_flag_append(front, flag, rest, name);
        if last == name {
            assert(names.contains(name));
        } else {
            assert(names.contains(name) == rest.contains(name)) by {
                if names.contains(name) {
                    let k = choose|k: int| 0 <= k < names.len() && names[k] == name;
                    assert(rest[k] == name);
                }
                if rest.contains(name) {
                    let k = choose|k: int| 0 <= k < rest.len() && rest[k] == name;
                    assert(names[k] == name);
                }
            }
        }
    }
}

/// The arguments that put `flag` in front of each name of `names`.
pub fn pair_flags(flag: &str, names: &Vec<String>) -> (out: Vec<String>)
    ensures
        out.deep_view() == flag_pairs(flag@, names.deep_view()),
{
    let mut out: Vec<String> = Vec::new();
    let mut i: usize = 0;
    proof {
        assert(out.deep_view() =~= flag_pairs(flag@, names.deep_view().take(0)));
    }
    while i < names.len()
        invariant
            i <= names.len(),
            out.deep_view() == flag_pairs(flag@, names.deep_view().take(i as int)),
        decreases names.len() - i,
    {
        let ghost before = out.deep_view();
        out.push(flag.to_owned());
        out.push(names[i].clone());
        proof {
            let done = names.deep_view().take(i as int);
            assert(names.deep_view().take(i + 1) =~= done.push(names[i as int]@));
            lemma_flag_pairs_push(flag@, done, names[i as int]@);
            assert(out.deep_view() =~= before.push(flag@).push(names[i as int]@));
        }
        i += 1;
    }
    proof {
        assert(names.deep_view().take(names.len() as int) =~= names.deep_view());
    }
    out
}

} // verus!
