//! Lists of name and value pairs, read as a map in which the last pair of a
//! name decides its value.

use vstd::prelude::*;

verus! {

/// A name with its value, as text.
pub type Pair = (Seq<char>, Seq<char>);

/// What a list of pairs holds, each string taken as its text.
pub open spec fn pairs_view(entries: Seq<(String, String)>) -> Seq<Pair> {
    entries.map_values(|entry: (String, String)| (entry.0@, entry.1@))
}

/// The map that `pairs` stands for: a later pair replaces an earlier one of
/// the same name.
pub open spec fn pairs_map(pairs: Seq<Pair>) -> Map<Seq<char>, Seq<char>>
    decreases pairs.len(),
{
    if pairs.len() == 0 {
        Map::empty()
    } else {
        pairs_map(pairs.drop_last()).insert(pairs.last().0, pairs.last().1)
    }
}

/// Whether no name occurs twice in `pairs`.
pub open spec fn distinct_names(pairs: Seq<Pair>) -> bool {
    forall|i: int, j: int| 0 <= i < j < pairs.len() ==> (#[trigger] pairs[i]).0 != (#[trigger] pairs[j]).0
}

/// Whether some pair of `pairs` has the name `name`.
pub open spec fn has_name(pairs: Seq<Pair>, name: Seq<char>) -> bool {
    exists|i: int| 0 <= i < pairs.len() && (#[trigger] pairs[i]).0 == name
}

/// `pairs` with `name` set to `value`: in the place of the first pair of that
/// name, or at the end where there is none.
pub open spec fn upsert(pairs: Seq<Pair>, name: Seq<char>, value: Seq<char>) -> Seq<Pair>
    decreases pairs.len(),
{
    if pairs.len() == 0 {
        seq![(name, value)]
    } else if pairs[0].0 == name {
        pairs.update(0, (name, value))
    } else {
        seq![pairs[0]] + upsert(pairs.drop_first(), name, value)
    }
}

/// The map of `pairs` knows exactly the names that occur in `pairs`.
pub proof fn lemma_map_names(pairs: Seq<Pair>, name: Seq<char>)
    ensures
        pairs_map(pairs).contains_key(name) <==> has_name(pairs, name),
    decreases pairs.len(),
{
    if pairs.len() > 0 {
        let front = pairs.drop_last();
        lemma_map_names(front, name);
        if has_name(pairs, name) {
            let i = choose|i: int| 0 <= i < pairs.len() && (#[trigger] pairs[i]).0 == name;
            if i < front.len() {
                assert(front[i].0 == name);
            }
        }
        if has_name(front, name) {
            let i = choose|i: int| 0 <= i < front.len() && (#[trigger] front[i]).0 == name;
            assert(pairs[i].0 == name);
        }
        if pairs.last().0 == name {
            assert(pairs[pairs.len() - 1].0 == name);
        }
    }
}

/// The map of `pairs` gives a name the value of its last pair.
pub proof fn lemma_map_last_wins(pairs: Seq<Pair>, at: int)
    requires
        0 <= at < pairs.len(),
        forall|j: int| at < j < pairs.len() ==> (#[trigger] pairs[j]).0 != pairs[at].0,
    ensures
        pairs_map(pairs).contains_key(pairs[at].0),
        pairs_map(pairs)[pairs[at].0] == pairs[at].1,
    decreases pairs.len(),
{
    if at < pairs.len() - 1 {
        let front = pairs.drop_last();
        assert(front[at] == pairs[at]);
        assert forall|j: int| at < j < front.len() implies (#[trigger] front[j]).0 != front[at].0 by {
            assert(front[j] == pairs[j]);
        }
        lemma_map_last_wins(front, at);
        assert(pairs[pairs.len() - 1].0 != pairs[at].0);
    }
}

/// Setting a name where `at` is its first pair replaces that pair.
pub proof fn lemma_upsert_at(pairs: Seq<Pair>, at: int, name: Seq<char>, value: Seq<char>)
    requires
        0 <= at < pairs.len(),
        pairs[at].0 == name,
        forall|j: int| 0 <= j < at ==> (#[trigger] pairs[j]).0 != name,
    ensures
        upsert(pairs, name, value) == pairs.update(at, (name, value)),
    decreases at,
{
    if at > 0 {
        let rest = pairs.drop_first();
        assert(pairs[0].0 != name);
        assert(rest[at - 1] == pairs[at]);
        assert forall|j: int| 0 <= j < at - 1 implies (#[trigger] rest[j]).0 != name by {
            assert(rest[j] == pairs[j + 1]);
        }
        lemma_upsert_at(rest, at - 1, name, value);
        assert(seq![pairs[0]] + rest.update(at - 1, (name, value)) =~= pairs.update(
            at,
            (name, value),
        ));
    }
}

/// Setting a name that does not occur appends its pair.
pub proof fn lemma_upsert_absent(pairs: Seq<Pair>, name: Seq<char>, value: Seq<char>)
    requires
        !has_name(pairs, name),
    ensures
        upsert(pairs, name, value) == pairs.push((name, value)),
    decreases pairs.len(),
{
    if pairs.len() == 0 {
        assert(seq![(name, value)] =~= pairs.push((name, value)));
    } else {
        let rest = pairs.drop_first();
        assert(pairs[0].0 != name);
        assert(!has_name(rest, name)) by {
            if has_name(rest, name) {
                let i = choose|i: int| 0 <= i < rest.len() && (#[trigger] rest[i]).0 == name;
                assert(pairs[i + 1].0 == name);
            }
        }
        lemma_upsert_absent(rest, name, value);
        assert(seq![pairs[0]] + rest.push((name, value)) =~= pairs.push((name, value)));
    }
}

/// Replacing the value of a pair is an insertion into the map, where no name
/// occurs twice.
proof fn lemma_map_update(pairs: Seq<Pair>, at: int, value: Seq<char>)
    requires
        0 <= at < pairs.len(),
        distinct_names(pairs),
    ensures
        pairs_map(pairs.update(at, (pairs[at].0, value))) == pairs_map(pairs).insert(
            pairs[at].0,
            value,
        ),
    decreases pairs.len(),
{
    let name = pairs[at].0;
    let changed = pairs.update(at, (name, value));
    if at == pairs.len() - 1 {
        assert(changed.drop_last() =~= pairs.drop_last());
        assert(pairs_map(changed) =~= pairs_map(pairs).insert(name, value));
    } else {
        let front = pairs.drop_last();
        assert(front[at] == pairs[at]);
        assert(distinct_names(front)) by {
            assert forall|i: int, j: int| 0 <= i < j < front.len() implies (#[trigger] front[i]).0
                != (#[trigger] front[j]).0 by {
                assert(front[i] == pairs[i] && front[j] == pairs[j]);
            }
        }
        lemma_map_update(front, at, value);
        assert(changed.drop_last() =~= front.update(at, (name, value)));
        assert(changed.last() == pairs.last());
        assert(pairs[at].0 != pairs[pairs.len() - 1].0);
        assert(pairs_map(changed) =~= pairs_map(pairs).insert(name, value));
    }
}

/// Setting a name in a list without repeated names is an insertion into its
/// map, and repeats no name.
pub proof fn lemma_upsert_inserts(pairs: Seq<Pair>, name: Seq<char>, value: Seq<char>)
    requires
        distinct_names(pairs),
    ensures
        distinct_names(upsert(pairs, name, value)),
        pairs_map(upsert(pairs, name, value)) == pairs_map(pairs).insert(name, value),
{
    if has_name(pairs, name) {
        let some = choose|i: int| 0 <= i < pairs.len() && (#[trigger] pairs[i]).0 == name;
        assert forall|j: int| 0 <= j < some implies (#[trigger] pairs[j]).0 != name by {
            assert(pairs[j].0 != pairs[some].0);
        }
        lemma_upsert_at(pairs, some, name, value);
        lemma_map_update(pairs, some, value);
        let changed = pairs.update(some, (name, value));
        assert forall|i: int, j: int| 0 <= i < j < changed.len() implies (#[trigger] changed[i]).0
            != (#[trigger] changed[j]).0 by {
            assert(changed[i].0 == pairs[i].0 && changed[j].0 == pairs[j].0);
        }
    } else {
        lemma_upsert_absent(pairs, name, value);
        let longer = pairs.push((name, value));
        assert(longer.drop_last() =~= pairs);
        assert forall|i: int, j: int| 0 <= i < j < longer.len() implies (#[trigger] longer[i]).0
            != (#[trigger] longer[j]).0 by {
            if j < pairs.len() {
                assert(longer[i] == pairs[i] && longer[j] == pairs[j]);
            } else {
                assert(longer[i] == pairs[i]);
            }
        }
    }
}

/// Sets `name` to `value` in `entries`: last write wins, and a name keeps the
/// place at which it came first.
pub fn set_pair(entries: &mut Vec<(String, String)>, name: String, value: String)
    requires
        distinct_names(pairs_view(old(entries)@)),
    ensures
        distinct_names(pairs_view(final(entries)@)),
        pairs_view(final(entries)@) == upsert(pairs_view(old(entries)@), name@, value@),
        pairs_map(pairs_view(final(entries)@)) == pairs_map(pairs_view(old(entries)@)).insert(
            name@,
            value@,
        ),
{
    let ghost before = pairs_view(entries@);
    proof {
        lemma_upsert_inserts(before, name@, value@);
    }
    let mut i: usize = 0;
    while i < entries.len()
        invariant
            i <= entries.len(),
            pairs_view(entries@) == before,
            before == pairs_view(old(entries)@),
            distinct_names(upsert(before, name@, value@)),
            pairs_map(upsert(before, name@, value@)) == pairs_map(before).insert(name@, value@),
            forall|j: int| 0 <= j < i ==> (#[trigger] before[j]).0 != name@,
        decreases entries.len() - i,
    {
        if entries[i].0 == name {
            proof {
                assert(before[i as int].0 == name@);
                lemma_upsert_at(before, i as int, name@, value@);
            }
            entries.set(i, (name, value));
            assert(pairs_view(entries@) =~= before.update(i as int, (name@, value@)));
            return ;
        }
        assert(before[i as int].0 == entries[i as int].0@);
        i += 1;
    }
    proof {
        assert(!has_name(before, name@));
        lemma_upsert_absent(before, name@, value@);
    }
    entries.push((name, value));
    assert(pairs_view(entries@) =~= before.push((name@, value@)));
}

/// Where the last pair named `name` stands in `entries`, if there is one.
pub fn find_last(entries: &Vec<(String, String)>, name: &str) -> (found: Option<usize>)
    ensures
        match found {
            Some(at) => {
                &&& at < entries.len()
                &&& entries[at as int].0@ == name@
                &&& forall|j: int| at < j < entries.len() ==> (#[trigger] entries[j]).0@ != name@
            },
            None => forall|j: int| 0 <= j < entries.len() ==> (#[trigger] entries[j]).0@ != name@,
        },
{
    let wanted = name.to_owned();
    let mut i: usize = entries.len();
    while i > 0
        invariant
            i <= entries.len(),
            wanted@ == name@,
            forall|j: int| i <= j < entries.len() ==> (#[trigger] entries[j]).0@ != name@,
        decreases i,
    {
        i -= 1;
        if entries[i].0 == wanted {
            return Some(i);
        }
    }
    None
}

/// The value that the map of `entries` gives to `name`.
pub fn lookup(entries: &Vec<(String, String)>, name: &str) -> (value: Option<String>)
    ensures
        value is Some == pairs_map(pairs_view(entries@)).contains_key(name@),
        value matches Some(text) ==> text@ == pairs_map(pairs_view(entries@))[name@],
{
    let ghost pairs = pairs_view(entries@);
    proof {
        lemma_map_names(pairs, name@);
    }
    match find_last(entries, name) {
        Some(at) => {
            proof {
                assert(pairs[at as int].0 == name@);
                assert forall|j: int| at < j < pairs.len() implies (#[trigger] pairs[j]).0
                    != pairs[at as int].0 by {
                    assert(pairs[j].0 == entries[j].0@);
                }
                lemma_map_last_wins(pairs, at as int);
            }
            Some(entries[at].1.clone())
        },
        None => {
            proof {
                if has_name(pairs, name@) {
                    let i = choose|i: int| 0 <= i < pairs.len() && (#[trigger] pairs[i]).0 == name@;
                    assert(entries[i].0@ == name@);
                }
            }
            None
        },
    }
}

} // verus!
