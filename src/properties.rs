//! Parsing of `key=value` properties text: blank lines and lines starting
//! with `#` or `!` are skipped, a line without `=` is ignored, and a later
//! line overrides an earlier one with the same key.
use vstd::prelude::*;
use vstd::string::StrSliceExecFns;

use crate::text::{str_eq, trim, trimmed_of};

verus! {

/// Index of the first `c` in `s` at or after `from`.
pub open spec fn find_char(s: Seq<char>, c: char, from: int) -> Option<int>
    decreases s.len() - from,
{
    if from < 0 || from >= s.len() {
        None
    } else if s[from] == c {
        Some(from)
    } else {
        find_char(s, c, from + 1)
    }
}

/// The key and value that an already trimmed line holds, if any.
pub open spec fn spec_parse_trimmed_line(t: Seq<char>) -> Option<(Seq<char>, Seq<char>)> {
    if t.len() == 0 || t[0] == '#' || t[0] == '!' {
        None
    } else {
        match find_char(t, '=', 0) {
            Some(i) => Some((trimmed_of(t.take(i)), trimmed_of(t.skip(i + 1)))),
            None => None,
        }
    }
}

/// The properties that `lines` define, later lines overriding earlier ones.
pub open spec fn spec_properties(lines: Seq<Seq<char>>) -> Map<Seq<char>, Seq<char>>
    decreases lines.len(),
{
    if lines.len() == 0 {
        Map::empty()
    } else {
        let m = spec_properties(lines.drop_last());
        match spec_parse_trimmed_line(trimmed_of(lines.last())) {
            Some((k, v)) => m.insert(k, v),
            None => m,
        }
    }
}

/// The key/value pairs of `pairs`, as a map (later pairs win).
pub open spec fn pairs_map(pairs: Seq<(String, String)>) -> Map<Seq<char>, Seq<char>>
    decreases pairs.len(),
{
    if pairs.len() == 0 {
        Map::empty()
    } else {
        pairs_map(pairs.drop_last()).insert(pairs.last().0@, pairs.last().1@)
    }
}

/// No key occurs twice in `pairs`.
pub open spec fn keys_unique(pairs: Seq<(String, String)>) -> bool {
    forall|i: int, j: int|
        0 <= i < j < pairs.len() ==> (#[trigger] pairs[i]).0@ != (#[trigger] pairs[j]).0@
}

/// The key and value of an already trimmed line: nothing for a blank line,
/// a comment, or a line without `=`; else the trimmed text before the first
/// `=` and the trimmed text after it.
pub fn parse_trimmed_property_line(t: &str) -> (r: Option<(String, String)>)
    ensures
        match spec_parse_trimmed_line(t@) {
            Some((k, v)) => r matches Some(p) && p.0@ == k && p.1@ == v,
            None => r is None,
        },
{
    let n = t.unicode_len();
    if n == 0 {
        return None;
    }
    let first = t.get_char(0);
    if first == '#' || first == '!' {
        return None;
    }
    let mut i: usize = 0;
    while i < n
        invariant
            n == t@.len(),
            n > 0,
            t@[0] != '#' && t@[0] != '!',
            i <= n,
            find_char(t@, '=', 0) == find_char(t@, '=', i as int),
        decreases n - i,
    {
        if t.get_char(i) == '=' {
            let key = trim(t.substring_char(0, i));
            let value = trim(t.substring_char(i + 1, n));
            assert(find_char(t@, '=', i as int) == Some(i as int));
            assert(t@.take(i as int) =~= t@.subrange(0, i as int));
            assert(t@.skip(i + 1) =~= t@.subrange(i + 1, n as int));
            let k = key.to_owned();
            let v = value.to_owned();
            return Some((k, v));
        }
        i = i + 1;
    }
    None
}

/// The key and value of one line of properties text, if it defines one.
pub fn parse_property_line(line: &str) -> (r: Option<(String, String)>)
    ensures
        match spec_parse_trimmed_line(trimmed_of(line@)) {
            Some((k, v)) => r matches Some(p) && p.0@ == k && p.1@ == v,
            None => r is None,
        },
{
    parse_trimmed_property_line(trim(line))
}

/// Sets `key` to `value` in `pairs`, replacing the value of an equal key.
pub(crate) fn set_property(pairs: &mut Vec<(String, String)>, key: String, value: String)
    requires
        keys_unique(old(pairs)@),
    ensures
        keys_unique(final(pairs)@),
        pairs_map(final(pairs)@) == pairs_map(old(pairs)@).insert(key@, value@),
{
    let mut i: usize = 0;
    while i < pairs.len()
        invariant
            i <= pairs@.len(),
            pairs@ == old(pairs)@,
            keys_unique(pairs@),
            forall|j: int| 0 <= j < i ==> (#[trigger] pairs@[j]).0@ != key@,
        decreases pairs@.len() - i,
    {
        if str_eq(pairs[i].0.as_str(), key.as_str()) {
            let ghost before = pairs@;
            pairs.set(i, (key, value));
            proof {
                lemma_replace_keeps_map(before, i as int, pairs@);
            }
            return;
        }
        i = i + 1;
    }
    let ghost before = pairs@;
    pairs.push((key, value));
    assert(pairs@.drop_last() =~= before);
}

/// Whether `pairs` sets `key`.
pub(crate) fn has_property(pairs: &Vec<(String, String)>, key: &str) -> (r: bool)
    requires
        keys_unique(pairs@),
    ensures
        r == pairs_map(pairs@).contains_key(key@),
{
    proof {
        lemma_pairs_map_holds(pairs@);
    }
    let mut i: usize = 0;
    while i < pairs.len()
        invariant
            i <= pairs@.len(),
            keys_unique(pairs@),
            forall|k: Seq<char>|
                pairs_map(pairs@).contains_key(k) ==> exists|j: int|
                    0 <= j < pairs@.len() && (#[trigger] pairs@[j]).0@ == k,
            forall|j: int| 0 <= j < i ==> (#[trigger] pairs@[j]).0@ != key@,
        decreases pairs@.len() - i,
    {
        if str_eq(pairs[i].0.as_str(), key) {
            proof {
                lemma_pairs_map_holds(pairs@);
                assert(pairs@[i as int].0@ == key@);
            }
            return true;
        }
        i = i + 1;
    }
    false
}

/// The map of a sequence of pairs with unique keys does not depend on their
/// order: it holds each pair.
proof fn lemma_pairs_map_holds(pairs: Seq<(String, String)>)
    requires
        keys_unique(pairs),
    ensures
        forall|i: int|
            0 <= i < pairs.len() ==> pairs_map(pairs).contains_key((#[trigger] pairs[i]).0@)
                && pairs_map(pairs)[pairs[i].0@] == pairs[i].1@,
        forall|k: Seq<char>|
            pairs_map(pairs).contains_key(k) ==> exists|i: int|
                0 <= i < pairs.len() && (#[trigger] pairs[i]).0@ == k,
    decreases pairs.len(),
{
    if pairs.len() > 0 {
        let init = pairs.drop_last();
        assert forall|i: int, j: int| 0 <= i < j < init.len() implies (#[trigger] init[i]).0@
            != (#[trigger] init[j]).0@ by {
            assert(init[i] == pairs[i] && init[j] == pairs[j]);
        }
        lemma_pairs_map_holds(init);
        assert forall|i: int| 0 <= i < pairs.len() implies pairs_map(pairs).contains_key(
            (#[trigger] pairs[i]).0@,
        ) && pairs_map(pairs)[pairs[i].0@] == pairs[i].1@ by {
            if i < pairs.len() - 1 {
                assert(init[i] == pairs[i]);
                assert(pairs[i].0@ != pairs[pairs.len() - 1].0@);
            }
        }
        assert forall|k: Seq<char>| pairs_map(pairs).contains_key(k) implies exists|i: int|
            0 <= i < pairs.len() && (#[trigger] pairs[i]).0@ == k by {
            if k != pairs.last().0@ {
                assert(pairs_map(init).contains_key(k));
                let i = choose|i: int| 0 <= i < init.len() && (#[trigger] init[i]).0@ == k;
                assert(pairs[i] == init[i]);
            } else {
                assert(pairs[pairs.len() - 1].0@ == k);
            }
        }
    }
}

/// Two sequences of pairs with unique keys that hold the same pairs, key by
/// key, have the same map.
proof fn lemma_replace_keeps_map(before: Seq<(String, String)>, i: int, after: Seq<(String, String)>)
    requires
        keys_unique(before),
        0 <= i < before.len(),
        after.len() == before.len(),
        forall|j: int| 0 <= j < before.len() && j != i ==> after[j] == before[j],
        after[i].0@ == before[i].0@,
    ensures
        keys_unique(after),
        pairs_map(after) == pairs_map(before).insert(after[i].0@, after[i].1@),
{
    assert forall|a: int, b: int| 0 <= a < b < after.len() implies (#[trigger] after[a]).0@
        != (#[trigger] after[b]).0@ by {
        assert(before[a].0@ != before[b].0@);
    }
    lemma_pairs_map_holds(before);
    lemma_pairs_map_holds(after);
    let m = pairs_map(before).insert(after[i].0@, after[i].1@);
    assert forall|k: Seq<char>| #[trigger] pairs_map(after).contains_key(k) == m.contains_key(k) by {
        if pairs_map(after).contains_key(k) {
            let j = choose|j: int| 0 <= j < after.len() && (#[trigger] after[j]).0@ == k;
            if j != i {
                assert(before[j] == after[j]);
            }
        }
        if pairs_map(before).contains_key(k) {
            let j = choose|j: int| 0 <= j < before.len() && (#[trigger] before[j]).0@ == k;
            if j != i {
                assert(before[j] == after[j]);
            }
        }
    }
    assert forall|k: Seq<char>| #[trigger] pairs_map(after).contains_key(k) implies pairs_map(
        after,
    )[k] == m[k] by {
        let j = choose|j: int| 0 <= j < after.len() && (#[trigger] after[j]).0@ == k;
        if j != i {
            assert(before[j] == after[j]);
            assert(before[j].0@ != before[i].0@);
        }
    }
    assert(pairs_map(after) =~= m);
}

/// The properties that the lines of a properties file define, each key once.
pub fn parse_properties(lines: &Vec<String>) -> (r: Vec<(String, String)>)
    ensures
        keys_unique(r@),
        pairs_map(r@) == spec_properties(lines@.map_values(|l: String| l@)),
{
    let mut pairs: Vec<(String, String)> = Vec::new();
    let mut i: usize = 0;
    while i < lines.len()
        invariant
            i <= lines@.len(),
            keys_unique(pairs@),
            pairs_map(pairs@) == spec_properties(lines@.take(i as int).map_values(|l: String| l@)),
        decreases lines@.len() - i,
    {
        let ghost seen = lines@.take(i as int).map_values(|l: String| l@);
        let ghost next = lines@.take(i + 1).map_values(|l: String| l@);
        assert(next.drop_last() =~= seen);
        assert(next.last() == lines@[i as int]@);
        match parse_property_line(lines[i].as_str()) {
            Some((key, value)) => set_property(&mut pairs, key, value),
            None => {},
        }
        i = i + 1;
    }
    assert(lines@.take(lines@.len() as int) =~= lines@);
    pairs
}

} // verus!
