//! The selected-dependency set and the searchable dependency list: a
//! strictly sorted vector of unique ids, toggling an id in and out of it,
//! and case-insensitive substring filtering of the catalog.

use vstd::prelude::*;

use crate::text::{
    all_whitespace, contains_chars, contains_seq, is_space, lemma_lex_connex,
    lemma_lex_irreflexive, lemma_lex_transitive, lex_lt, lower_char, lowercase_ascii, str_eq,
    str_lt, to_lower,
};

verus! {

/// The contents of a vector of strings, as sequences.
pub open spec fn seq_ids(v: Seq<String>) -> Seq<Seq<char>> {
    v.map_values(|s: String| s@)
}

/// Strictly increasing in lexicographic order; such a sequence holds no
/// duplicates.
pub open spec fn strictly_sorted(s: Seq<Seq<char>>) -> bool {
    forall|i: int, j: int| 0 <= i < j < s.len() ==> lex_lt(#[trigger] s[i], #[trigger] s[j])
}

/// Where `id` belongs in a sorted sequence: before the first element it is
/// not greater than.  Inserting an id already present changes nothing.
pub open spec fn spec_insert(s: Seq<Seq<char>>, id: Seq<char>) -> Seq<Seq<char>>
    decreases s.len(),
{
    if s.len() == 0 {
        seq![id]
    } else if lex_lt(id, s[0]) {
        seq![id] + s
    } else if id == s[0] {
        s
    } else {
        seq![s[0]] + spec_insert(s.drop_first(), id)
    }
}

/// The sequence with the first occurrence of `id` removed.
pub open spec fn spec_remove(s: Seq<Seq<char>>, id: Seq<char>) -> Seq<Seq<char>>
    decreases s.len(),
{
    if s.len() == 0 {
        s
    } else if s[0] == id {
        s.drop_first()
    } else {
        seq![s[0]] + spec_remove(s.drop_first(), id)
    }
}

/// Adding if absent, removing if present.
pub open spec fn spec_toggle(s: Seq<Seq<char>>, id: Seq<char>) -> Seq<Seq<char>> {
    if s.contains(id) {
        spec_remove(s, id)
    } else {
        spec_insert(s, id)
    }
}

// ---------------------------------------------------------------------------
// Positional characterisation of insertion and removal
// ---------------------------------------------------------------------------

/// Inserting lands exactly at the first position whose element is not
/// below `id`.
proof fn lemma_insert_at(s: Seq<Seq<char>>, id: Seq<char>, i: int)
    requires
        0 <= i <= s.len(),
        forall|j: int| 0 <= j < i ==> lex_lt(#[trigger] s[j], id),
        i < s.len() ==> !lex_lt(s[i], id) && s[i] != id,
    ensures
        spec_insert(s, id) == s.subrange(0, i) + seq![id] + s.subrange(i, s.len() as int),
    decreases i,
{
    if i == 0 {
        if s.len() == 0 {
            assert(spec_insert(s, id) =~= s.subrange(0, 0) + seq![id] + s.subrange(0, 0));
        } else {
            lemma_lex_connex(id, s[0]);
            assert(lex_lt(id, s[0]));
            assert(seq![id] + s =~= s.subrange(0, 0) + seq![id] + s.subrange(0, s.len() as int));
        }
    } else {
        assert(lex_lt(s[0], id));
        assert(!lex_lt(id, s[0])) by {
            if lex_lt(id, s[0]) {
                lemma_lex_transitive(id, s[0], id);
                lemma_lex_irreflexive(id);
            }
        }
        assert(id != s[0]) by {
            if id == s[0] {
                lemma_lex_irreflexive(id);
            }
        }
        let t = s.drop_first();
        assert(forall|j: int| 0 <= j < i - 1 ==> lex_lt(#[trigger] t[j], id));
        lemma_insert_at(t, id, i - 1);
        assert(seq![s[0]] + (t.subrange(0, i - 1) + seq![id] + t.subrange(i - 1, t.len() as int))
            =~= s.subrange(0, i) + seq![id] + s.subrange(i, s.len() as int));
    }
}

/// Removing takes out exactly the position that holds `id`.
proof fn lemma_remove_at(s: Seq<Seq<char>>, id: Seq<char>, i: int)
    requires
        0 <= i < s.len(),
        s[i] == id,
        forall|j: int| 0 <= j < i ==> #[trigger] s[j] != id,
    ensures
        spec_remove(s, id) == s.subrange(0, i) + s.subrange(i + 1, s.len() as int),
    decreases i,
{
    if i == 0 {
        assert(s.drop_first() =~= s.subrange(0, 0) + s.subrange(1, s.len() as int));
    } else {
        let t = s.drop_first();
        assert(forall|j: int| 0 <= j < i - 1 ==> #[trigger] t[j] != id);
        lemma_remove_at(t, id, i - 1);
        assert(seq![s[0]] + (t.subrange(0, i - 1) + t.subrange(i, t.len() as int)) =~= s.subrange(
            0,
            i,
        ) + s.subrange(i + 1, s.len() as int));
    }
}

// ---------------------------------------------------------------------------
// What insertion and removal preserve
// ---------------------------------------------------------------------------

/// Insertion keeps the order strict and adds exactly `id` to the contents.
pub proof fn lemma_insert_sorted(s: Seq<Seq<char>>, id: Seq<char>)
    requires
        strictly_sorted(s),
        !s.contains(id),
    ensures
        strictly_sorted(spec_insert(s, id)),
        forall|x: Seq<char>| spec_insert(s, id).contains(x) <==> s.contains(x) || x == id,
        spec_insert(s, id).len() == s.len() + 1,
{
    let i = insert_point(s, id, 0);
    lemma_insert_point(s, id, 0);
    lemma_insert_at(s, id, i);
    let r = s.subrange(0, i) + seq![id] + s.subrange(i, s.len() as int);
    assert forall|p: int, q: int| 0 <= p < q < r.len() implies lex_lt(
        #[trigger] r[p],
        #[trigger] r[q],
    ) by {
        if q < i {
            assert(r[p] == s[p] && r[q] == s[q]);
        } else if p < i && q == i {
            assert(r[p] == s[p] && r[q] == id);
        } else if p < i && q > i {
            assert(r[p] == s[p] && r[q] == s[q - 1]);
            assert(p < q - 1);
        } else if p == i {
            assert(r[p] == id && r[q] == s[q - 1]);
            if q - 1 > i {
                assert(lex_lt(s[i], s[q - 1]));
                if lex_lt(s[q - 1], id) {
                    lemma_lex_transitive(s[i], s[q - 1], id);
                }
                assert(s[q - 1] != id);
                lemma_lex_connex(id, s[q - 1]);
            } else {
                lemma_lex_connex(id, s[i]);
            }
        } else {
            assert(i < p);
            assert(r[p] == s[p - 1] && r[q] == s[q - 1]);
        }
    }
    assert forall|x: Seq<char>| r.contains(x) implies s.contains(x) || x == id by {
        let k = choose|k: int| 0 <= k < r.len() && r[k] == x;
        if k < i {
            assert(s[k] == x);
        } else if k > i {
            assert(s[k - 1] == x);
        }
    }
    assert forall|x: Seq<char>| s.contains(x) implies r.contains(x) by {
        let k = choose|k: int| 0 <= k < s.len() && s[k] == x;
        if k < i {
            assert(r[k] == x);
        } else {
            assert(r[k + 1] == x);
        }
    }
    assert(r[i] == id);
}

/// Removal keeps the order strict and takes exactly `id` out of the
/// contents.
pub proof fn lemma_remove_sorted(s: Seq<Seq<char>>, id: Seq<char>)
    requires
        strictly_sorted(s),
        s.contains(id),
    ensures
        strictly_sorted(spec_remove(s, id)),
        forall|x: Seq<char>| spec_remove(s, id).contains(x) <==> s.contains(x) && x != id,
        spec_remove(s, id).len() == s.len() - 1,
{
    let i = choose|i: int| 0 <= i < s.len() && s[i] == id;
    assert(forall|j: int| 0 <= j < i ==> #[trigger] s[j] != id) by {
        assert forall|j: int| 0 <= j < i implies #[trigger] s[j] != id by {
            if s[j] == id {
                lemma_lex_irreflexive(id);
            }
        }
    }
    lemma_remove_at(s, id, i);
    let r = s.subrange(0, i) + s.subrange(i + 1, s.len() as int);
    assert forall|p: int, q: int| 0 <= p < q < r.len() implies lex_lt(
        #[trigger] r[p],
        #[trigger] r[q],
    ) by {
        let sp = if p < i {
            p
        } else {
            p + 1
        };
        let sq = if q < i {
            q
        } else {
            q + 1
        };
        assert(r[p] == s[sp] && r[q] == s[sq]);
    }
    assert forall|x: Seq<char>| r.contains(x) implies s.contains(x) && x != id by {
        let k = choose|k: int| 0 <= k < r.len() && r[k] == x;
        let sk = if k < i {
            k
        } else {
            k + 1
        };
        assert(s[sk] == x);
        if x == id {
            lemma_lex_irreflexive(id);
        }
    }
    assert forall|x: Seq<char>| s.contains(x) && x != id implies r.contains(x) by {
        let k = choose|k: int| 0 <= k < s.len() && s[k] == x;
        if k < i {
            assert(r[k] == x);
        } else if k > i {
            assert(r[k - 1] == x);
        }
    }
}

/// The least position whose element is not below `id`.
spec fn insert_point(s: Seq<Seq<char>>, id: Seq<char>, from: int) -> int
    decreases s.len() - from,
{
    if from >= s.len() {
        s.len() as int
    } else if lex_lt(s[from], id) {
        insert_point(s, id, from + 1)
    } else {
        from
    }
}

proof fn lemma_insert_point(s: Seq<Seq<char>>, id: Seq<char>, from: int)
    requires
        0 <= from <= s.len(),
        forall|j: int| 0 <= j < from ==> lex_lt(#[trigger] s[j], id),
        strictly_sorted(s),
        !s.contains(id),
    ensures
        from <= insert_point(s, id, from) <= s.len(),
        forall|j: int| 0 <= j < insert_point(s, id, from) ==> lex_lt(#[trigger] s[j], id),
        insert_point(s, id, from) < s.len() ==> !lex_lt(s[insert_point(s, id, from)], id) && s[
            insert_point(s, id, from)] != id,
    decreases s.len() - from,
{
    if from < s.len() {
        if lex_lt(s[from], id) {
            lemma_insert_point(s, id, from + 1);
        } else {
            assert(s[from] != id);
        }
    }
}

// ---------------------------------------------------------------------------
// Toggling twice restores the set
// ---------------------------------------------------------------------------

/// Removing a freshly inserted id restores the sequence.
pub proof fn lemma_remove_insert(s: Seq<Seq<char>>, id: Seq<char>)
    requires
        strictly_sorted(s),
        !s.contains(id),
    ensures
        spec_remove(spec_insert(s, id), id) == s,
    decreases s.len(),
{
    if s.len() == 0 {
        assert(spec_insert(s, id) == seq![id]);
        assert(seq![id][0] == id);
        assert(seq![id].drop_first() =~= s);
    } else if lex_lt(id, s[0]) {
        let r = seq![id] + s;
        assert(r[0] == id);
        assert(r.drop_first() =~= s);
    } else {
        assert(id != s[0]) by {
            if id == s[0] {
                assert(s.contains(id)) by {
                    assert(s[0] == id);
                }
            }
        }
        let t = s.drop_first();
        assert(!t.contains(id)) by {
            if t.contains(id) {
                let k = choose|k: int| 0 <= k < t.len() && t[k] == id;
                assert(s[k + 1] == id);
            }
        }
        lemma_remove_insert(t, id);
        let r = seq![s[0]] + spec_insert(t, id);
        assert(spec_insert(s, id) == r);
        assert(r[0] == s[0]);
        assert(r[0] != id);
        assert(r.drop_first() =~= spec_insert(t, id));
        assert(spec_remove(r, id) == seq![s[0]] + spec_remove(spec_insert(t, id), id));
        assert(seq![s[0]] + t =~= s);
    }
}

/// Inserting a freshly removed id restores the sequence.
pub proof fn lemma_insert_remove(s: Seq<Seq<char>>, id: Seq<char>)
    requires
        strictly_sorted(s),
        s.contains(id),
    ensures
        spec_insert(spec_remove(s, id), id) == s,
    decreases s.len(),
{
    if s[0] == id {
        let t = s.drop_first();
        assert(spec_remove(s, id) == t);
        if t.len() == 0 {
            assert(seq![id] =~= s);
        } else {
            assert(lex_lt(id, t[0])) by {
                assert(t[0] == s[1]);
            }
            assert(seq![id] + t =~= s);
        }
    } else {
        let t = s.drop_first();
        assert(t.contains(id)) by {
            let k = choose|k: int| 0 <= k < s.len() && s[k] == id;
            assert(t[k - 1] == id);
        }
        lemma_insert_remove(t, id);
        assert(spec_remove(s, id) == seq![s[0]] + spec_remove(t, id));
        let u = spec_remove(t, id);
        let r = seq![s[0]] + u;
        assert(lex_lt(s[0], id)) by {
            let k = choose|k: int| 0 <= k < s.len() && s[k] == id;
            assert(k > 0);
            assert(lex_lt(s[0], s[k]));
        }
        assert(!lex_lt(id, r[0])) by {
            if lex_lt(id, s[0]) {
                lemma_lex_transitive(id, s[0], id);
                lemma_lex_irreflexive(id);
            }
        }
        assert(id != r[0]) by {
            if id == s[0] {
                lemma_lex_irreflexive(id);
            }
        }
        assert(r.len() > 0);
        assert(spec_insert(r, id) == seq![r[0]] + spec_insert(r.drop_first(), id));
        assert(r.drop_first() =~= u);
        assert(seq![s[0]] + t =~= s);
    }
}

/// Toggling an id twice restores the selected set exactly.
pub proof fn lemma_toggle_involutive(s: Seq<Seq<char>>, id: Seq<char>)
    requires
        strictly_sorted(s),
    ensures
        spec_toggle(spec_toggle(s, id), id) == s,
{
    if s.contains(id) {
        lemma_remove_sorted(s, id);
        lemma_insert_remove(s, id);
        assert(!spec_remove(s, id).contains(id));
    } else {
        lemma_insert_sorted(s, id);
        lemma_remove_insert(s, id);
        assert(spec_insert(s, id).contains(id));
    }
}

// ---------------------------------------------------------------------------
// The executable toggle
// ---------------------------------------------------------------------------

/// Adds `id` to the sorted vector if absent, removes it if present.
#[verifier::loop_isolation(false)]
pub fn toggle_id(v: &mut Vec<String>, id: &str)
    requires
        strictly_sorted(seq_ids(old(v)@)),
    ensures
        seq_ids(final(v)@) == spec_toggle(seq_ids(old(v)@), id@),
        strictly_sorted(seq_ids(final(v)@)),
{
    let ghost s = seq_ids(v@);
    let mut i: usize = 0;
    while i < v.len() && str_lt(v[i].as_str(), id)
        invariant
            0 <= i <= v.len(),
            forall|j: int| 0 <= j < i ==> lex_lt(#[trigger] s[j], id@),
        decreases v.len() - i,
    {
        i = i + 1;
    }
    if i < v.len() && str_eq(v[i].as_str(), id) {
        proof {
            assert(s[i as int] == id@);
            assert(s.contains(id@));
            assert forall|j: int| 0 <= j < i implies #[trigger] s[j] != id@ by {
                if s[j] == id@ {
                    lemma_lex_irreflexive(id@);
                }
            }
            lemma_remove_at(s, id@, i as int);
            lemma_remove_sorted(s, id@);
        }
        v.remove(i);
        proof {
            assert(seq_ids(v@) =~= s.subrange(0, i as int) + s.subrange(i + 1, s.len() as int));
        }
    } else {
        proof {
            assert(!s.contains(id@)) by {
                if s.contains(id@) {
                    let k = choose|k: int| 0 <= k < s.len() && s[k] == id@;
                    if k < i {
                        lemma_lex_irreflexive(id@);
                    } else if k > i {
                        assert(i < s.len());
                        assert(lex_lt(s[i as int], s[k]));
                    }
                }
            }
            lemma_insert_at(s, id@, i as int);
            lemma_insert_sorted(s, id@);
        }
        v.insert(i, id.to_owned());
        proof {
            assert(seq_ids(v@) =~= s.subrange(0, i as int) + seq![id@] + s.subrange(
                i as int,
                s.len() as int,
            ));
        }
    }
}

// ---------------------------------------------------------------------------
// Search filtering
// ---------------------------------------------------------------------------

/// Whether a dependency id passes the search filter: a blank filter keeps
/// everything, any other filter asks for a case-insensitive substring
/// match.
pub open spec fn search_matches(id: Seq<char>, search: Seq<char>) -> bool {
    all_whitespace(search) || contains_seq(to_lower(id), to_lower(search))
}

/// A blank search keeps the whole catalog.
pub proof fn lemma_blank_search_matches_all(id: Seq<char>, search: Seq<char>)
    requires
        all_whitespace(search),
    ensures
        search_matches(id, search),
{
}

/// Matching ignores ASCII case on both sides: ids and searches that agree
/// after case folding match the same.
pub proof fn lemma_search_case_insensitive(
    id1: Seq<char>,
    id2: Seq<char>,
    s1: Seq<char>,
    s2: Seq<char>,
)
    requires
        to_lower(id1) == to_lower(id2),
        to_lower(s1) == to_lower(s2),
    ensures
        search_matches(id1, s1) == search_matches(id2, s2),
{
    assert(to_lower(s1).len() == s1.len() && to_lower(s2).len() == s2.len());
    assert forall|i: int| 0 <= i < s1.len() implies is_space(s1[i]) == is_space(s2[i]) by {
        assert(to_lower(s1)[i] == lower_char(s1[i]));
        assert(to_lower(s2)[i] == lower_char(s2[i]));
    }
    assert(all_whitespace(s1) == all_whitespace(s2));
}

/// The sorted, duplicate-free sequence of the ids that pass the search
/// filter: each id in turn goes to its place in the order, and an id seen
/// twice is kept once.
pub open spec fn options_of(all: Seq<Seq<char>>, search: Seq<char>) -> Seq<Seq<char>>
    decreases all.len(),
{
    if all.len() == 0 {
        Seq::empty()
    } else {
        let rest = options_of(all.drop_last(), search);
        if search_matches(all.last(), search) {
            spec_insert(rest, all.last())
        } else {
            rest
        }
    }
}

/// An id already present stays where it is.
proof fn lemma_insert_found(s: Seq<Seq<char>>, id: Seq<char>, i: int)
    requires
        0 <= i < s.len(),
        s[i] == id,
        forall|j: int| 0 <= j < i ==> lex_lt(#[trigger] s[j], id),
    ensures
        spec_insert(s, id) == s,
    decreases i,
{
    if i == 0 {
        lemma_lex_irreflexive(id);
    } else {
        assert(lex_lt(s[0], id));
        assert(!lex_lt(id, s[0])) by {
            if lex_lt(id, s[0]) {
                lemma_lex_transitive(id, s[0], id);
                lemma_lex_irreflexive(id);
            }
        }
        assert(id != s[0]) by {
            if id == s[0] {
                lemma_lex_irreflexive(id);
            }
        }
        let t = s.drop_first();
        assert(forall|j: int| 0 <= j < i - 1 ==> lex_lt(#[trigger] t[j], id));
        lemma_insert_found(t, id, i - 1);
        assert(seq![s[0]] + t =~= s);
    }
}

/// Collects, in sorted order and without duplicates, the ids of the
/// catalog that pass the search filter.
#[verifier::loop_isolation(false)]
pub fn filter_sorted_ids<T>(pairs: &Vec<(String, T)>, search: &str) -> (r: Vec<String>)
    ensures
        seq_ids(r@) == options_of(pairs@.map_values(|p: (String, T)| p.0@), search@),
        strictly_sorted(seq_ids(r@)),
        forall|x: Seq<char>|
            #[trigger] seq_ids(r@).contains(x) <==> pairs@.map_values(
                |p: (String, T)| p.0@,
            ).contains(x) && search_matches(x, search@),
{
    let ghost all = pairs@.map_values(|p: (String, T)| p.0@);
    let blank = crate::text::is_blank(search);
    let needle = lowercase_ascii(search);
    let mut r: Vec<String> = Vec::new();
    let mut i: usize = 0;
    proof {
        assert(all.subrange(0, 0) =~= Seq::<Seq<char>>::empty());
    }
    while i < pairs.len()
        invariant
            0 <= i <= pairs.len(),
            strictly_sorted(seq_ids(r@)),
            seq_ids(r@) == options_of(all.subrange(0, i as int), search@),
            forall|x: Seq<char>|
                #[trigger] seq_ids(r@).contains(x) <==> (exists|j: int|
                    0 <= j < i && #[trigger] all[j] == x) && search_matches(x, search@),
        decreases pairs.len() - i,
    {
        let id = &pairs[i].0;
        let keep = if blank {
            true
        } else {
            let hay = lowercase_ascii(id.as_str());
            contains_chars(&hay, &needle)
        };
        proof {
            assert(keep == search_matches(id@, search@));
        }
        let ghost before = seq_ids(r@);
        if keep {
            toggle_or_keep(&mut r, id.as_str());
        }
        proof {
            assert(all[i as int] == id@);
            let pre = all.subrange(0, i as int);
            let cur = all.subrange(0, i + 1);
            assert(cur.drop_last() =~= pre);
            assert(cur.last() == id@);
            assert(seq_ids(r@) == options_of(cur, search@));
            assert forall|x: Seq<char>| seq_ids(r@).contains(x) implies ((exists|j: int|
                0 <= j < i + 1 && #[trigger] all[j] == x) && search_matches(x, search@)) by {
                if keep && !before.contains(x) {
                    assert(x == id@);
                    assert(all[i as int] == x);
                } else {
                    assert(before.contains(x));
                    let j = choose|j: int| 0 <= j < i && #[trigger] all[j] == x;
                }
            }
            assert forall|x: Seq<char>|
                (exists|j: int| 0 <= j < i + 1 && #[trigger] all[j] == x) && search_matches(
                    x,
                    search@,
                ) implies seq_ids(r@).contains(x) by {
                let j = choose|j: int| 0 <= j < i + 1 && #[trigger] all[j] == x;
                if j == i {
                    assert(x == id@);
                    assert(keep);
                } else {
                    assert(before.contains(x));
                }
            }
        }
        i = i + 1;
    }
    proof {
        assert(all.subrange(0, all.len() as int) =~= all);
    }
    r
}

/// Inserts `id` into the sorted vector unless it is already there.
#[verifier::loop_isolation(false)]
fn toggle_or_keep(v: &mut Vec<String>, id: &str)
    requires
        strictly_sorted(seq_ids(old(v)@)),
    ensures
        seq_ids(final(v)@) == spec_insert(seq_ids(old(v)@), id@),
        strictly_sorted(seq_ids(final(v)@)),
        forall|x: Seq<char>|
            #[trigger] seq_ids(final(v)@).contains(x) <==> seq_ids(old(v)@).contains(x) || x
                == id@,
{
    let ghost s = seq_ids(v@);
    let mut i: usize = 0;
    while i < v.len() && str_lt(v[i].as_str(), id)
        invariant
            0 <= i <= v.len(),
            forall|j: int| 0 <= j < i ==> lex_lt(#[trigger] s[j], id@),
        decreases v.len() - i,
    {
        i = i + 1;
    }
    if i < v.len() && str_eq(v[i].as_str(), id) {
        proof {
            assert(s[i as int] == id@);
            assert(s.contains(id@));
            lemma_insert_found(s, id@, i as int);
        }
    } else {
        proof {
            assert(!s.contains(id@)) by {
                if s.contains(id@) {
                    let k = choose|k: int| 0 <= k < s.len() && s[k] == id@;
                    if k < i {
                        lemma_lex_irreflexive(id@);
                    } else if k > i {
                        assert(i < s.len());
                        assert(lex_lt(s[i as int], s[k]));
                    }
                }
            }
            lemma_insert_at(s, id@, i as int);
            lemma_insert_sorted(s, id@);
        }
        v.insert(i, id.to_owned());
        proof {
            assert(seq_ids(v@) =~= s.subrange(0, i as int) + seq![id@] + s.subrange(
                i as int,
                s.len() as int,
            ));
        }
    }
}

} // verus!
