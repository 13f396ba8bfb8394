//! Laws of the header list: what lookups see after each kind of change, and
//! that every lookup ignores the case of the name it is given.

use vstd::prelude::*;
use crate::text::{
    ascii_lower, ascii_lower_char, ascii_upper, ascii_upper_char, is_ascii_text, lowercase, same_name,
};
use crate::headers::{
    HeaderEntries, first_match, has_name, lookup, values_of, with_removed, with_set,
    lemma_first_match, lemma_first_match_at,
};

verus! {

/// Lookups of two names that lower-case alike find the same entries.
proof fn lemma_congruent(hs: HeaderEntries, n: Seq<char>, m: Seq<char>)
    requires
        lowercase(n) == lowercase(m),
    ensures
        first_match(hs, n) == first_match(hs, m),
        values_of(hs, n) == values_of(hs, m),
    decreases hs.len(),
{
    if hs.len() > 0 {
        lemma_congruent(hs.drop_first(), n, m);
        lemma_congruent(hs.drop_last(), n, m);
    }
}

/// The values named `n` are empty exactly when no entry is named `n`, and
/// otherwise start with the value of the first such entry.
proof fn lemma_values_start(hs: HeaderEntries, n: Seq<char>)
    ensures
        values_of(hs, n).len() == 0 <==> !has_name(hs, n),
        first_match(hs, n) matches Some(i) ==> values_of(hs, n)[0] == hs[i].1,
    decreases hs.len(),
{
    lemma_first_match(hs, n);
    if hs.len() > 0 {
        let init = hs.drop_last();
        lemma_values_start(init, n);
        lemma_first_match(init, n);
        assert forall|j: int| 0 <= j < init.len() implies #[trigger] init[j] == hs[j] by {}
        if has_name(init, n) {
            let k = choose|k: int| 0 <= k < init.len() && same_name(#[trigger] init[k].0, n);
            assert(hs[k].0 == init[k].0);
        }
        if has_name(hs, n) && !same_name(hs.last().0, n) {
            let k = choose|k: int| 0 <= k < hs.len() && same_name(#[trigger] hs[k].0, n);
            assert(init[k].0 == hs[k].0);
        }
        match first_match(hs, n) {
            Some(i) => {
                if i < hs.len() - 1 {
                    lemma_first_match_at(init, n, i);
                } else {
                    lemma_first_match_at(init, n, init.len() as int);
                }
            },
            None => {},
        }
    }
}

/// Values named `m` are unchanged by replacing an entry not named `m` by
/// another not named `m`.
proof fn lemma_values_update_other(hs: HeaderEntries, i: int, e: (Seq<char>, Seq<char>), m: Seq<char>)
    requires
        0 <= i < hs.len(),
        !same_name(hs[i].0, m),
        !same_name(e.0, m),
    ensures
        values_of(hs.update(i, e), m) == values_of(hs, m),
    decreases hs.len(),
{
    let u = hs.update(i, e);
    if i == hs.len() - 1 {
        assert(u.drop_last() =~= hs.drop_last());
    } else {
        assert(u.drop_last() =~= hs.drop_last().update(i, e));
        lemma_values_update_other(hs.drop_last(), i, e, m);
    }
}

/// Values of a concatenation are the concatenation of the values.
proof fn lemma_values_concat(a: HeaderEntries, b: HeaderEntries, n: Seq<char>)
    ensures
        values_of(a + b, n) == values_of(a, n) + values_of(b, n),
    decreases b.len(),
{
    if b.len() == 0 {
        assert(a + b =~= a);
        assert(values_of(a, n) + values_of(b, n) =~= values_of(a, n));
    } else {
        lemma_values_concat(a, b.drop_last(), n);
        assert((a + b).drop_last() =~= a + b.drop_last());
        assert((a + b).last() == b.last());
        if same_name(b.last().0, n) {
            assert(values_of(a, n) + values_of(b.drop_last(), n).push(b.last().1) =~= (values_of(
                a,
                n,
            ) + values_of(b.drop_last(), n)).push(b.last().1));
        }
    }
}

/// After `set`, a lookup of the same name (in any case) finds the new value.
pub proof fn law_get_after_set(hs: HeaderEntries, name: Seq<char>, value: Seq<char>, query: Seq<char>)
    requires
        same_name(name, query),
    ensures
        lookup(with_set(hs, name, value), query) == Some(value),
{
    let after = with_set(hs, name, value);
    lemma_congruent(hs, name, query);
    lemma_congruent(after, name, query);
    lemma_first_match(hs, name);
    match first_match(hs, name) {
        Some(i) => {
            assert forall|j: int| 0 <= j < i implies !same_name(#[trigger] after[j].0, name) by {
                assert(after[j] == hs[j]);
            }
            lemma_first_match_at(after, name, i);
        },
        None => {
            assert forall|j: int| 0 <= j < hs.len() implies !same_name(#[trigger] after[j].0, name) by {
                assert(after[j] == hs[j]);
            }
            lemma_first_match_at(after, name, hs.len() as int);
        },
    }
}

/// `set` leaves the lookups of every other name as they were.
pub proof fn law_set_keeps_other_names(
    hs: HeaderEntries,
    name: Seq<char>,
    value: Seq<char>,
    query: Seq<char>,
)
    requires
        !same_name(name, query),
    ensures
        lookup(with_set(hs, name, value), query) == lookup(hs, query),
        values_of(with_set(hs, name, value), query) == values_of(hs, query),
{
    let after = with_set(hs, name, value);
    lemma_first_match(hs, name);
    lemma_first_match(hs, query);
    match first_match(hs, name) {
        Some(i) => {
            assert(!same_name(hs[i].0, query));
            lemma_values_update_other(hs, i, (hs[i].0, value), query);
            match first_match(hs, query) {
                Some(k) => {
                    assert forall|j: int| 0 <= j < k implies !same_name(#[trigger] after[j].0, query) by {
                        assert(after[j].0 == hs[j].0);
                    }
                    assert(after[k].0 == hs[k].0);
                    lemma_first_match_at(after, query, k);
                    assert(k != i);
                },
                None => {
                    assert forall|j: int| 0 <= j < after.len() implies !same_name(#[trigger] after[j].0, query) by {
                        assert(after[j].0 == hs[j].0);
                    }
                    lemma_first_match_at(after, query, after.len() as int);
                },
            }
        },
        None => {
            assert(after.drop_last() =~= hs);
            match first_match(hs, query) {
                Some(k) => {
                    assert forall|j: int| 0 <= j < k implies !same_name(#[trigger] after[j].0, query) by {
                        assert(after[j] == hs[j]);
                    }
                    assert(after[k] == hs[k]);
                    lemma_first_match_at(after, query, k);
                },
                None => {
                    assert forall|j: int| 0 <= j < after.len() implies !same_name(#[trigger] after[j].0, query) by {
                        if j < hs.len() {
                            assert(after[j] == hs[j]);
                        }
                    }
                    lemma_first_match_at(after, query, after.len() as int);
                },
            }
        },
    }
}

/// `set` keeps the length when the name is present and adds one entry otherwise.
pub proof fn law_set_len(hs: HeaderEntries, name: Seq<char>, value: Seq<char>)
    ensures
        with_set(hs, name, value).len() == if has_name(hs, name) {
            hs.len()
        } else {
            hs.len() + 1
        },
{
    lemma_first_match(hs, name);
    if let Some(i) = first_match(hs, name) {
        assert(same_name(hs[i].0, name));
    }
}

/// A name is contained exactly when a lookup of it finds a value.
pub proof fn law_contains_iff_get(hs: HeaderEntries, name: Seq<char>)
    ensures
        has_name(hs, name) <==> lookup(hs, name) is Some,
{
    lemma_first_match(hs, name);
    if let Some(i) = first_match(hs, name) {
        assert(same_name(hs[i].0, name));
    }
}

/// `get` returns the first of the values that `get_all` returns.
pub proof fn law_get_is_first_of_get_all(hs: HeaderEntries, name: Seq<char>)
    ensures
        lookup(hs, name) == if values_of(hs, name).len() > 0 {
            Some(values_of(hs, name)[0])
        } else {
            None::<Seq<char>>
        },
{
    lemma_values_start(hs, name);
    law_contains_iff_get(hs, name);
}

/// `push` adds its value at the end of the values of its name, and changes
/// no other name's values.
pub proof fn law_push_appends(hs: HeaderEntries, name: Seq<char>, value: Seq<char>, query: Seq<char>)
    ensures
        values_of(hs.push((name, value)), query) == if same_name(name, query) {
            values_of(hs, query).push(value)
        } else {
            values_of(hs, query)
        },
        hs.push((name, value)).len() == hs.len() + 1,
{
    assert(hs.push((name, value)).drop_last() =~= hs);
}

/// `remove` drops the first value of its name (in any case) and shortens the
/// list by one exactly when the name was present.
pub proof fn law_remove_drops_first(hs: HeaderEntries, name: Seq<char>, query: Seq<char>)
    requires
        same_name(name, query),
    ensures
        values_of(with_removed(hs, name), query) == if has_name(hs, name) {
            values_of(hs, query).drop_first()
        } else {
            values_of(hs, query)
        },
        with_removed(hs, name).len() == if has_name(hs, name) {
            hs.len() - 1
        } else {
            hs.len() as int
        },
{
    lemma_congruent(hs, name, query);
    lemma_congruent(with_removed(hs, name), name, query);
    lemma_first_match(hs, name);
    law_contains_iff_get(hs, name);
    if let Some(i) = first_match(hs, name) {
        let pre = hs.take(i);
        let post = hs.skip(i + 1);
        assert(hs =~= pre + seq![hs[i]] + post);
        assert(hs.remove(i) =~= pre + post);
        assert forall|j: int| 0 <= j < pre.len() implies !same_name(#[trigger] pre[j].0, name) by {
            assert(pre[j] == hs[j]);
        }
        lemma_values_start(pre, name);
        lemma_values_concat(pre + seq![hs[i]], post, name);
        lemma_values_concat(pre, seq![hs[i]], name);
        lemma_values_concat(pre, post, name);
        let one: HeaderEntries = seq![hs[i]];
        assert(one.drop_last() =~= Seq::<(Seq<char>, Seq<char>)>::empty());
        assert(one.last() == hs[i]);
        assert(values_of(one.drop_last(), name) =~= Seq::<Seq<char>>::empty());
        assert(values_of(one, name) =~= seq![hs[i].1]);
        assert(values_of(pre, name) =~= Seq::<Seq<char>>::empty());
        assert(values_of(hs, name) =~= seq![hs[i].1] + values_of(post, name));
        assert((seq![hs[i].1] + values_of(post, name)).drop_first() =~= values_of(post, name));
        assert(values_of(hs.remove(i), name) =~= values_of(post, name));
    }
}

/// Every lookup ignores the case of the name: names that lower-case alike
/// are contained, found and listed alike.
pub proof fn law_lookup_ignores_case(hs: HeaderEntries, a: Seq<char>, b: Seq<char>)
    requires
        lowercase(a) == lowercase(b),
    ensures
        has_name(hs, a) == has_name(hs, b),
        lookup(hs, a) == lookup(hs, b),
        values_of(hs, a) == values_of(hs, b),
{
    lemma_congruent(hs, a, b);
    law_contains_iff_get(hs, a);
    law_contains_iff_get(hs, b);
}

/// Upper-casing an ASCII character and lower-casing it again gives its
/// lower-case form, and keeps it ASCII.
proof fn lemma_ascii_char_case(c: char)
    requires
        (c as u32) < 128,
    ensures
        (ascii_upper_char(c) as u32) < 128,
        ascii_lower_char(ascii_upper_char(c)) == ascii_lower_char(c),
{
}

/// On ASCII names the lower-cased form is the ASCII lower-casing, and
/// upper-casing the name first does not change it.
proof fn lemma_ascii_upper_lower(name: Seq<char>)
    requires
        is_ascii_text(name),
    ensures
        is_ascii_text(ascii_upper(name)),
        lowercase(ascii_upper(name)) == lowercase(name),
{
    let up = ascii_upper(name);
    assert forall|i: int| 0 <= i < up.len() implies (#[trigger] up[i] as u32) < 128 by {
        lemma_ascii_char_case(name[i]);
    }
    assert forall|i: int| 0 <= i < name.len() implies #[trigger] ascii_lower(up)[i] == ascii_lower(name)[i] by {
        lemma_ascii_char_case(name[i]);
    }
    assert(ascii_lower(up) =~= ascii_lower(name));
}

/// Lookups ignore the case of ASCII letters: two ASCII names that differ
/// only in the case of their letters are contained, found and listed alike.
pub proof fn law_lookup_ignores_ascii_case(hs: HeaderEntries, a: Seq<char>, b: Seq<char>)
    requires
        is_ascii_text(a),
        is_ascii_text(b),
        ascii_lower(a) == ascii_lower(b),
    ensures
        has_name(hs, a) == has_name(hs, b),
        lookup(hs, a) == lookup(hs, b),
        values_of(hs, a) == values_of(hs, b),
{
    law_lookup_ignores_case(hs, a, b);
}

/// Upper-casing an ASCII name changes no lookup: the list contains, finds
/// and lists the upper-cased name exactly as the name itself.
pub proof fn law_ascii_uppercase_name_finds_same(hs: HeaderEntries, name: Seq<char>)
    requires
        is_ascii_text(name),
    ensures
        has_name(hs, ascii_upper(name)) == has_name(hs, name),
        lookup(hs, ascii_upper(name)) == lookup(hs, name),
        values_of(hs, ascii_upper(name)) == values_of(hs, name),
{
    lemma_ascii_upper_lower(name);
    law_lookup_ignores_case(hs, ascii_upper(name), name);
}

/// Removing a name that was pushed onto a list without that name undoes the
/// push.
pub proof fn law_remove_undoes_push(hs: HeaderEntries, name: Seq<char>, value: Seq<char>)
    requires
        !has_name(hs, name),
    ensures
        with_removed(hs.push((name, value)), name) == hs,
{
    let after = hs.push((name, value));
    assert forall|j: int| 0 <= j < hs.len() implies !same_name(#[trigger] after[j].0, name) by {
        assert(after[j] == hs[j]);
        if same_name(hs[j].0, name) {
            assert(has_name(hs, name));
        }
    }
    lemma_first_match_at(after, name, hs.len() as int);
    assert(after.remove(hs.len() as int) =~= hs);
}

/// Setting a name twice to the same value is the same as setting it once.
pub proof fn law_set_idempotent(hs: HeaderEntries, name: Seq<char>, value: Seq<char>)
    ensures
        with_set(with_set(hs, name, value), name, value) == with_set(hs, name, value),
{
    let once = with_set(hs, name, value);
    law_get_after_set(hs, name, value, name);
    lemma_first_match(hs, name);
    lemma_first_match(once, name);
    match first_match(hs, name) {
        Some(i) => {
            assert forall|j: int| 0 <= j < i implies !same_name(#[trigger] once[j].0, name) by {
                assert(once[j] == hs[j]);
            }
            lemma_first_match_at(once, name, i);
            assert(once.update(i, (once[i].0, value)) =~= once);
        },
        None => {
            assert forall|j: int| 0 <= j < hs.len() implies !same_name(#[trigger] once[j].0, name) by {
                assert(once[j] == hs[j]);
            }
            lemma_first_match_at(once, name, hs.len() as int);
            assert(once.update(hs.len() as int, (once[hs.len() as int].0, value)) =~= once);
        },
    }
}

/// Removing a name takes out exactly its first entry: when the first entry
/// with that name is at `i`, the list afterwards is the entries before `i`
/// followed by those after it, every other entry in its place in the order,
/// and the value removed is that entry's value.
pub proof fn law_remove_takes_out_first_entry(hs: HeaderEntries, name: Seq<char>, i: int)
    requires
        0 <= i < hs.len(),
        same_name(hs[i].0, name),
        forall|j: int| 0 <= j < i ==> !same_name(#[trigger] hs[j].0, name),
    ensures
        with_removed(hs, name) == hs.take(i) + hs.skip(i + 1),
        with_removed(hs, name).len() == hs.len() - 1,
        forall|j: int| 0 <= j < i ==> #[trigger] with_removed(hs, name)[j] == hs[j],
        forall|j: int| i < j < hs.len() ==> #[trigger] with_removed(hs, name)[j - 1] == hs[j],
        lookup(hs, name) == Some(hs[i].1),
{
    lemma_first_match_at(hs, name, i);
    assert(hs.remove(i) =~= hs.take(i) + hs.skip(i + 1));
}

/// Removing a name that no entry has leaves the list as it was.
pub proof fn law_remove_absent_keeps_list(hs: HeaderEntries, name: Seq<char>)
    requires
        forall|j: int| 0 <= j < hs.len() ==> !same_name(#[trigger] hs[j].0, name),
    ensures
        with_removed(hs, name) == hs,
        lookup(hs, name) is None,
{
    lemma_first_match_at(hs, name, hs.len() as int);
}

/// Setting a name that the list has changes its first entry in place: the
/// length stays, that entry keeps its stored name and takes the new value,
/// and every other entry stays where it was.
pub proof fn law_set_replaces_in_place(hs: HeaderEntries, name: Seq<char>, value: Seq<char>, i: int)
    requires
        0 <= i < hs.len(),
        same_name(hs[i].0, name),
        forall|j: int| 0 <= j < i ==> !same_name(#[trigger] hs[j].0, name),
    ensures
        with_set(hs, name, value).len() == hs.len(),
        with_set(hs, name, value)[i] == (hs[i].0, value),
        forall|j: int| 0 <= j < hs.len() && j != i ==> #[trigger] with_set(hs, name, value)[j] == hs[j],
{
    lemma_first_match_at(hs, name, i);
}

/// Setting a name that no entry has appends the pair at the end and keeps
/// every entry before it.
pub proof fn law_set_absent_appends(hs: HeaderEntries, name: Seq<char>, value: Seq<char>)
    requires
        forall|j: int| 0 <= j < hs.len() ==> !same_name(#[trigger] hs[j].0, name),
    ensures
        with_set(hs, name, value) == hs.push((name, value)),
{
    lemma_first_match_at(hs, name, hs.len() as int);
}

} // verus!
