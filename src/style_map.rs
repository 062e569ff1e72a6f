//! Property maps held as vectors of (name, value) pairs.
use vstd::prelude::*;

verus! {

/// The view of an optional string.
pub open spec fn opt_view(o: Option<String>) -> Option<Seq<char>> {
    match o {
        Some(s) => Some(s@),
        None => None,
    }
}

/// The views of (name, value) pairs.
pub open spec fn pair_views(v: Seq<(String, String)>) -> Seq<(Seq<char>, Seq<char>)> {
    v.map_values(|p: (String, String)| (p.0@, p.1@))
}

/// The views of (name, optional value) pairs.
pub open spec fn member_views(v: Seq<(String, Option<String>)>) -> Seq<(Seq<char>, Option<Seq<char>>)> {
    v.map_values(|p: (String, Option<String>)| (p.0@, opt_view(p.1)))
}

/// No name stands twice.
pub open spec fn distinct_keys<V>(es: Seq<(Seq<char>, V)>) -> bool {
    forall|i: int, j: int| 0 <= i < j < es.len() ==> es[i].0 != es[j].0
}

/// The value paired with the first occurrence of `k`.
pub open spec fn lookup(es: Seq<(Seq<char>, Seq<char>)>, k: Seq<char>) -> Option<Seq<char>>
    decreases es.len(),
{
    if es.len() == 0 {
        None
    } else if es[0].0 == k {
        Some(es[0].1)
    } else {
        lookup(es.drop_first(), k)
    }
}

/// The value of property `name` in `styles`.
pub fn style_get(styles: &Vec<(String, String)>, name: &str) -> (r: Option<String>)
    ensures
        opt_view(r) == lookup(pair_views(styles@), name@),
{
    let key = String::from_str(name);
    let n = styles.len();
    let mut i: usize = 0;
    assert(pair_views(styles@).skip(0) =~= pair_views(styles@));
    while i < n
        invariant
            n == styles@.len(),
            i <= n,
            key@ == name@,
            lookup(pair_views(styles@), name@) == lookup(pair_views(styles@).skip(i as int), name@),
        decreases n - i,
    {
        let ghost rest = pair_views(styles@).skip(i as int);
        assert(pair_views(styles@).skip(i + 1) =~= rest.drop_first());
        if styles[i].0 == key {
            return Some(styles[i].1.clone());
        }
        i = i + 1;
    }
    None
}

/// The position of the first pair named `k`, from position `i` on.
pub open spec fn key_index_from(es: Seq<(Seq<char>, Seq<char>)>, k: Seq<char>, i: int) -> Option<int>
    decreases es.len() - i,
{
    if i < 0 || i >= es.len() {
        None
    } else if es[i].0 == k {
        Some(i)
    } else {
        key_index_from(es, k, i + 1)
    }
}

/// The pairs with `k` set to `v`: the first pair named `k` takes the new value,
/// or the pair is added at the end where there is none.
pub open spec fn assigned(es: Seq<(Seq<char>, Seq<char>)>, k: Seq<char>, v: Seq<char>) -> Seq<(Seq<char>, Seq<char>)> {
    match key_index_from(es, k, 0) {
        Some(i) => es.update(i, (k, v)),
        None => es.push((k, v)),
    }
}

/// Sets the value of `name` in `entries`, as a map insert does.
pub fn set_entry(entries: &mut Vec<(String, String)>, name: &str, value: &str)
    ensures
        pair_views(final(entries)@) == assigned(pair_views(old(entries)@), name@, value@),
{
    let key = String::from_str(name);
    let ghost es = pair_views(entries@);
    let n = entries.len();
    let mut i: usize = 0;
    while i < n
        invariant
            n == entries@.len(),
            es == pair_views(entries@),
            *entries == *old(entries),
            key@ == name@,
            i <= n,
            key_index_from(es, name@, 0) == key_index_from(es, name@, i as int),
        decreases n - i,
    {
        if entries[i].0 == key {
            entries.set(i, (key, String::from_str(value)));
            assert(pair_views(entries@) =~= es.update(i as int, (name@, value@)));
            return;
        }
        i = i + 1;
    }
    entries.push((key, String::from_str(value)));
    assert(pair_views(entries@) =~= es.push((name@, value@)));
}

/// Facts on the position that `key_index_from` gives.
pub proof fn lemma_key_index_from(es: Seq<(Seq<char>, Seq<char>)>, k: Seq<char>, j: int)
    requires
        0 <= j,
    ensures
        key_index_from(es, k, j) matches Some(i) ==> j <= i < es.len() && es[i].0 == k && forall|
            m: int,
        |
            j <= m < i ==> #[trigger] es[m].0 != k,
        key_index_from(es, k, j) is None ==> forall|m: int| j <= m < es.len() ==> #[trigger] es[m].0 != k,
    decreases es.len() - j,
{
    if j < es.len() && es[j].0 != k {
        lemma_key_index_from(es, k, j + 1);
    }
}

/// `lookup` finds the value at the first position that holds the name.
pub proof fn lemma_lookup_at(es: Seq<(Seq<char>, Seq<char>)>, k: Seq<char>, i: int)
    requires
        0 <= i < es.len(),
        es[i].0 == k,
        forall|m: int| 0 <= m < i ==> #[trigger] es[m].0 != k,
    ensures
        lookup(es, k) == Some(es[i].1),
    decreases i,
{
    if i > 0 {
        assert(es[0].0 != k);
        let rest = es.drop_first();
        assert forall|m: int| 0 <= m < i - 1 implies #[trigger] rest[m].0 != k by {
            assert(rest[m] == es[m + 1]);
        }
        lemma_lookup_at(rest, k, i - 1);
    }
}

/// Reading a name back after setting it gives the value set: after
/// `with_attribute(name, value)`, `attr_value(name)` is `value`.
pub proof fn lemma_assigned_lookup(es: Seq<(Seq<char>, Seq<char>)>, k: Seq<char>, v: Seq<char>)
    ensures
        lookup(assigned(es, k, v), k) == Some(v),
{
    lemma_key_index_from(es, k, 0);
    let s = assigned(es, k, v);
    match key_index_from(es, k, 0) {
        Some(i) => {
            assert forall|m: int| 0 <= m < i implies #[trigger] s[m].0 != k by {
                assert(s[m] == es[m]);
            }
            lemma_lookup_at(s, k, i);
        },
        None => {
            assert forall|m: int| 0 <= m < es.len() implies #[trigger] s[m].0 != k by {
                assert(s[m] == es[m]);
            }
            lemma_lookup_at(s, k, es.len() as int);
        },
    }
}

/// Setting a name keeps each name once.
pub proof fn lemma_assigned_distinct(es: Seq<(Seq<char>, Seq<char>)>, k: Seq<char>, v: Seq<char>)
    requires
        distinct_keys(es),
    ensures
        distinct_keys(assigned(es, k, v)),
{
    lemma_key_index_from(es, k, 0);
    let s = assigned(es, k, v);
    match key_index_from(es, k, 0) {
        Some(i) => {
            assert forall|a: int, b: int| 0 <= a < b < s.len() implies s[a].0 != s[b].0 by {
                assert(es[a].0 != es[b].0);
            }
        },
        None => {
            assert forall|a: int, b: int| 0 <= a < b < s.len() implies s[a].0 != s[b].0 by {
                if b < es.len() {
                    assert(es[a].0 != es[b].0);
                } else {
                    assert(s[a] == es[a]);
                }
            }
        },
    }
}

} // verus!
