//! Small tables keyed by text, as sequences of (key, value) entries: the
//! first entry with a key holds its value.

use vstd::prelude::*;

verus! {

/// The first entry of `t`, from position `i` on, with key `key`.
pub open spec fn key_index<V>(t: Seq<(Seq<char>, V)>, key: Seq<char>, i: int) -> Option<int>
    decreases t.len() - i,
{
    if i < 0 || i >= t.len() {
        None
    } else if t[i].0 == key {
        Some(i)
    } else {
        key_index(t, key, i + 1)
    }
}

/// The value table `t` holds for `key`.
pub open spec fn value_of<V>(t: Seq<(Seq<char>, V)>, key: Seq<char>) -> Option<V> {
    match key_index(t, key, 0) {
        Some(i) => Some(t[i].1),
        None => None,
    }
}

/// Table `t` with `key` set to `value`: the entry of the key is replaced,
/// or a new entry is added at the end.
pub open spec fn set_value<V>(t: Seq<(Seq<char>, V)>, key: Seq<char>, value: V) -> Seq<(Seq<char>, V)> {
    match key_index(t, key, 0) {
        Some(i) => t.update(i, (key, value)),
        None => t.push((key, value)),
    }
}

/// Table `t` without the entries whose key satisfies `hit`, in order.
pub open spec fn retain_keys<V>(t: Seq<(Seq<char>, V)>, hit: spec_fn(Seq<char>) -> bool) -> Seq<(Seq<char>, V)>
    decreases t.len(),
{
    if t.len() == 0 {
        t
    } else {
        let rest = retain_keys(t.drop_last(), hit);
        if hit(t.last().0) {
            rest
        } else {
            rest.push(t.last())
        }
    }
}

proof fn lemma_key_index_found<V>(t: Seq<(Seq<char>, V)>, key: Seq<char>, i: int)
    requires
        0 <= i,
    ensures
        key_index(t, key, i) matches Some(k) ==> (i <= k < t.len() && t[k].0 == key
            && forall|j: int| i <= j < k ==> (#[trigger] t[j]).0 != key),
        key_index(t, key, i) is None ==> forall|j: int| i <= j < t.len() ==> (#[trigger] t[j]).0 != key,
    decreases t.len() - i,
{
    if i < t.len() {
        lemma_key_index_found(t, key, i + 1);
    }
}

proof fn lemma_key_index_unique<V>(t: Seq<(Seq<char>, V)>, key: Seq<char>, k: int)
    requires
        0 <= k < t.len(),
        t[k].0 == key,
        forall|j: int| 0 <= j < k ==> (#[trigger] t[j]).0 != key,
    ensures
        key_index(t, key, 0) == Some(k),
{
    lemma_key_index_found(t, key, 0);
    let f = key_index(t, key, 0);
    if f is None {
        assert(t[k].0 != key);
    } else {
        let m = f.unwrap();
        if m < k {
            assert(t[m].0 != key);
        } else if m > k {
            assert(t[k].0 != key);
        }
    }
}

proof fn lemma_key_index_absent<V>(t: Seq<(Seq<char>, V)>, key: Seq<char>)
    requires
        forall|j: int| 0 <= j < t.len() ==> (#[trigger] t[j]).0 != key,
    ensures
        key_index(t, key, 0) is None,
{
    lemma_key_index_found(t, key, 0);
    if let Some(m) = key_index(t, key, 0) {
        assert(t[m].0 != key);
    }
}

/// Adding an entry at the end changes the value of its key only when the
/// key had none.
proof fn lemma_value_of_push<V>(t: Seq<(Seq<char>, V)>, e: (Seq<char>, V), key: Seq<char>)
    ensures
        value_of(t.push(e), key) == (match value_of(t, key) {
            Some(v) => Some(v),
            None => if e.0 == key { Some(e.1) } else { None },
        }),
{
    let u = t.push(e);
    lemma_key_index_found(t, key, 0);
    match key_index(t, key, 0) {
        Some(k) => {
            assert forall|j: int| 0 <= j < k implies (#[trigger] u[j]).0 != key by {
                assert(u[j] == t[j]);
            }
            assert(u[k] == t[k]);
            lemma_key_index_unique(u, key, k);
        },
        None => {
            assert forall|j: int| 0 <= j < t.len() implies (#[trigger] u[j]).0 != key by {
                assert(u[j] == t[j]);
            }
            if e.0 == key {
                lemma_key_index_unique(u, key, t.len() as int);
            } else {
                assert forall|j: int| 0 <= j < u.len() implies (#[trigger] u[j]).0 != key by {
                    if j < t.len() {
                        assert(u[j] == t[j]);
                    }
                }
                lemma_key_index_absent(u, key);
            }
        },
    }
}

/// After a key is set, reading it gives the new value, and every other key
/// reads as before.
pub proof fn law_read_after_write<V>(t: Seq<(Seq<char>, V)>, key: Seq<char>, value: V, other: Seq<char>)
    ensures
        value_of(set_value(t, key, value), key) == Some(value),
        other != key ==> value_of(set_value(t, key, value), other) == value_of(t, other),
{
    let u = set_value(t, key, value);
    lemma_key_index_found(t, key, 0);
    lemma_key_index_found(t, other, 0);
    match key_index(t, key, 0) {
        Some(i) => {
            lemma_key_index_unique(u, key, i);
            if other != key {
                match key_index(t, other, 0) {
                    Some(k) => {
                        assert(u[k] == t[k]);
                        assert forall|j: int| 0 <= j < k implies (#[trigger] u[j]).0 != other by {
                            assert(j == i || u[j] == t[j]);
                        }
                        lemma_key_index_unique(u, other, k);
                    },
                    None => {
                        assert forall|j: int| 0 <= j < u.len() implies (#[trigger] u[j]).0 != other by {
                            assert(j == i || u[j] == t[j]);
                        }
                        lemma_key_index_absent(u, other);
                    },
                }
            }
        },
        None => {
            lemma_value_of_push(t, (key, value), key);
            lemma_value_of_push(t, (key, value), other);
        },
    }
}

/// Dropping the entries whose key satisfies `hit` empties exactly those
/// keys and leaves every other key's value as it was.
pub proof fn law_retain_keys<V>(t: Seq<(Seq<char>, V)>, hit: spec_fn(Seq<char>) -> bool, key: Seq<char>)
    ensures
        value_of(retain_keys(t, hit), key) == (if hit(key) { None } else { value_of(t, key) }),
    decreases t.len(),
{
    if t.len() == 0 {
        assert(key_index(t, key, 0) is None);
    } else {
        let s = t.drop_last();
        let e = t.last();
        law_retain_keys(s, hit, key);
        assert(t == s.push(e));
        lemma_value_of_push(s, e, key);
        if !hit(e.0) {
            lemma_value_of_push(retain_keys(s, hit), e, key);
        }
    }
}

} // verus!
