use vstd::prelude::*;
use vstd::string::*;

use crate::common::text::str_eq;

verus! {

/// A value of a request's or response's free-form parameters: a JSON string, or any other
/// JSON value held as its serialized text.
#[derive(Clone, Debug)]
pub enum ParamValue {
    Text(String),
    Json(String),
}

/// Mathematical view of a [`ParamValue`].
pub enum ParamView {
    Text(Seq<char>),
    Json(Seq<char>),
}

pub open spec fn param_value_view(v: ParamValue) -> ParamView {
    match v {
        ParamValue::Text(s) => ParamView::Text(s@),
        ParamValue::Json(s) => ParamView::Json(s@),
    }
}

pub open spec fn param_entry_view(e: (String, ParamValue)) -> (Seq<char>, ParamView) {
    (e.0@, param_value_view(e.1))
}

/// The entries of a parameter map, in insertion order.
pub open spec fn params_view(v: Seq<(String, ParamValue)>) -> Seq<(Seq<char>, ParamView)> {
    v.map_values(|e: (String, ParamValue)| param_entry_view(e))
}

/// No key occurs twice: the entries form a map that remembers insertion order.
pub open spec fn keys_unique(s: Seq<(Seq<char>, ParamView)>) -> bool {
    forall|i: int, j: int| 0 <= i < j < s.len() ==> #[trigger] s[i].0 != #[trigger] s[j].0
}

pub open spec fn has_key(s: Seq<(Seq<char>, ParamView)>, key: Seq<char>) -> bool {
    exists|i: int| 0 <= i < s.len() && #[trigger] s[i].0 == key
}

/// The value stored under `key`, if any.
pub open spec fn lookup(s: Seq<(Seq<char>, ParamView)>, key: Seq<char>) -> Option<ParamView> {
    if has_key(s, key) {
        let i = choose|i: int| 0 <= i < s.len() && #[trigger] s[i].0 == key;
        Some(s[i].1)
    } else {
        None
    }
}

/// Inserting into an insertion-ordered map: an existing key keeps its place and takes the new
/// value; a new key goes last.
pub open spec fn upserted(s: Seq<(Seq<char>, ParamView)>, key: Seq<char>, value: ParamView) -> Seq<
    (Seq<char>, ParamView),
> {
    if has_key(s, key) {
        let i = choose|i: int| 0 <= i < s.len() && #[trigger] s[i].0 == key;
        s.update(i, (key, value))
    } else {
        s.push((key, value))
    }
}

/// What an insert keeps: unique keys, the new value under `key`, every other lookup unchanged.
pub proof fn lemma_upserted(s: Seq<(Seq<char>, ParamView)>, key: Seq<char>, value: ParamView)
    requires
        keys_unique(s),
    ensures
        keys_unique(upserted(s, key, value)),
        lookup(upserted(s, key, value), key) == Some(value),
        forall|k: Seq<char>| k != key ==> lookup(upserted(s, key, value), k) == lookup(s, k),
{
    let t = upserted(s, key, value);
    if has_key(s, key) {
        let i = choose|i: int| 0 <= i < s.len() && #[trigger] s[i].0 == key;
        assert(t[i].0 == key);
        assert forall|k: Seq<char>| k != key implies lookup(t, k) == lookup(s, k) by {
            if has_key(s, k) {
                let j = choose|j: int| 0 <= j < s.len() && #[trigger] s[j].0 == k;
                assert(t[j].0 == k);
                let jt = choose|j: int| 0 <= j < t.len() && #[trigger] t[j].0 == k;
                assert(jt == j);
            } else {
                if has_key(t, k) {
                    let jt = choose|j: int| 0 <= j < t.len() && #[trigger] t[j].0 == k;
                    assert(s[jt].0 == k);
                }
            }
        }
    } else {
        assert(t[s.len() as int].0 == key);
        assert forall|k: Seq<char>| k != key implies lookup(t, k) == lookup(s, k) by {
            if has_key(s, k) {
                let j = choose|j: int| 0 <= j < s.len() && #[trigger] s[j].0 == k;
                assert(t[j].0 == k);
            } else {
                if has_key(t, k) {
                    let jt = choose|j: int| 0 <= j < t.len() && #[trigger] t[j].0 == k;
                    assert(s[jt].0 == k);
                }
            }
        }
    }
}

/// Stores `value` under `key`, replacing in place or appending.
pub fn upsert_param(params: &mut Vec<(String, ParamValue)>, key: &str, value: ParamValue)
    requires
        keys_unique(params_view(old(params)@)),
    ensures
        params_view(final(params)@) == upserted(
            params_view(old(params)@),
            key@,
            param_value_view(value),
        ),
        keys_unique(params_view(final(params)@)),
{
    let ghost s = params_view(params@);
    let mut i: usize = 0;
    while i < params.len()
        invariant
            0 <= i <= params.len(),
            s == params_view(params@),
            keys_unique(s),
            params@ == old(params)@,
            forall|j: int| 0 <= j < i ==> #[trigger] s[j].0 != key@,
        decreases params.len() - i,
    {
        if str_eq(params[i].0.as_str(), key) {
            proof {
                assert(s[i as int].0 == key@);
                let c = choose|j: int| 0 <= j < s.len() && #[trigger] s[j].0 == key@;
                assert(c == i as int);
            }
            params.set(i, (String::from_str(key), value));
            proof {
                assert(params_view(params@) =~= s.update(i as int, (key@, param_value_view(value))));
                lemma_upserted(s, key@, param_value_view(value));
            }
            return;
        }
        i = i + 1;
    }
    params.push((String::from_str(key), value));
    proof {
        assert(!has_key(s, key@));
        assert(params_view(params@) =~= s.push((key@, param_value_view(value))));
        lemma_upserted(s, key@, param_value_view(value));
    }
}

/// The text stored under `key`, where the value there is a JSON string.
pub open spec fn text_lookup(s: Seq<(Seq<char>, ParamView)>, key: Seq<char>) -> Option<Seq<char>> {
    match lookup(s, key) {
        Some(ParamView::Text(t)) => Some(t),
        _ => None,
    }
}

/// Reads the text under `key`: `None` where the key is missing or holds another JSON value.
pub fn text_param<'a>(params: &'a Vec<(String, ParamValue)>, key: &str) -> (r: Option<&'a str>)
    requires
        keys_unique(params_view(params@)),
    ensures
        match r {
            Some(t) => text_lookup(params_view(params@), key@) == Some(t@),
            None => text_lookup(params_view(params@), key@) is None,
        },
{
    let ghost s = params_view(params@);
    let mut i: usize = 0;
    while i < params.len()
        invariant
            0 <= i <= params.len(),
            s == params_view(params@),
            keys_unique(s),
            forall|j: int| 0 <= j < i ==> #[trigger] s[j].0 != key@,
        decreases params.len() - i,
    {
        if str_eq(params[i].0.as_str(), key) {
            proof {
                assert(s[i as int].0 == key@);
                let c = choose|j: int| 0 <= j < s.len() && #[trigger] s[j].0 == key@;
                assert(c == i as int);
                assert(s[i as int] == param_entry_view(params@[i as int]));
            }
            return match &params[i].1 {
                ParamValue::Text(t) => Some(t.as_str()),
                ParamValue::Json(_) => None,
            };
        }
        i = i + 1;
    }
    proof {
        assert(!has_key(s, key@));
    }
    None
}

} // verus!
