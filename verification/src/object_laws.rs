//! What the properties of an object hold.

use crate::js_value::{
    distinct_keys, lemma_position, lemma_position_is, lookup, position, put, without, JsView,
};
use vstd::prelude::*;

verus! {

/// A key is looked up exactly where it stands.
pub proof fn law_keys_are_found_where_they_stand(
    entries: Seq<(Seq<char>, JsView)>,
    key: Seq<char>,
)
    requires
        distinct_keys(entries),
    ensures
        forall|i: int|
            0 <= i < entries.len() && (#[trigger] entries[i]).0 == key ==> lookup(entries, key)
                == Some(entries[i].1),
        (forall|i: int| 0 <= i < entries.len() ==> (#[trigger] entries[i]).0 != key) ==> lookup(
            entries,
            key,
        ) is None,
{
    assert forall|i: int| 0 <= i < entries.len() && (#[trigger] entries[i]).0 == key implies lookup(
        entries,
        key,
    ) == Some(entries[i].1) by {
        lemma_position_is(entries, key, i);
    }
    lemma_position(entries, key);
}

/// A property that was set has its new value; it stays where it was, or comes last
/// where it is new; and every other property stays as it was.
pub proof fn law_set_properties_are_found(
    entries: Seq<(Seq<char>, JsView)>,
    key: Seq<char>,
    value: JsView,
    other: Seq<char>,
)
    requires
        distinct_keys(entries),
    ensures
        distinct_keys(put(entries, key, value)),
        lookup(put(entries, key, value), key) == Some(value),
        other != key ==> lookup(put(entries, key, value), other) == lookup(entries, other),
        lookup(entries, key) is Some ==> put(entries, key, value).len() == entries.len(),
        lookup(entries, key) is None ==> put(entries, key, value).len() == entries.len() + 1 && put(
            entries,
            key,
            value,
        ).last() == (key, value),
        forall|i: int|
            0 <= i < entries.len() ==> (#[trigger] put(entries, key, value)[i]).0 == entries[i].0,
{
    let after = put(entries, key, value);
    lemma_position(entries, key);
    lemma_position(entries, other);
    assert forall|i: int, j: int| 0 <= i < j < after.len() implies (#[trigger] after[i]).0 != (
    #[trigger] after[j]).0 by {
        if j < entries.len() {
            assert(entries[i].0 != entries[j].0);
        } else {
            assert(entries[i].0 != key);
        }
    }
    let at: int = match position(entries, key) {
        Some(i) => i,
        None => entries.len() as int,
    };
    lemma_position_is(after, key, at);
    if other != key {
        lemma_position(after, other);
        match position(entries, other) {
            Some(i) => {
                lemma_position_is(after, other, i);
            },
            None => {
                if position(after, other) is Some {
                    let i = position(after, other)->0;
                    assert(after[i].0 == other);
                    if i < entries.len() {
                        assert(entries[i].0 != other);
                    }
                }
            },
        }
    }
}

/// A property that was taken out is gone; every other property stays as it was.
pub proof fn law_removed_properties_are_gone(
    entries: Seq<(Seq<char>, JsView)>,
    key: Seq<char>,
    other: Seq<char>,
)
    requires
        distinct_keys(entries),
    ensures
        distinct_keys(without(entries, key)),
        lookup(without(entries, key), key) is None,
        other != key ==> lookup(without(entries, key), other) == lookup(entries, other),
        lookup(entries, key) is None ==> without(entries, key) == entries,
        lookup(entries, key) is Some ==> without(entries, key).len() == entries.len() - 1,
{
    let after = without(entries, key);
    lemma_position(entries, key);
    lemma_position(entries, other);
    match position(entries, key) {
        None => {},
        Some(at) => {
            assert forall|i: int, j: int| 0 <= i < j < after.len() implies (#[trigger] after[i]).0
                != (#[trigger] after[j]).0 by {
                let a = if i < at {
                    i
                } else {
                    i + 1
                };
                let b = if j < at {
                    j
                } else {
                    j + 1
                };
                assert(after[i] == entries[a]);
                assert(after[j] == entries[b]);
                assert(entries[a].0 != entries[b].0);
            }
            lemma_position(after, key);
            if position(after, key) is Some {
                let i = position(after, key)->0;
                let a = if i < at {
                    i
                } else {
                    i + 1
                };
                assert(after[i] == entries[a]);
                if a < at {
                    assert(entries[a].0 != entries[at].0);
                } else {
                    assert(entries[at].0 != entries[a].0);
                }
            }
            if other != key {
                lemma_position(after, other);
                match position(entries, other) {
                    Some(i) => {
                        let a = if i < at {
                            i
                        } else {
                            i - 1
                        };
                        assert(after[a] == entries[i]);
                        lemma_position_is(after, other, a);
                    },
                    None => {
                        if position(after, other) is Some {
                            let i = position(after, other)->0;
                            let a = if i < at {
                                i
                            } else {
                                i + 1
                            };
                            assert(after[i] == entries[a]);
                            assert(entries[a].0 != other);
                        }
                    },
                }
            }
        },
    }
}

} // verus!
