//! What comes back of a Python object that went to JavaScript and back again.

use crate::conversion::{
    entries_to_python, items_to_python, metered_twice, tagged_meaning, to_python, PyView,
};
use crate::double::{clamp, Double};
use crate::js_value::{lemma_position, position, JsView};
use crate::limits::LimitState;
use crate::py_import::{open_frame, PyContainer, PyFrameView, PyReadingView};
use crate::py_import_laws::{convert, convert_children, PyTree};
use vstd::prelude::*;

verus! {

/// The object consists of plain values and containers of them; the keys of each
/// dictionary are distinct, and none is tagged as another type.
pub open spec fn plain(tree: PyTree) -> bool
    decreases tree,
{
    match tree {
        PyTree::Leaf(reading) => match reading {
            PyReadingView::NoneValue => true,
            PyReadingView::Undefined => true,
            PyReadingView::Bool(_) => true,
            PyReadingView::Int(_) => true,
            PyReadingView::BigInt(_) => true,
            PyReadingView::Float(_) => true,
            PyReadingView::Str(_) => true,
            PyReadingView::Bytes(_) => true,
            PyReadingView::DateTime(_, _) => true,
            _ => false,
        },
        PyTree::Node { kind, children, .. } => {
            &&& all_plain(children)
            &&& kind == PyContainer::Dict ==> keys_distinct(children) && tagged_meaning(
                js_entries(children),
            ) is Plain
        },
    }
}

pub open spec fn all_plain(children: Seq<(Seq<char>, PyTree)>) -> bool
    decreases children,
{
    children.len() == 0 || (all_plain(children.drop_last()) && plain(children.last().1))
}

pub open spec fn keys_distinct(children: Seq<(Seq<char>, PyTree)>) -> bool {
    forall|i: int, j: int|
        0 <= i < j < children.len() ==> (#[trigger] children[i]).0 != (#[trigger] children[j]).0
}

/// The moment of a datetime in whole milliseconds.
pub open spec fn whole_ms(epoch_ms: u64) -> i64 {
    clamp((Double { bits: epoch_ms }).rounded(), i64::MIN as int, i64::MAX as int) as i64
}

/// The value of an object.
pub open spec fn js_of(tree: PyTree) -> JsView
    decreases tree,
{
    match tree {
        PyTree::Leaf(reading) => match reading {
            PyReadingView::NoneValue => JsView::Null,
            PyReadingView::Bool(b) => JsView::Bool(b),
            PyReadingView::Int(i) => JsView::Int(i),
            PyReadingView::BigInt(i) => JsView::BigInt(i),
            PyReadingView::Float(bits) => JsView::Float(bits),
            PyReadingView::Str(s) => JsView::String(s),
            PyReadingView::Bytes(bytes) => JsView::Bytes(bytes),
            PyReadingView::DateTime(_, epoch_ms) => JsView::Date(whole_ms(epoch_ms)),
            _ => JsView::Undefined,
        },
        PyTree::Node { kind, children, .. } => match kind {
            PyContainer::List => JsView::Array(js_items(children)),
            PyContainer::Dict => JsView::Object(js_entries(children)),
            PyContainer::PySet => JsView::JsSet(js_items(children)),
            PyContainer::FrozenSet => JsView::JsSet(js_items(children)),
        },
    }
}

pub open spec fn js_items(children: Seq<(Seq<char>, PyTree)>) -> Seq<JsView>
    decreases children,
{
    if children.len() == 0 {
        Seq::empty()
    } else {
        js_items(children.drop_last()).push(js_of(children.last().1))
    }
}

pub open spec fn js_entries(children: Seq<(Seq<char>, PyTree)>) -> Seq<(Seq<char>, JsView)>
    decreases children,
{
    if children.len() == 0 {
        Seq::empty()
    } else {
        js_entries(children.drop_last()).push((children.last().0, js_of(children.last().1)))
    }
}

/// The object itself; a frozenset comes back as a set.
pub open spec fn py_of(tree: PyTree) -> PyView
    decreases tree,
{
    match tree {
        PyTree::Leaf(reading) => match reading {
            PyReadingView::NoneValue => PyView::NoneValue,
            PyReadingView::Bool(b) => PyView::Bool(b),
            PyReadingView::Int(i) => PyView::Int(i),
            PyReadingView::BigInt(i) => PyView::BigInt(i),
            PyReadingView::Float(bits) => PyView::Float(bits),
            PyReadingView::Str(s) => PyView::Str(s),
            PyReadingView::Bytes(bytes) => PyView::Bytes(bytes),
            PyReadingView::DateTime(_, epoch_ms) => PyView::DateTime(whole_ms(epoch_ms)),
            _ => PyView::Undefined,
        },
        PyTree::Node { kind, children, .. } => match kind {
            PyContainer::List => PyView::List(py_items(children)),
            PyContainer::Dict => PyView::Dict(py_entries(children)),
            PyContainer::PySet => PyView::PySet(py_items(children)),
            PyContainer::FrozenSet => PyView::PySet(py_items(children)),
        },
    }
}

pub open spec fn py_items(children: Seq<(Seq<char>, PyTree)>) -> Seq<PyView>
    decreases children,
{
    if children.len() == 0 {
        Seq::empty()
    } else {
        py_items(children.drop_last()).push(py_of(children.last().1))
    }
}

pub open spec fn py_entries(children: Seq<(Seq<char>, PyTree)>) -> Seq<(Seq<char>, PyView)>
    decreases children,
{
    if children.len() == 0 {
        Seq::empty()
    } else {
        py_entries(children.drop_last()).push((children.last().0, py_of(children.last().1)))
    }
}

proof fn lemma_entries(children: Seq<(Seq<char>, PyTree)>)
    ensures
        js_entries(children).len() == children.len(),
        forall|i: int|
            0 <= i < children.len() ==> (#[trigger] js_entries(children)[i]).0 == children[i].0,
    decreases children,
{
    if children.len() > 0 {
        lemma_entries(children.drop_last());
    }
}

/// Converting a plain object gives the value of the object, whatever the limits, if
/// they allow it.
pub proof fn law_conversion_keeps_the_value(tree: PyTree, path: Seq<usize>, state: LimitState)
    requires
        plain(tree),
        convert(tree, path, state).0 is Ok,
    ensures
        convert(tree, path, state).0->Ok_0 == js_of(tree),
    decreases tree,
{
    match tree {
        PyTree::Leaf(_) => {},
        PyTree::Node { kind, identity, len, children } => {
            let entered = state.entered();
            let counted = metered_twice(
                entered,
                crate::py_import::container_header(kind),
                crate::py_import::container_slots(kind, len),
                Ok(()),
            ).1;
            lemma_children(open_frame(kind, identity), children, path.push(identity), counted);
        },
    }
}

proof fn lemma_children(
    frame: PyFrameView,
    children: Seq<(Seq<char>, PyTree)>,
    path: Seq<usize>,
    state: LimitState,
)
    requires
        frame.items.len() == 0,
        frame.entries.len() == 0,
        all_plain(children),
        frame.kind == PyContainer::Dict ==> keys_distinct(children),
        convert_children(frame, children, path, state).0 is Ok,
    ensures
        ({
            let filled = convert_children(frame, children, path, state).0->Ok_0;
            &&& filled.kind == frame.kind
            &&& frame.kind == PyContainer::Dict ==> filled.entries == js_entries(children)
            &&& frame.kind != PyContainer::Dict ==> filled.items == js_items(children)
        }),
    decreases children,
{
    if children.len() == 0 {
        assert(frame.items =~= js_items(children));
        assert(frame.entries =~= js_entries(children));
    } else {
        let rest = children.drop_last();
        assert(frame.kind == PyContainer::Dict ==> keys_distinct(rest)) by {
            if frame.kind == PyContainer::Dict {
                assert forall|i: int, j: int| 0 <= i < j < rest.len() implies (
                #[trigger] rest[i]).0 != (#[trigger] rest[j]).0 by {
                    assert(children[i].0 != children[j].0);
                }
            }
        }
        lemma_children(frame, rest, path, state);
        let (key, child) = children.last();
        let before = convert_children(frame, rest, path, state).1;
        let counted = if frame.kind == PyContainer::Dict {
            metered_twice(before, crate::text::byte_len(key), 8, Ok(())).1
        } else {
            before
        };
        law_conversion_keeps_the_value(child, path, counted);
        if frame.kind == PyContainer::Dict {
            lemma_entries(rest);
            lemma_position(js_entries(rest), key);
            if position(js_entries(rest), key) is Some {
                let i = position(js_entries(rest), key)->0;
                assert(children[i].0 != children[children.len() - 1].0);
            }
        }
    }
}

/// Converting the value of a plain object back gives the object, whatever the limits,
/// if they allow it.
pub proof fn law_value_comes_back(tree: PyTree, with_handle: bool, state: LimitState)
    requires
        plain(tree),
        to_python(js_of(tree), with_handle, state).0 is Ok,
    ensures
        to_python(js_of(tree), with_handle, state).0->Ok_0 == py_of(tree),
    decreases tree,
{
    match tree {
        PyTree::Leaf(_) => {},
        PyTree::Node { kind, identity, len, children } => {
            let entered = state.entered();
            if kind == PyContainer::Dict {
                let counted = metered_twice(
                    entered,
                    24,
                    crate::limits::saturating_product(
                        js_entries(children).len(),
                        crate::limits::word_bytes() * 2,
                    ),
                    Ok(()),
                ).1;
                lemma_entries_back(children, with_handle, counted);
            } else {
                let header: nat = if kind == PyContainer::List {
                    16
                } else {
                    24
                };
                let counted = metered_twice(
                    entered,
                    header,
                    crate::limits::saturating_product(
                        js_items(children).len(),
                        crate::limits::word_bytes(),
                    ),
                    Ok(()),
                ).1;
                lemma_items_back(children, with_handle, counted);
            }
        },
    }
}

proof fn lemma_items_back(
    children: Seq<(Seq<char>, PyTree)>,
    with_handle: bool,
    state: LimitState,
)
    requires
        all_plain(children),
    ensures
        items_to_python(js_items(children), with_handle, state).0 is Ok ==> items_to_python(
            js_items(children),
            with_handle,
            state,
        ).0->Ok_0 == py_items(children),
    decreases children,
{
    if children.len() > 0 {
        let rest = children.drop_last();
        lemma_items_back(rest, with_handle, state);
        assert(js_items(children).drop_last() =~= js_items(rest));
        let (made, before) = items_to_python(js_items(rest), with_handle, state);
        let child = children.last().1;
        if to_python(js_of(child), with_handle, before).0 is Ok {
            law_value_comes_back(child, with_handle, before);
        }
    }
}

proof fn lemma_entries_back(
    children: Seq<(Seq<char>, PyTree)>,
    with_handle: bool,
    state: LimitState,
)
    requires
        all_plain(children),
    ensures
        entries_to_python(js_entries(children), with_handle, state).0 is Ok ==> entries_to_python(
            js_entries(children),
            with_handle,
            state,
        ).0->Ok_0 == py_entries(children),
    decreases children,
{
    if children.len() > 0 {
        let rest = children.drop_last();
        lemma_entries_back(rest, with_handle, state);
        assert(js_entries(children).drop_last() =~= js_entries(rest));
        let (made, before) = entries_to_python(js_entries(rest), with_handle, state);
        let (key, child) = children.last();
        let counted = metered_twice(before, crate::text::byte_len(key), 8, Ok(())).1;
        if to_python(js_of(child), with_handle, counted).0 is Ok {
            law_value_comes_back(child, with_handle, counted);
        }
    }
}

} // verus!
