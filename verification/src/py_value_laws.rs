//! What a Python object is read as, and when the limits let it through.

use crate::bigint::magnitude_len;
use crate::conversion::metered_twice;
use crate::double::Double;
use crate::js_value::JsView;
use crate::limit_laws::{
    is_bounded, lemma_entering, lemma_metered_twice, lemma_slots, levels_left, with_more,
};
use crate::limits::{word_bytes, LimitState};
use crate::proxies::{JsFunction, PyStreamSource};
use crate::py_import::{
    open_frame, probe_order, scalar, PyContainer, PyFrameView, PyProbe, PyReadingView,
};
use crate::py_import_laws::{convert, convert_children, PyTree};
use crate::text::byte_len;
use vstd::prelude::*;

verus! {

/// Every part of the object has a counterpart: every datetime is a moment that can be
/// counted, and every function and stream is open and has its runtime.
pub open spec fn is_convertible(tree: PyTree) -> bool
    decreases tree,
{
    match tree {
        PyTree::Leaf(reading) => match reading {
            PyReadingView::DateTime(timestamp, epoch_ms) => (Double { bits: timestamp }).finite()
                && (Double { bits: epoch_ms }).within_i64_span(),
            PyReadingView::StreamSource(source) => !source.closed && source.attached,
            PyReadingView::Function(function, shut_down) => !function.closed && function.attached
                && !shut_down,
            PyReadingView::FailedDateTime(_) => false,
            PyReadingView::Unsupported => false,
            PyReadingView::Failed(_) => false,
            PyReadingView::Container(_, _, _) => false,
            _ => true,
        },
        PyTree::Node { children, .. } => all_convertible(children),
    }
}

pub open spec fn all_convertible(children: Seq<(Seq<char>, PyTree)>) -> bool
    decreases children,
{
    children.len() == 0 || (all_convertible(children.drop_last()) && is_convertible(
        children.last().1,
    ))
}

/// The object is nested no deeper than this many levels.
pub open spec fn object_nests_within(tree: PyTree, levels: nat) -> bool
    decreases tree,
{
    levels > 0 && match tree {
        PyTree::Node { children, .. } => all_objects_nest_within(children, (levels - 1) as nat),
        _ => true,
    }
}

pub open spec fn all_objects_nest_within(
    children: Seq<(Seq<char>, PyTree)>,
    levels: nat,
) -> bool
    decreases children,
{
    children.len() == 0 || (all_objects_nest_within(children.drop_last(), levels)
        && object_nests_within(children.last().1, levels))
}

/// A container in the object is one of those on the path to it.
pub open spec fn is_circular(tree: PyTree, path: Seq<usize>) -> bool
    decreases tree,
{
    match tree {
        PyTree::Node { identity, children, .. } => path.contains(identity) || any_circular(
            children,
            path.push(identity),
        ),
        _ => false,
    }
}

pub open spec fn any_circular(children: Seq<(Seq<char>, PyTree)>, path: Seq<usize>) -> bool
    decreases children,
{
    children.len() > 0 && (any_circular(children.drop_last(), path) || is_circular(
        children.last().1,
        path,
    ))
}

/// The bytes that an object counts on its way to JavaScript.
pub open spec fn object_cost(tree: PyTree) -> nat
    decreases tree,
{
    match tree {
        PyTree::Leaf(reading) => match reading {
            PyReadingView::NoneValue => 4,
            PyReadingView::StreamSource(_) => 4,
            PyReadingView::Bytes(bytes) => bytes.len(),
            PyReadingView::DateTime(_, _) => 16,
            PyReadingView::Bool(_) => 1,
            PyReadingView::Int(_) => 8,
            PyReadingView::BigInt(i) => magnitude_len(i),
            PyReadingView::Float(_) => 8,
            PyReadingView::Str(s) => byte_len(s) + 16,
            PyReadingView::Function(_, _) => 8,
            _ => 0,
        },
        PyTree::Node { kind, len, children, .. } => object_head(kind, len) + object_costs(
            kind,
            children,
        ),
    }
}

/// The bytes that a container counts before anything in it.
pub open spec fn object_head(kind: PyContainer, len: usize) -> nat {
    match kind {
        PyContainer::List => 16 + (len as nat) * word_bytes(),
        PyContainer::Dict => 24 + (len as nat) * (word_bytes() * 2),
        PyContainer::PySet => 24 + (len as nat) * word_bytes(),
        PyContainer::FrozenSet => 24 + (len as nat) * word_bytes(),
    }
}

pub open spec fn object_costs(kind: PyContainer, children: Seq<(Seq<char>, PyTree)>) -> nat
    decreases children,
{
    if children.len() == 0 {
        0
    } else {
        object_costs(kind, children.drop_last()) + object_cost(children.last().1) + (
        if kind == PyContainer::Dict {
            byte_len(children.last().0) + 8
        } else {
            0
        })
    }
}

/// An object is taken over exactly if no container in it holds itself, it is nested no
/// deeper than the levels that are left and it counts no more bytes than are left; what
/// it counts is what it costs.
pub proof fn law_python_import_keeps_to_its_limits(
    tree: PyTree,
    path: Seq<usize>,
    state: LimitState,
)
    requires
        is_bounded(state),
        is_convertible(tree),
    ensures
        convert(tree, path, state).0 is Ok <==> !is_circular(tree, path) && object_nests_within(
            tree,
            levels_left(state),
        ) && state.bytes + object_cost(tree) <= state.max_bytes,
        convert(tree, path, state).0 is Ok ==> convert(tree, path, state).1 == with_more(
            state,
            object_cost(tree),
        ),
    decreases tree, 1int,
{
    lemma_entering(state);
    if levels_left(state) > 0 {
        match tree {
            PyTree::Leaf(_) => {
                lemma_leaf(tree, path, state);
            },
            PyTree::Node { .. } => {
                lemma_node(tree, path, state);
            },
        }
    }
}

proof fn lemma_leaf(tree: PyTree, path: Seq<usize>, state: LimitState)
    requires
        is_bounded(state),
        levels_left(state) > 0,
        is_convertible(tree),
        tree is Leaf,
    ensures
        convert(tree, path, state).0 is Ok <==> state.bytes + object_cost(tree) <= state.max_bytes,
        convert(tree, path, state).0 is Ok ==> convert(tree, path, state).1 == with_more(
            state,
            object_cost(tree),
        ),
{
    lemma_entering(state);
    let entered = state.entered();
    match tree->Leaf_0 {
        PyReadingView::Str(s) => {
            lemma_metered_twice(entered, byte_len(s), 16, Ok(JsView::String(s)));
        },
        _ => {},
    }
    assert(scalar(tree->Leaf_0, entered).0 is Ok ==> scalar(tree->Leaf_0, entered).1
        == with_more(entered, object_cost(tree)));
    assert(with_more(entered, object_cost(tree)).exited() == with_more(state, object_cost(tree)));
}

proof fn lemma_node(tree: PyTree, path: Seq<usize>, state: LimitState)
    requires
        is_bounded(state),
        levels_left(state) > 0,
        is_convertible(tree),
        tree is Node,
    ensures
        convert(tree, path, state).0 is Ok <==> !is_circular(tree, path) && object_nests_within(
            tree,
            levels_left(state),
        ) && state.bytes + object_cost(tree) <= state.max_bytes,
        convert(tree, path, state).0 is Ok ==> convert(tree, path, state).1 == with_more(
            state,
            object_cost(tree),
        ),
    decreases tree, 0int,
{
    let kind = tree->Node_kind;
    let identity = tree->Node_identity;
    let children = tree->Node_children;
    let len = tree->Node_len as nat;
    let entered = state.entered();
    lemma_entering(state);
    match kind {
        PyContainer::List => {
            lemma_slots(entered, 16, len, word_bytes());
        },
        PyContainer::Dict => {
            lemma_slots(entered, 24, len, word_bytes() * 2);
        },
        _ => {
            lemma_slots(entered, 24, len, word_bytes());
        },
    }
    let head = object_head(kind, tree->Node_len);
    if entered.bytes + head <= entered.max_bytes {
        lemma_children(
            open_frame(kind, identity),
            children,
            path.push(identity),
            with_more(entered, head),
        );
        assert(with_more(entered, object_cost(tree)).exited() == with_more(
            state,
            object_cost(tree),
        ));
    }
}

proof fn lemma_children(
    frame: PyFrameView,
    children: Seq<(Seq<char>, PyTree)>,
    path: Seq<usize>,
    state: LimitState,
)
    requires
        is_bounded(state),
        all_convertible(children),
    ensures
        ({
            let (made, after) = convert_children(frame, children, path, state);
            &&& made is Ok <==> !any_circular(children, path) && all_objects_nest_within(
                children,
                levels_left(state),
            ) && state.bytes + object_costs(frame.kind, children) <= state.max_bytes
            &&& made is Ok ==> after == with_more(state, object_costs(frame.kind, children))
        }),
    decreases children, 2int,
{
    if children.len() > 0 {
        lemma_children(frame, children.drop_last(), path, state);
        let (made, before) = convert_children(frame, children.drop_last(), path, state);
        let (key, child) = children.last();
        if made is Ok {
            lemma_metered_twice::<()>(before, byte_len(key), 8, Ok(()));
            let counted = if frame.kind == PyContainer::Dict {
                metered_twice::<()>(before, byte_len(key), 8, Ok(()))
            } else {
                (Ok(()), before)
            };
            if counted.0 is Ok {
                law_python_import_keeps_to_its_limits(child, path, counted.1);
            }
        }
    }
}

/// A function goes back to JavaScript under its own id, and only while it is open and
/// its runtime runs.
pub proof fn law_functions_go_back_by_their_id(
    function: JsFunction,
    shut_down: bool,
    path: Seq<usize>,
    state: LimitState,
)
    requires
        is_bounded(state),
    ensures
        ({
            let (made, _) = convert(
                PyTree::Leaf(PyReadingView::Function(function, shut_down)),
                path,
                state,
            );
            &&& made is Ok ==> made->Ok_0 == JsView::Function(function.fn_id) && !function.closed
                && function.attached && !shut_down
        }),
{
}

/// A stream of Python goes to JavaScript under its own id, and only while it is open and
/// has its runtime.
pub proof fn law_streams_go_over_by_their_id(
    source: PyStreamSource,
    path: Seq<usize>,
    state: LimitState,
)
    requires
        is_bounded(state),
    ensures
        ({
            let (made, _) = convert(
                PyTree::Leaf(PyReadingView::StreamSource(source)),
                path,
                state,
            );
            &&& made is Ok ==> made->Ok_0 == JsView::PyStream(source.stream_id) && !source.closed
                && source.attached
        }),
{
}

/// What cannot be read, what has no counterpart, and a datetime that is no moment that
/// can be counted are refused.
pub proof fn law_objects_without_counterpart_are_refused(
    reading: PyReadingView,
    path: Seq<usize>,
    state: LimitState,
)
    requires
        is_bounded(state),
        match reading {
            PyReadingView::Unsupported => true,
            PyReadingView::Failed(_) => true,
            PyReadingView::FailedDateTime(_) => true,
            PyReadingView::DateTime(timestamp, epoch_ms) => !(Double { bits: timestamp }).finite()
                || !(Double { bits: epoch_ms }).within_i64_span(),
            _ => false,
        },
    ensures
        convert(PyTree::Leaf(reading), path, state).0 is Err,
{
}

/// Where in the order an object is tried to be this.
pub open spec fn is_tried_before(earlier: PyProbe, later: PyProbe) -> bool {
    exists|i: int, j: int|
        #![trigger probe_order()[i], probe_order()[j]]
        0 <= i < j < probe_order().len() && probe_order()[i] == earlier && probe_order()[j]
            == later
}

/// Everything is tried once. A boolean, which Python takes for an integer, is tried as
/// a boolean first; an integer is tried at full precision before it is tried as a
/// float; and `None` and the `undefined` singleton are told apart before anything is
/// converted.
pub proof fn law_objects_are_tried_as_what_they_are(probe: PyProbe)
    ensures
        probe_order().contains(probe),
        probe_order().no_duplicates(),
        is_tried_before(PyProbe::Bool, PyProbe::Int),
        is_tried_before(PyProbe::Int, PyProbe::BigInt),
        is_tried_before(PyProbe::BigInt, PyProbe::Float),
        probe_order()[0] == PyProbe::NoneValue,
        probe_order()[1] == PyProbe::Undefined,
        probe != PyProbe::Function ==> is_tried_before(probe, PyProbe::Function),
{
    let order = probe_order();
    assert(order.len() == 17);
    let at: int = match probe {
        PyProbe::NoneValue => 0,
        PyProbe::Undefined => 1,
        PyProbe::StreamSource => 2,
        PyProbe::Bytes => 3,
        PyProbe::ByteArray => 4,
        PyProbe::MemoryView => 5,
        PyProbe::List => 6,
        PyProbe::Dict => 7,
        PyProbe::PySet => 8,
        PyProbe::FrozenSet => 9,
        PyProbe::DateTime => 10,
        PyProbe::Bool => 11,
        PyProbe::Int => 12,
        PyProbe::BigInt => 13,
        PyProbe::Float => 14,
        PyProbe::Str => 15,
        PyProbe::Function => 16,
    };
    assert(order[at] == probe);
    assert(order[11] == PyProbe::Bool && order[12] == PyProbe::Int && order[13] == PyProbe::BigInt
        && order[14] == PyProbe::Float && order[16] == PyProbe::Function);
}

} // verus!
