//! When the depth and byte limits let a value through: exactly when it is nested no
//! deeper, and counts no more bytes, than they allow.

use crate::bigint::{magnitude_len, parse_decimal};
use crate::conversion::{
    converts, converts_items, entries_to_python, items_to_python, metered, metered_twice,
    scalar_python, tagged_meaning, to_python, to_python_inner, unlimited, PyView,
};
use crate::double::Double;
use crate::js_value::{lookup, JsView};
use crate::limits::{saturating_product, word_bytes, LimitState};
use crate::text::byte_len;
use crate::v8_import::{open_frame, V8Container, V8FrameView, V8ReadingView};
use crate::v8_import_laws::{
    convert, convert_children, header_metered, keyed_frame, Effects, V8Tree,
};
use vstd::prelude::*;

verus! {

/// Nothing is known of the stack, what was counted so far is within the limits, and
/// neither limit is at the largest number that can be counted.
pub open spec fn is_bounded(state: LimitState) -> bool {
    &&& state.ahead.len() == 0
    &&& state.stack is None
    &&& state.depth <= state.max_depth < usize::MAX
    &&& state.bytes <= state.max_bytes < usize::MAX
}

/// The levels that are left.
pub open spec fn levels_left(state: LimitState) -> nat {
    (state.max_depth - state.depth) as nat
}

/// The state after this many more bytes.
pub open spec fn with_more(state: LimitState, bytes: nat) -> LimitState {
    LimitState { bytes: state.bytes + bytes, ..state }
}

/// The value is nested no deeper than this many levels.
pub open spec fn nests_within(value: JsView, levels: nat) -> bool
    decreases value,
{
    levels > 0 && match value {
        JsView::Array(items) => all_nest_within(items, (levels - 1) as nat),
        JsView::JsSet(items) => all_nest_within(items, (levels - 1) as nat),
        JsView::Object(entries) => all_entries_nest_within(entries, (levels - 1) as nat),
        _ => true,
    }
}

pub open spec fn all_nest_within(items: Seq<JsView>, levels: nat) -> bool
    decreases items,
{
    items.len() == 0 || (all_nest_within(items.drop_last(), levels) && nests_within(
        items.last(),
        levels,
    ))
}

pub open spec fn all_entries_nest_within(entries: Seq<(Seq<char>, JsView)>, levels: nat) -> bool
    decreases entries,
{
    entries.len() == 0 || (all_entries_nest_within(entries.drop_last(), levels) && nests_within(
        entries.last().1,
        levels,
    ))
}

/// The bytes that a value counts on its way to Python.
pub open spec fn python_cost(value: JsView) -> nat
    decreases value,
{
    match value {
        JsView::Undefined => 0,
        JsView::Null => 4,
        JsView::Bool(_) => 1,
        JsView::Int(_) => 8,
        JsView::BigInt(i) => magnitude_len(i),
        JsView::Float(_) => 8,
        JsView::String(s) => byte_len(s) + 16,
        JsView::Bytes(bytes) => bytes.len(),
        JsView::Array(items) => 16 + items.len() * word_bytes() + python_costs(items),
        JsView::JsSet(items) => 24 + items.len() * word_bytes() + python_costs(items),
        JsView::Object(entries) => 24 + entries.len() * (word_bytes() * 2) + python_entry_costs(
            entries,
        ),
        JsView::Date(_) => 16,
        JsView::Function(_) => 8,
        JsView::JsStream(_) => 8,
        JsView::PyStream(_) => 0,
    }
}

pub open spec fn python_costs(items: Seq<JsView>) -> nat
    decreases items,
{
    if items.len() == 0 {
        0
    } else {
        python_costs(items.drop_last()) + python_cost(items.last())
    }
}

pub open spec fn python_entry_costs(entries: Seq<(Seq<char>, JsView)>) -> nat
    decreases entries,
{
    if entries.len() == 0 {
        0
    } else {
        python_entry_costs(entries.drop_last()) + byte_len(entries.last().0) + 8 + python_cost(
            entries.last().1,
        )
    }
}

/// The value has a counterpart in Python as it is: it holds no placeholder of a Python
/// stream, and no object in it has a text under the tag key.
pub open spec fn has_counterpart(value: JsView) -> bool
    decreases value,
{
    match value {
        JsView::Array(items) => all_have_counterparts(items),
        JsView::JsSet(items) => all_have_counterparts(items),
        JsView::Object(entries) => !(lookup(entries, "__pydeno_type"@) matches Some(
            JsView::String(_),
        )) && all_entries_have_counterparts(entries),
        JsView::PyStream(_) => false,
        _ => true,
    }
}

pub open spec fn all_have_counterparts(items: Seq<JsView>) -> bool
    decreases items,
{
    items.len() == 0 || (all_have_counterparts(items.drop_last()) && has_counterpart(items.last()))
}

pub open spec fn all_entries_have_counterparts(entries: Seq<(Seq<char>, JsView)>) -> bool
    decreases entries,
{
    entries.len() == 0 || (all_entries_have_counterparts(entries.drop_last()) && has_counterpart(
        entries.last().1,
    ))
}

/// Counting bytes succeeds exactly if they are within the limit, and counts them.
pub(crate) proof fn lemma_metered<T>(state: LimitState, bytes: nat, outcome: Result<T, Seq<char>>)
    requires
        is_bounded(state),
    ensures
        state.bytes + bytes <= state.max_bytes ==> metered(state, bytes, outcome) == (
            outcome,
            with_more(state, bytes),
        ),
        state.bytes + bytes > state.max_bytes ==> metered(state, bytes, outcome).0 is Err,
{
}

pub(crate) proof fn lemma_metered_twice<T>(
    state: LimitState,
    first: nat,
    second: nat,
    outcome: Result<T, Seq<char>>,
)
    requires
        is_bounded(state),
    ensures
        state.bytes + first + second <= state.max_bytes ==> metered_twice(
            state,
            first,
            second,
            outcome,
        ) == (outcome, with_more(state, first + second)),
        state.bytes + first + second > state.max_bytes ==> metered_twice(
            state,
            first,
            second,
            outcome,
        ).0 is Err,
{
    lemma_metered(state, first, outcome);
    if state.bytes + first <= state.max_bytes {
        lemma_metered(with_more(state, first), second, outcome);
    }
}

/// A header and slots are counted whether or not their product can be held.
pub(crate) proof fn lemma_slots(state: LimitState, header: nat, count: nat, unit: nat)
    requires
        is_bounded(state),
    ensures
        state.bytes + header + count * unit <= state.max_bytes ==> metered_twice::<()>(
            state,
            header,
            saturating_product(count, unit),
            Ok(()),
        ) == (Ok::<(), Seq<char>>(()), with_more(state, header + count * unit)),
        state.bytes + header + count * unit > state.max_bytes ==> metered_twice::<()>(
            state,
            header,
            saturating_product(count, unit),
            Ok(()),
        ).0 is Err,
{
    lemma_metered_twice::<()>(state, header, saturating_product(count, unit), Ok(()));
}

/// A level is entered exactly if one is left.
pub(crate) proof fn lemma_entering(state: LimitState)
    requires
        is_bounded(state),
    ensures
        state.entered().level_refusal() is None <==> levels_left(state) > 0,
        levels_left(state) > 0 ==> is_bounded(state.entered()) && levels_left(state.entered())
            == levels_left(state) - 1,
        forall|more: nat|
            levels_left(state) > 0 ==> #[trigger] with_more(state.entered(), more).exited()
                == with_more(state, more),
{
}

/// A value is converted for Python exactly if it is nested no deeper than the levels
/// that are left and counts no more bytes than are left; what it counts is what it
/// costs.
pub proof fn law_python_conversion_keeps_to_its_limits(value: JsView, state: LimitState)
    requires
        is_bounded(state),
        has_counterpart(value),
    ensures
        to_python(value, true, state).0 is Ok <==> nests_within(value, levels_left(state))
            && state.bytes + python_cost(value) <= state.max_bytes,
        to_python(value, true, state).0 is Ok ==> to_python(value, true, state).1 == with_more(
            state,
            python_cost(value),
        ),
    decreases value, 2int,
{
    lemma_entering(state);
    if levels_left(state) > 0 {
        lemma_python_inner(value, state.entered());
    }
}

/// The conversion within a level comes out as it should.
spec fn is_met(value: JsView, state: LimitState) -> bool {
    let (made, after) = to_python_inner(value, true, state);
    &&& made is Ok <==> nests_within(value, levels_left(state) + 1) && state.bytes + python_cost(
        value,
    ) <= state.max_bytes
    &&& made is Ok ==> after == with_more(state, python_cost(value))
}

proof fn lemma_python_inner(value: JsView, state: LimitState)
    requires
        is_bounded(state),
        has_counterpart(value),
    ensures
        is_met(value, state),
    decreases value, 1int,
{
    match value {
        JsView::Array(items) => {
            lemma_python_array(value, state);
        },
        JsView::JsSet(items) => {
            lemma_python_set(value, state);
        },
        JsView::Object(entries) => {
            lemma_python_object(value, state);
        },
        _ => {
            lemma_python_scalar(value, state);
        },
    }
}

proof fn lemma_python_array(value: JsView, state: LimitState)
    requires
        is_bounded(state),
        has_counterpart(value),
        value is Array,
    ensures
        is_met(value, state),
    decreases value, 0int,
{
    let items = value->Array_0;
    lemma_slots(state, 16, items.len(), word_bytes());
    let head = 16 + items.len() * word_bytes();
    if state.bytes + head <= state.max_bytes {
        lemma_python_items(items, with_more(state, head));
    }
}

proof fn lemma_python_set(value: JsView, state: LimitState)
    requires
        is_bounded(state),
        has_counterpart(value),
        value is JsSet,
    ensures
        is_met(value, state),
    decreases value, 0int,
{
    let items = value->JsSet_0;
    lemma_slots(state, 24, items.len(), word_bytes());
    let head = 24 + items.len() * word_bytes();
    if state.bytes + head <= state.max_bytes {
        lemma_python_items(items, with_more(state, head));
    }
}

proof fn lemma_python_object(value: JsView, state: LimitState)
    requires
        is_bounded(state),
        has_counterpart(value),
        value is Object,
    ensures
        is_met(value, state),
    decreases value, 0int,
{
    let entries = value->Object_0;
    assert(tagged_meaning(entries) is Plain);
    lemma_slots(state, 24, entries.len(), word_bytes() * 2);
    let head = 24 + entries.len() * (word_bytes() * 2);
    if state.bytes + head <= state.max_bytes {
        lemma_python_entries(entries, with_more(state, head));
    }
}

proof fn lemma_python_scalar(value: JsView, state: LimitState)
    requires
        is_bounded(state),
        !(value is Array) && !(value is JsSet) && !(value is Object) && !(value is PyStream),
    ensures
        scalar_python(value, true, state).0 is Ok <==> state.bytes + python_cost(value)
            <= state.max_bytes,
        scalar_python(value, true, state).0 is Ok ==> scalar_python(value, true, state).1
            == with_more(state, python_cost(value)),
{
    match value {
        JsView::String(s) => {
            lemma_metered_twice(state, byte_len(s), 16, Ok(PyView::Str(s)));
        },
        _ => {},
    }
}

pub(crate) proof fn lemma_python_items(items: Seq<JsView>, state: LimitState)
    requires
        is_bounded(state),
        all_have_counterparts(items),
    ensures
        items_to_python(items, true, state).0 is Ok <==> all_nest_within(
            items,
            levels_left(state),
        ) && state.bytes + python_costs(items) <= state.max_bytes,
        items_to_python(items, true, state).0 is Ok ==> items_to_python(items, true, state).1
            == with_more(state, python_costs(items)),
    decreases items, 3int,
{
    if items.len() > 0 {
        lemma_python_items(items.drop_last(), state);
        let (made, before) = items_to_python(items.drop_last(), true, state);
        if made is Ok {
            law_python_conversion_keeps_to_its_limits(items.last(), before);
        }
    }
}

proof fn lemma_python_entries(entries: Seq<(Seq<char>, JsView)>, state: LimitState)
    requires
        is_bounded(state),
        all_entries_have_counterparts(entries),
    ensures
        entries_to_python(entries, true, state).0 is Ok <==> all_entries_nest_within(
            entries,
            levels_left(state),
        ) && state.bytes + python_entry_costs(entries) <= state.max_bytes,
        entries_to_python(entries, true, state).0 is Ok ==> entries_to_python(
            entries,
            true,
            state,
        ).1 == with_more(state, python_entry_costs(entries)),
    decreases entries, 3int,
{
    if entries.len() > 0 {
        lemma_python_entries(entries.drop_last(), state);
        let (made, before) = entries_to_python(entries.drop_last(), true, state);
        let (key, value) = entries.last();
        if made is Ok {
            lemma_metered_twice::<()>(before, byte_len(key), 8, Ok(()));
            if before.bytes + byte_len(key) + 8 <= before.max_bytes {
                law_python_conversion_keeps_to_its_limits(
                    value,
                    with_more(before, byte_len(key) + 8),
                );
            }
        }
    }
}

/// Every part of the engine value can be read: no symbol is in it, no reading failed,
/// every big integer has its text, and every date is a moment that can be counted.
pub open spec fn is_readable(tree: V8Tree) -> bool
    decreases tree,
{
    match tree {
        V8Tree::Leaf(reading) => match reading {
            V8ReadingView::BigInt(_, lossless, text) => lossless || (text is Some && parse_decimal(
                text->0,
            ) is Some),
            V8ReadingView::Date(bits) => (Double { bits }).within_i64_span(),
            V8ReadingView::Other(text) => text is Some,
            V8ReadingView::Symbol => false,
            V8ReadingView::Failed(_) => false,
            V8ReadingView::Buffer(_) => false,
            V8ReadingView::Array(_, _) => false,
            V8ReadingView::JsSet(_, _) => false,
            V8ReadingView::Object(_, _, _) => false,
            _ => true,
        },
        V8Tree::Buffer(_) => true,
        V8Tree::Node { kind, children, .. } => kind != V8Container::Buffer && all_readable(
            children,
        ),
    }
}

pub open spec fn all_readable(children: Seq<(Seq<char>, V8Tree)>) -> bool
    decreases children,
{
    children.len() == 0 || (all_readable(children.drop_last()) && is_readable(children.last().1))
}

/// The engine value is nested no deeper than this many levels.
pub open spec fn engine_nests_within(tree: V8Tree, levels: nat) -> bool
    decreases tree,
{
    levels > 0 && match tree {
        V8Tree::Node { children, .. } => all_engine_nest_within(children, (levels - 1) as nat),
        _ => true,
    }
}

pub open spec fn all_engine_nest_within(
    children: Seq<(Seq<char>, V8Tree)>,
    levels: nat,
) -> bool
    decreases children,
{
    children.len() == 0 || (all_engine_nest_within(children.drop_last(), levels)
        && engine_nests_within(children.last().1, levels))
}

/// A container in the value is one of those on the path to it.
pub open spec fn is_circular(tree: V8Tree, path: Seq<usize>) -> bool
    decreases tree,
{
    match tree {
        V8Tree::Node { identity, children, .. } => path.contains(identity) || any_circular(
            children,
            path.push(identity),
        ),
        _ => false,
    }
}

pub open spec fn any_circular(children: Seq<(Seq<char>, V8Tree)>, path: Seq<usize>) -> bool
    decreases children,
{
    children.len() > 0 && (any_circular(children.drop_last(), path) || is_circular(
        children.last().1,
        path,
    ))
}

/// The bytes that an engine value counts as it is read.
pub open spec fn engine_cost(tree: V8Tree) -> nat
    decreases tree,
{
    match tree {
        V8Tree::Leaf(reading) => match reading {
            V8ReadingView::Null => 4,
            V8ReadingView::Boolean(_) => 5,
            V8ReadingView::Number(bits) => if (Double { bits }).exact_i64() {
                20
            } else {
                24
            },
            V8ReadingView::BigInt(_, lossless, text) => if lossless {
                20
            } else {
                byte_len(text->0)
            },
            V8ReadingView::Text(s) => byte_len(s),
            V8ReadingView::Function(_) => 8,
            V8ReadingView::Date(_) => 16,
            V8ReadingView::Stream(_) => 4,
            V8ReadingView::Other(text) => byte_len(text->0),
            _ => 0,
        },
        V8Tree::Buffer(bytes) => bytes.len(),
        V8Tree::Node { kind, children, .. } => engine_costs(kind, children) + (
        if kind == V8Container::Array {
            16 + children.len() * word_bytes()
        } else if kind == V8Container::JsSet {
            24 + children.len() * word_bytes()
        } else {
            0
        }),
    }
}

pub open spec fn engine_costs(kind: V8Container, children: Seq<(Seq<char>, V8Tree)>) -> nat
    decreases children,
{
    if children.len() == 0 {
        0
    } else {
        engine_costs(kind, children.drop_last()) + engine_cost(children.last().1) + (
        if kind == V8Container::Object {
            byte_len(children.last().0)
        } else {
            0
        })
    }
}

/// A readable engine value is taken over exactly if no container in it holds itself, it
/// is nested no deeper than the levels that are left and it counts no more bytes than
/// are left; what it counts is what it costs.
pub proof fn law_engine_import_keeps_to_its_limits(
    tree: V8Tree,
    path: Seq<usize>,
    receiver: Option<u64>,
    effects: Effects,
)
    requires
        is_bounded(effects.limits),
        is_readable(tree),
    ensures
        convert(tree, path, receiver, effects).0 is Ok <==> !is_circular(tree, path)
            && engine_nests_within(tree, levels_left(effects.limits)) && effects.limits.bytes
            + engine_cost(tree) <= effects.limits.max_bytes,
        convert(tree, path, receiver, effects).0 is Ok ==> convert(
            tree,
            path,
            receiver,
            effects,
        ).1.limits == with_more(effects.limits, engine_cost(tree)),
    decreases tree, 1int,
{
    lemma_entering(effects.limits);
    if levels_left(effects.limits) > 0 {
        match tree {
            V8Tree::Leaf(_) => {
                lemma_engine_leaf(tree, path, receiver, effects);
            },
            V8Tree::Buffer(bytes) => {
                lemma_metered::<()>(effects.limits.entered(), bytes.len(), Ok(()));
            },
            V8Tree::Node { .. } => {
                lemma_engine_node(tree, path, receiver, effects);
            },
        }
    }
}

proof fn lemma_engine_leaf(
    tree: V8Tree,
    path: Seq<usize>,
    receiver: Option<u64>,
    effects: Effects,
)
    requires
        is_bounded(effects.limits),
        levels_left(effects.limits) > 0,
        is_readable(tree),
        tree is Leaf,
    ensures
        convert(tree, path, receiver, effects).0 is Ok <==> effects.limits.bytes + engine_cost(tree)
            <= effects.limits.max_bytes,
        convert(tree, path, receiver, effects).0 is Ok ==> convert(
            tree,
            path,
            receiver,
            effects,
        ).1.limits == with_more(effects.limits, engine_cost(tree)),
{
    lemma_entering(effects.limits);
    assert(with_more(effects.limits.entered(), engine_cost(tree)).exited() == with_more(
        effects.limits,
        engine_cost(tree),
    ));
}

proof fn lemma_engine_node(
    tree: V8Tree,
    path: Seq<usize>,
    receiver: Option<u64>,
    effects: Effects,
)
    requires
        is_bounded(effects.limits),
        levels_left(effects.limits) > 0,
        is_readable(tree),
        tree is Node,
    ensures
        convert(tree, path, receiver, effects).0 is Ok <==> !is_circular(tree, path)
            && engine_nests_within(tree, levels_left(effects.limits)) && effects.limits.bytes
            + engine_cost(tree) <= effects.limits.max_bytes,
        convert(tree, path, receiver, effects).0 is Ok ==> convert(
            tree,
            path,
            receiver,
            effects,
        ).1.limits == with_more(effects.limits, engine_cost(tree)),
    decreases tree, 0int,
{
    let kind = tree->Node_kind;
    let identity = tree->Node_identity;
    let children = tree->Node_children;
    let limits = effects.limits.entered();
    lemma_entering(effects.limits);
    let head: nat = if kind == V8Container::Array {
        16 + children.len() * word_bytes()
    } else if kind == V8Container::JsSet {
        24 + children.len() * word_bytes()
    } else {
        0
    };
    if kind == V8Container::Array {
        lemma_slots(limits, 16, children.len(), word_bytes());
    } else if kind == V8Container::JsSet {
        lemma_slots(limits, 24, children.len(), word_bytes());
    }
    if limits.bytes + head <= limits.max_bytes {
        assert(header_metered(kind, children.len(), limits) == (
            Ok::<(), Seq<char>>(()),
            with_more(limits, head),
        ));
        lemma_engine_children(
            open_frame(kind, identity, tree->Node_slot, children.len() as usize),
            children,
            path.push(identity),
            Effects { limits: with_more(limits, head), ..effects },
        );
        assert(with_more(limits, engine_cost(tree)).exited() == with_more(
            effects.limits,
            engine_cost(tree),
        ));
    }
}

proof fn lemma_engine_children(
    frame: V8FrameView,
    children: Seq<(Seq<char>, V8Tree)>,
    path: Seq<usize>,
    effects: Effects,
)
    requires
        is_bounded(effects.limits),
        all_readable(children),
    ensures
        ({
            let (made, after) = convert_children(frame, children, path, effects);
            &&& made is Ok <==> !any_circular(children, path) && all_engine_nest_within(
                children,
                levels_left(effects.limits),
            ) && effects.limits.bytes + engine_costs(frame.kind, children)
                <= effects.limits.max_bytes
            &&& made is Ok ==> made->Ok_0.kind == frame.kind && after.limits == with_more(
                effects.limits,
                engine_costs(frame.kind, children),
            )
        }),
    decreases children, 2int,
{
    if children.len() > 0 {
        lemma_engine_children(frame, children.drop_last(), path, effects);
        let (made, before) = convert_children(frame, children.drop_last(), path, effects);
        let (key, child) = children.last();
        if made is Ok {
            lemma_metered::<()>(before.limits, byte_len(key), Ok(()));
            let (keyed, outcome, limits) = keyed_frame(made->Ok_0, key, before.limits);
            if outcome is Ok {
                law_engine_import_keeps_to_its_limits(
                    child,
                    path,
                    crate::v8_import_laws::child_receiver(made->Ok_0, child),
                    Effects { limits, ..before },
                );
            }
        }
    }
}

/// Nothing is limited, and nothing is known of the stack.
pub open spec fn is_unlimited(state: LimitState) -> bool {
    &&& state.ahead.len() == 0
    &&& state.stack is None
    &&& state.max_depth == usize::MAX
    &&& state.max_bytes == usize::MAX
    &&& state.depth <= usize::MAX
    &&& state.bytes <= usize::MAX
}

/// Without limits every value that has a counterpart is converted for Python, however
/// large and deep it is.
pub proof fn law_unlimited_conversions_succeed(value: JsView, state: LimitState)
    requires
        is_unlimited(state),
        has_counterpart(value),
    ensures
        to_python(value, true, state).0 is Ok,
        is_unlimited(to_python(value, true, state).1),
    decreases value, 1int,
{
    lemma_unlimited_inner(value, state.entered());
}

proof fn lemma_unlimited_inner(value: JsView, state: LimitState)
    requires
        is_unlimited(state),
        has_counterpart(value),
    ensures
        to_python_inner(value, true, state).0 is Ok,
        is_unlimited(to_python_inner(value, true, state).1),
    decreases value, 0int,
{
    match value {
        JsView::Array(items) => {
            lemma_unlimited_items(
                items,
                state.charged(16).charged(saturating_product(items.len(), word_bytes())),
            );
        },
        JsView::JsSet(items) => {
            lemma_unlimited_items(
                items,
                state.charged(24).charged(saturating_product(items.len(), word_bytes())),
            );
        },
        JsView::Object(entries) => {
            assert(tagged_meaning(entries) is Plain);
            lemma_unlimited_entries(
                entries,
                state.charged(24).charged(saturating_product(entries.len(), word_bytes() * 2)),
            );
        },
        _ => {},
    }
}

proof fn lemma_unlimited_items(items: Seq<JsView>, state: LimitState)
    requires
        is_unlimited(state),
        all_have_counterparts(items),
    ensures
        items_to_python(items, true, state).0 is Ok,
        is_unlimited(items_to_python(items, true, state).1),
    decreases items, 2int,
{
    if items.len() > 0 {
        lemma_unlimited_items(items.drop_last(), state);
        law_unlimited_conversions_succeed(
            items.last(),
            items_to_python(items.drop_last(), true, state).1,
        );
    }
}

proof fn lemma_unlimited_entries(entries: Seq<(Seq<char>, JsView)>, state: LimitState)
    requires
        is_unlimited(state),
        all_entries_have_counterparts(entries),
    ensures
        entries_to_python(entries, true, state).0 is Ok,
        is_unlimited(entries_to_python(entries, true, state).1),
    decreases entries, 2int,
{
    if entries.len() > 0 {
        lemma_unlimited_entries(entries.drop_last(), state);
        let before = entries_to_python(entries.drop_last(), true, state).1;
        law_unlimited_conversions_succeed(
            entries.last().1,
            before.charged(byte_len(entries.last().0)).charged(8),
        );
    }
}

/// A level is refused exactly if it is one too many, or if more of the stack is in use
/// than may be; what is in use is what was measured as the level was entered.
pub proof fn law_levels_are_refused_beyond_their_limits(state: LimitState, used: usize)
    requires
        state.depth < usize::MAX,
    ensures
        ({
            let told = state.expecting(seq![Some(used)]).entered();
            &&& told.level_refusal() is Some <==> state.depth + 1 > state.max_depth || used
                > 655_360
            &&& told.depth == state.depth + 1
            &&& told.stack == Some(used as nat)
            &&& told.bytes == state.bytes
        }),
        ({
            let unknown = state.expecting(seq![None::<usize>]).entered();
            unknown.level_refusal() is Some <==> state.depth + 1 > state.max_depth
        }),
        state.depth > 0 ==> state.exited().depth == state.depth - 1,
        state.exited().bytes == state.bytes,
        state.measured(Some(used)).stack == Some(used as nat),
        state.measured(None).stack is None,
{
}

/// Bytes are refused exactly if more were counted than the limit.
pub proof fn law_bytes_are_refused_beyond_their_limit(state: LimitState, bytes: nat)
    requires
        state.bytes + bytes <= usize::MAX,
    ensures
        state.charged(bytes).bytes == state.bytes + bytes,
        state.charged(bytes).size_refusal() is Some <==> state.bytes + bytes > state.max_bytes,
        state.charged(bytes).depth == state.depth,
        LimitState::fresh(state.max_depth, state.max_bytes).depth == 0,
        LimitState::fresh(state.max_depth, state.max_bytes).bytes == 0,
        LimitState::fresh(state.max_depth, state.max_bytes).max_depth == state.max_depth,
        LimitState::fresh(state.max_depth, state.max_bytes).max_bytes == state.max_bytes,
{
}

/// What comes of a conversion whose stack was measured as it went is what comes of it
/// with those measurements told beforehand.
pub proof fn law_measured_conversions_are_told_ones(
    value: JsView,
    items: Seq<JsView>,
    with_handle: bool,
    before: LimitState,
    seen: Seq<Option<usize>>,
    made: Result<PyView, Seq<char>>,
    all_made: Result<Seq<PyView>, Seq<char>>,
    after: LimitState,
)
    ensures
        converts(value, with_handle, before, seen, made, after) ==> to_python(
            value,
            with_handle,
            before.expecting(seen),
        ).0 == made,
        converts_items(items, with_handle, before, seen, all_made, after) ==> items_to_python(
            items,
            with_handle,
            before.expecting(seen),
        ).0 == all_made,
{
    let none = Seq::<Option<usize>>::empty();
    assert(seen + none =~= seen);
    if converts(value, with_handle, before, seen, made, after) {
        assert(to_python(value, with_handle, before.expecting(seen + none)).0 == made);
    }
    if converts_items(items, with_handle, before, seen, all_made, after) {
        assert(items_to_python(items, with_handle, before.expecting(seen + none)).0 == all_made);
    }
}

/// The results of evaluations are converted without limits.
pub proof fn law_results_are_converted_without_limits(optimized: bool)
    ensures
        is_unlimited(unlimited(optimized)),
        unlimited(optimized).depth == 0,
        unlimited(optimized).bytes == 0,
        unlimited(optimized).optimized == optimized,
{
}

/// The arguments of a call are converted one by one, in order, and each into what it
/// would become alone.
pub proof fn law_arguments_are_converted_one_by_one(
    items: Seq<JsView>,
    with_handle: bool,
    state: LimitState,
    i: int,
)
    requires
        items_to_python(items, with_handle, state).0 is Ok,
    ensures
        items_to_python(items, with_handle, state).0->Ok_0.len() == items.len(),
        0 <= i < items.len() ==> exists|at: LimitState|
            (#[trigger] to_python(items[i], with_handle, at)).0 == Ok::<_, Seq<char>>(
                items_to_python(items, with_handle, state).0->Ok_0[i],
            ),
    decreases items.len(),
{
    if items.len() > 0 {
        let rest = items.drop_last();
        law_arguments_are_converted_one_by_one(rest, with_handle, state, i);
        let before = items_to_python(rest, with_handle, state).1;
        if i == items.len() - 1 {
            assert(to_python(items[i], with_handle, before).0 is Ok);
        } else if 0 <= i < rest.len() {
            assert(rest[i] == items[i]);
        }
    }
}

} // verus!
