//! What comes back of a value that was made in the engine and read back.

use crate::bigint::law_parse_of_decimal;
use crate::double::{
    clamp, lemma_exact_integers_are_nearest, lemma_small_integers_are_exact, signed_bits, Double,
    FRACTION_SPAN,
};
use crate::error::ErrorView;
use crate::functions::FunctionsView;
use crate::js_value::{distinct_keys, lemma_position, position, JsView};
use crate::text::int_decimal;
use crate::v8_export::{entry_plans_of, plan_of, plans_of, PlanView};
use crate::v8_import::{number_value, open_frame, V8Container, V8FrameView, V8ReadingView};
use crate::v8_import_laws::{
    convert, convert_children, header_metered, keyed_frame, Effects, V8Tree,
};
use vstd::prelude::*;

verus! {

/// What is read of a value that was made by this plan, part by part as it was made.
/// Containers are told apart by how deep they are.
pub open spec fn tree_of(plan: PlanView, level: nat) -> V8Tree
    decreases plan,
{
    match plan {
        PlanView::Undefined => V8Tree::Leaf(V8ReadingView::Undefined),
        PlanView::Null => V8Tree::Leaf(V8ReadingView::Null),
        PlanView::Boolean(b) => V8Tree::Leaf(V8ReadingView::Boolean(b)),
        PlanView::BigInt(i) => V8Tree::Leaf(
            if i64::MIN <= i <= i64::MAX {
                V8ReadingView::BigInt(i as i64, true, None)
            } else {
                V8ReadingView::BigInt(0, false, Some(int_decimal(i)))
            },
        ),
        PlanView::Number(bits) => V8Tree::Leaf(V8ReadingView::Number(bits)),
        PlanView::Text(s) => V8Tree::Leaf(V8ReadingView::Text(s)),
        PlanView::Bytes(bytes) => V8Tree::Buffer(bytes),
        PlanView::Array(items) => V8Tree::Node {
            kind: V8Container::Array,
            identity: level as usize,
            slot: 0,
            children: item_trees(items, level + 1),
        },
        PlanView::JsSet(items) => V8Tree::Node {
            kind: V8Container::JsSet,
            identity: level as usize,
            slot: 0,
            children: item_trees(items, level + 1),
        },
        PlanView::Object(entries) => V8Tree::Node {
            kind: V8Container::Object,
            identity: level as usize,
            slot: 0,
            children: entry_trees(entries, level + 1),
        },
        PlanView::Date(bits) => V8Tree::Leaf(V8ReadingView::Date(bits)),
        PlanView::Function(slot) => V8Tree::Leaf(V8ReadingView::Function(slot)),
        PlanView::PyStream(id) => V8Tree::Leaf(V8ReadingView::Stream(id as u64)),
    }
}

pub open spec fn item_trees(items: Seq<PlanView>, level: nat) -> Seq<(Seq<char>, V8Tree)>
    decreases items,
{
    if items.len() == 0 {
        Seq::empty()
    } else {
        item_trees(items.drop_last(), level).push((Seq::empty(), tree_of(items.last(), level)))
    }
}

pub open spec fn entry_trees(entries: Seq<(Seq<char>, PlanView)>, level: nat) -> Seq<
    (Seq<char>, V8Tree),
>
    decreases entries,
{
    if entries.len() == 0 {
        Seq::empty()
    } else {
        entry_trees(entries.drop_last(), level).push(
            (entries.last().0, tree_of(entries.last().1, level)),
        )
    }
}

/// The value is data, and each number in it is one that the engine tells apart: an
/// integer that a double holds, a float that is no such integer, a big integer too
/// large for one.
pub open spec fn steady(value: JsView) -> bool
    decreases value,
{
    match value {
        JsView::Int(i) => number_value(signed_bits(i as int) as u64) == value,
        JsView::Float(bits) => number_value(bits) == value,
        JsView::BigInt(i) => !(i64::MIN <= i <= i64::MAX),
        JsView::Date(ms) => {
            let d = Double { bits: signed_bits(ms as int) as u64 };
            d.within_i64_span() && clamp(d.rounded(), i64::MIN as int, i64::MAX as int) == ms
        },
        JsView::Array(items) => all_steady(items),
        JsView::JsSet(items) => all_steady(items),
        JsView::Object(entries) => distinct_keys(entries) && all_entries_steady(entries),
        JsView::Function(_) => false,
        JsView::JsStream(_) => false,
        JsView::PyStream(_) => false,
        _ => true,
    }
}

pub open spec fn all_steady(items: Seq<JsView>) -> bool
    decreases items,
{
    items.len() == 0 || (all_steady(items.drop_last()) && steady(items.last()))
}

pub open spec fn all_entries_steady(entries: Seq<(Seq<char>, JsView)>) -> bool
    decreases entries,
{
    entries.len() == 0 || (all_entries_steady(entries.drop_last()) && steady(entries.last().1))
}

/// Integers and moments below 2^53 come back as they were.
pub proof fn law_small_integers_are_steady(i: i64)
    requires
        -2 * FRACTION_SPAN < i < 2 * FRACTION_SPAN,
    ensures
        steady(JsView::Int(i)),
        steady(JsView::Date(i)),
{
    lemma_small_integers_are_exact(i as int);
}

/// A number of the engine, once read, is made in the engine again bit for bit, and is
/// then read as it was.
pub proof fn law_engine_numbers_come_back(bits: u64, functions: FunctionsView)
    ensures
        plan_of(number_value(bits), functions) == Ok::<PlanView, ErrorView>(
            PlanView::Number(bits),
        ),
        steady(number_value(bits)),
{
    let d = Double { bits };
    if d.exact_i64() {
        lemma_exact_integers_are_nearest(d);
    }
}

/// A steady value that is made in the engine as planned, and read back part by part as
/// it was made, is the same value, if the limits allow it; nothing is stored on the
/// way.
pub proof fn law_engine_values_come_back(
    value: JsView,
    functions: FunctionsView,
    level: nat,
    path: Seq<usize>,
    receiver: Option<u64>,
    effects: Effects,
)
    requires
        steady(value),
    ensures
        plan_of(value, functions) is Ok,
        ({
            let (result, after) = convert(
                tree_of(plan_of(value, functions)->Ok_0, level),
                path,
                receiver,
                effects,
            );
            result is Ok ==> result->Ok_0 == value && after.functions == effects.functions
                && after.streams == effects.streams
        }),
    decreases value,
{
    let entered = Effects { limits: effects.limits.entered(), ..effects };
    match value {
        JsView::Array(items) => {
            lemma_items(
                open_frame(V8Container::Array, level as usize, 0, items.len() as usize),
                items,
                functions,
                level + 1,
                path.push(level as usize),
                Effects {
                    limits: header_metered(V8Container::Array, items.len(), entered.limits).1,
                    ..entered
                },
            );
        },
        JsView::JsSet(items) => {
            lemma_items(
                open_frame(V8Container::JsSet, level as usize, 0, items.len() as usize),
                items,
                functions,
                level + 1,
                path.push(level as usize),
                Effects {
                    limits: header_metered(V8Container::JsSet, items.len(), entered.limits).1,
                    ..entered
                },
            );
        },
        JsView::Object(entries) => {
            lemma_entries(
                open_frame(V8Container::Object, level as usize, 0, entries.len() as usize),
                entries,
                functions,
                level + 1,
                path.push(level as usize),
                Effects { limits: entered.limits, ..entered },
            );
        },
        JsView::BigInt(i) => {
            law_parse_of_decimal(i);
        },
        _ => {},
    }
}

proof fn lemma_items(
    frame: V8FrameView,
    items: Seq<JsView>,
    functions: FunctionsView,
    level: nat,
    path: Seq<usize>,
    effects: Effects,
)
    requires
        all_steady(items),
        frame.kind == V8Container::Array || frame.kind == V8Container::JsSet,
        frame.items.len() == 0,
    ensures
        plans_of(items, functions) is Ok,
        plans_of(items, functions)->Ok_0.len() == items.len(),
        item_trees(plans_of(items, functions)->Ok_0, level).len() == items.len(),
        ({
            let (result, after) = convert_children(
                frame,
                item_trees(plans_of(items, functions)->Ok_0, level),
                path,
                effects,
            );
            result is Ok ==> result->Ok_0.kind == frame.kind && result->Ok_0.items == items
                && after.functions == effects.functions && after.streams == effects.streams
        }),
    decreases items,
{
    if items.len() == 0 {
        assert(frame.items =~= items);
    } else {
        let rest = items.drop_last();
        lemma_items(frame, rest, functions, level, path, effects);
        let (filled, before) = convert_children(
            frame,
            item_trees(plans_of(rest, functions)->Ok_0, level),
            path,
            effects,
        );
        law_engine_values_come_back(items.last(), functions, level, path, None, before);
        let plans = plans_of(items, functions)->Ok_0;
        assert(plans.drop_last() =~= plans_of(rest, functions)->Ok_0);
        let trees = item_trees(plans, level);
        assert(trees.drop_last() =~= item_trees(plans_of(rest, functions)->Ok_0, level));
        assert(rest.push(items.last()) =~= items);
    }
}

proof fn lemma_entries(
    frame: V8FrameView,
    entries: Seq<(Seq<char>, JsView)>,
    functions: FunctionsView,
    level: nat,
    path: Seq<usize>,
    effects: Effects,
)
    requires
        all_entries_steady(entries),
        distinct_keys(entries),
        frame.kind == V8Container::Object,
        frame.entries.len() == 0,
    ensures
        entry_plans_of(entries, functions) is Ok,
        entry_plans_of(entries, functions)->Ok_0.len() == entries.len(),
        entry_trees(entry_plans_of(entries, functions)->Ok_0, level).len() == entries.len(),
        ({
            let (result, after) = convert_children(
                frame,
                entry_trees(entry_plans_of(entries, functions)->Ok_0, level),
                path,
                effects,
            );
            result is Ok ==> result->Ok_0.kind == frame.kind && result->Ok_0.slot == frame.slot
                && result->Ok_0.entries == entries && after.functions == effects.functions
                && after.streams == effects.streams
        }),
    decreases entries,
{
    if entries.len() == 0 {
        assert(frame.entries =~= entries);
    } else {
        let rest = entries.drop_last();
        assert(distinct_keys(rest)) by {
            assert forall|i: int, j: int| 0 <= i < j < rest.len() implies (#[trigger] rest[i]).0
                != (#[trigger] rest[j]).0 by {
                assert(entries[i].0 != entries[j].0);
            }
        }
        lemma_entries(frame, rest, functions, level, path, effects);
        let (filled, before) = convert_children(
            frame,
            entry_trees(entry_plans_of(rest, functions)->Ok_0, level),
            path,
            effects,
        );
        let (key, value) = entries.last();
        let plans = entry_plans_of(entries, functions)->Ok_0;
        if filled is Ok {
            let (keyed, outcome, limits) = keyed_frame(filled->Ok_0, key, before.limits);
            let receiver = crate::v8_import_laws::child_receiver(
                filled->Ok_0,
                tree_of(plan_of(value, functions)->Ok_0, level),
            );
            law_engine_values_come_back(
                value,
                functions,
                level,
                path,
                receiver,
                Effects { limits, ..before },
            );
            lemma_position(rest, key);
            if position(rest, key) is Some {
                let i = position(rest, key)->0;
                assert(entries[i].0 != entries[entries.len() - 1].0);
            }
        } else {
            law_engine_values_come_back(value, functions, level, path, None, before);
        }
        assert(plans.drop_last() =~= entry_plans_of(rest, functions)->Ok_0);
        let trees = entry_trees(plans, level);
        assert(trees.drop_last() =~= entry_trees(entry_plans_of(rest, functions)->Ok_0, level));
        assert(rest.push(entries.last()) =~= entries);
    }
}

} // verus!
