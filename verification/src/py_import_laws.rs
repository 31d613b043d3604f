//! What feeding a whole Python object to the importer amounts to.

use crate::conversion::metered_twice;
use crate::js_value::JsView;
use crate::limits::LimitState;
use crate::py_import::{
    accept, advance, argument_step, container_header, container_name, container_slots, deliver,
    frame_value, frame_with, on_path, open_frame, scalar, ArgumentsView, PyContainer, PyEventView,
    PyFrameView, PyReadingView, PyStepView,
};
use crate::text::byte_len;
use vstd::prelude::*;

verus! {

/// A Python object with everything below it. The key of a child counts only in a
/// dictionary.
pub enum PyTree {
    Leaf(PyReadingView),
    Node { kind: PyContainer, identity: usize, len: usize, children: Seq<(Seq<char>, PyTree)> },
}

/// A leaf is no container.
pub open spec fn well_formed(tree: PyTree) -> bool
    decreases tree,
{
    match tree {
        PyTree::Leaf(reading) => !(reading is Container),
        PyTree::Node { children, .. } => all_well_formed(children),
    }
}

pub open spec fn all_well_formed(children: Seq<(Seq<char>, PyTree)>) -> bool
    decreases children,
{
    children.len() == 0 || (all_well_formed(children.drop_last()) && well_formed(
        children.last().1,
    ))
}

/// What is read of the object itself.
pub open spec fn head(tree: PyTree) -> PyReadingView {
    match tree {
        PyTree::Leaf(reading) => reading,
        PyTree::Node { kind, identity, len, .. } => PyReadingView::Container(kind, identity, len),
    }
}

/// What is read of the object after its head.
pub open spec fn body(tree: PyTree) -> Seq<PyEventView>
    decreases tree,
{
    match tree {
        PyTree::Leaf(_) => Seq::empty(),
        PyTree::Node { kind, children, .. } => child_events(kind, children).push(PyEventView::End),
    }
}

/// What is read of the children in order.
pub open spec fn child_events(kind: PyContainer, children: Seq<(Seq<char>, PyTree)>) -> Seq<
    PyEventView,
>
    decreases children,
{
    if children.len() == 0 {
        Seq::empty()
    } else {
        let (key, child) = children.last();
        child_events(kind, children.drop_last()).push(
            if kind == PyContainer::Dict {
                PyEventView::Entry(key, head(child))
            } else {
                PyEventView::Item(head(child))
            },
        ) + body(child)
    }
}

/// The value of an object below the containers on `path`, and the limits
/// afterwards: one level for each object, metered before anything below it.
pub open spec fn convert(tree: PyTree, path: Seq<usize>, state: LimitState) -> (
    Result<JsView, Seq<char>>,
    LimitState,
)
    decreases tree,
{
    let entered = state.entered();
    match entered.level_refusal() {
        Some(text) => (Err(text), entered),
        None => match tree {
            PyTree::Leaf(reading) => match scalar(reading, entered) {
                (Ok(value), counted) => (Ok(value), counted.exited()),
                (Err(text), counted) => (Err(text), counted),
            },
            PyTree::Node { kind, identity, len, children } => if path.contains(identity) {
                (
                    Err(
                        "Circular reference detected while converting Python "@ + container_name(
                            kind,
                        ),
                    ),
                    entered,
                )
            } else {
                match metered_twice(
                    entered,
                    container_header(kind),
                    container_slots(kind, len),
                    Ok(()),
                ) {
                    (Err(text), counted) => (Err(text), counted),
                    (Ok(_), counted) => match convert_children(
                        open_frame(kind, identity),
                        children,
                        path.push(identity),
                        counted,
                    ) {
                        (Ok(frame), after) => (Ok(frame_value(frame)), after.exited()),
                        (Err(text), after) => (Err(text), after),
                    },
                }
            },
        },
    }
}

/// The container with the values of its children, or the first failure.
pub open spec fn convert_children(
    frame: PyFrameView,
    children: Seq<(Seq<char>, PyTree)>,
    path: Seq<usize>,
    state: LimitState,
) -> (Result<PyFrameView, Seq<char>>, LimitState)
    decreases children,
{
    if children.len() == 0 {
        (Ok(frame), state)
    } else {
        match convert_children(frame, children.drop_last(), path, state) {
            (Err(text), before) => (Err(text), before),
            (Ok(filled), before) => {
                let (key, child) = children.last();
                let (outcome, counted) = if frame.kind == PyContainer::Dict {
                    metered_twice(before, byte_len(key), 8, Ok(()))
                } else {
                    (Ok(()), before)
                };
                let keyed = if frame.kind == PyContainer::Dict {
                    PyFrameView { key, ..filled }
                } else {
                    filled
                };
                match outcome {
                    Err(text) => (Err(text), counted),
                    Ok(_) => match convert(child, path, counted) {
                        (Ok(value), after) => (Ok(frame_with(keyed, value)), after),
                        (Err(text), after) => (Err(text), after),
                    },
                }
            },
        }
    }
}

/// The importer after a step, fed with what is read next for as long as it asks.
pub open spec fn run(at: (Seq<PyFrameView>, LimitState, PyStepView), events: Seq<PyEventView>) -> (
    Seq<PyFrameView>,
    LimitState,
    PyStepView,
)
    decreases events.len(),
{
    if events.len() == 0 || !(at.2 is More) {
        at
    } else {
        run(advance(at.0, at.1, events[0]), events.drop_first())
    }
}

proof fn lemma_run_append(
    at: (Seq<PyFrameView>, LimitState, PyStepView),
    a: Seq<PyEventView>,
    b: Seq<PyEventView>,
)
    ensures
        run(at, a + b) == run(run(at, a), b),
    decreases a.len(),
{
    if a.len() == 0 {
        assert(a + b =~= b);
    } else if at.2 is More {
        assert((a + b).drop_first() =~= a.drop_first() + b);
        lemma_run_append(advance(at.0, at.1, a[0]), a.drop_first(), b);
    }
}

/// The identities of the containers that are being read.
pub open spec fn path_of(frames: Seq<PyFrameView>) -> Seq<usize> {
    frames.map_values(|frame: PyFrameView| frame.identity)
}

proof fn lemma_path(frames: Seq<PyFrameView>, identity: usize)
    ensures
        on_path(frames, identity) == path_of(frames).contains(identity),
{
    if on_path(frames, identity) {
        let i = choose|i: int| 0 <= i < frames.len() && (#[trigger] frames[i]).identity == identity;
        assert(path_of(frames)[i] == identity);
    }
    if path_of(frames).contains(identity) {
        let i = choose|i: int| 0 <= i < path_of(frames).len() && path_of(frames)[i] == identity;
        assert(frames[i].identity == identity);
    }
}

/// Feeding an object and everything below it to an importer gives its value to
/// the innermost container (or as the result), or fails as its conversion does;
/// and leaves the limits as the conversion does.
pub proof fn law_feeding_converts(frames: Seq<PyFrameView>, state: LimitState, tree: PyTree)
    requires
        well_formed(tree),
    ensures
        ({
            let (result, after) = convert(tree, path_of(frames), state);
            let (left, limits, step) = run(accept(frames, state, head(tree)), body(tree));
            &&& limits == after
            &&& match result {
                Ok(value) => (left, step) == deliver(frames, value),
                Err(text) => step == PyStepView::Failed(text),
            }
        }),
    decreases tree,
{
    match tree {
        PyTree::Leaf(_) => {},
        PyTree::Node { kind, identity, len, children } => {
            lemma_path(frames, identity);
            let start = accept(frames, state, head(tree));
            if start.2 is More {
                let opened = frames.push(open_frame(kind, identity));
                assert(start.0 == opened);
                assert(path_of(opened) =~= path_of(frames).push(identity));
                lemma_children(frames, open_frame(kind, identity), start.1, children);
                let events = child_events(kind, children);
                lemma_run_append(start, events, seq![PyEventView::End]);
                assert(events + seq![PyEventView::End] =~= body(tree));
                let filled = run(start, events);
                reveal_with_fuel(run, 2);
                match convert_children(
                    open_frame(kind, identity),
                    children,
                    path_of(opened),
                    start.1,
                ) {
                    (Ok(frame), after) => {
                        assert(filled.0 == frames.push(frame));
                        assert(frames.push(frame).drop_last() =~= frames);
                        assert(seq![PyEventView::End].drop_first() =~= Seq::empty());
                    },
                    (Err(_), _) => {},
                }
            }
        },
    }
}

proof fn lemma_children(
    frames: Seq<PyFrameView>,
    frame: PyFrameView,
    state: LimitState,
    children: Seq<(Seq<char>, PyTree)>,
)
    requires
        all_well_formed(children),
    ensures
        ({
            let path = path_of(frames).push(frame.identity);
            let (result, after) = convert_children(frame, children, path, state);
            let (left, limits, step) = run(
                (frames.push(frame), state, PyStepView::More),
                child_events(frame.kind, children),
            );
            &&& limits == after
            &&& match result {
                Ok(filled) => left == frames.push(filled) && step == PyStepView::More
                    && filled.kind == frame.kind && filled.identity == frame.identity,
                Err(text) => step == PyStepView::Failed(text),
            }
        }),
    decreases children,
{
    if children.len() > 0 {
        let kind = frame.kind;
        let path = path_of(frames).push(frame.identity);
        let rest = children.drop_last();
        let (key, child) = children.last();
        let start = (frames.push(frame), state, PyStepView::More);
        lemma_children(frames, frame, state, rest);
        let event = if kind == PyContainer::Dict {
            PyEventView::Entry(key, head(child))
        } else {
            PyEventView::Item(head(child))
        };
        let before = run(start, child_events(kind, rest));
        lemma_run_append(start, child_events(kind, rest).push(event), body(child));
        lemma_run_append(start, child_events(kind, rest), seq![event]);
        assert(child_events(kind, rest).push(event) =~= child_events(kind, rest) + seq![event]);
        reveal_with_fuel(run, 2);
        assert(seq![event].drop_first() =~= Seq::empty());
        match convert_children(frame, rest, path, state) {
            (Err(_), _) => {},
            (Ok(filled), s) => {
                assert(before == (frames.push(filled), s, PyStepView::More));
                let stepped = advance(frames.push(filled), s, event);
                assert(run(before, seq![event]) == stepped);
                let keyed = if kind == PyContainer::Dict {
                    PyFrameView { key, ..filled }
                } else {
                    filled
                };
                let counted = if kind == PyContainer::Dict {
                    metered_twice(s, byte_len(key), 8, Ok::<(), Seq<char>>(()))
                } else {
                    (Ok::<(), Seq<char>>(()), s)
                };
                assert(frames.push(filled).drop_last() =~= frames);
                if counted.0 is Ok {
                    let inner = frames.push(keyed);
                    assert(stepped == accept(inner, counted.1, head(child)));
                    assert(path_of(inner) =~= path);
                    law_feeding_converts(inner, counted.1, child);
                    assert(inner.drop_last() =~= frames);
                }
            },
        }
    } else {
        reveal_with_fuel(run, 2);
    }
}

/// Converting one object under fresh limits: the importer, fed with what is read
/// of the object and of everything below it, ends with the converted value or
/// with the failure of the conversion.
pub proof fn law_import_of_one_object(tree: PyTree, max_depth: nat, max_bytes: nat)
    requires
        well_formed(tree),
    ensures
        ({
            let limits = LimitState::fresh(max_depth, max_bytes);
            run(accept(Seq::empty(), limits, head(tree)), body(tree)).2 == match convert(
                tree,
                Seq::empty(),
                limits,
            ).0 {
                Ok(value) => PyStepView::Done(value),
                Err(text) => PyStepView::Failed(text),
            }
        }),
{
    let frames = Seq::<PyFrameView>::empty();
    assert(path_of(frames) =~= Seq::empty());
    law_feeding_converts(frames, LimitState::fresh(max_depth, max_bytes), tree);
}

/// Only bytes were counted between the two states, none was given back, and the stack
/// was measured as it was to be.
pub open spec fn only_charged(before: LimitState, after: LimitState) -> bool {
    &&& after == (LimitState {
        bytes: after.bytes,
        stack: after.stack,
        ahead: after.ahead,
        ..before
    })
    &&& before.ahead.len() == 0 ==> after.stack == before.stack && after.ahead == before.ahead
    &&& before.bytes <= after.bytes <= usize::MAX
}

proof fn lemma_scalar_only_charges(reading: PyReadingView, state: LimitState)
    requires
        state.bytes <= usize::MAX,
        scalar(reading, state).0 is Ok,
    ensures
        only_charged(state, scalar(reading, state).1),
{
    match reading {
        PyReadingView::DateTime(timestamp, epoch_ms) => {
            assert(scalar(reading, state).1 == state.charged(16));
        },
        PyReadingView::Str(s) => {
            assert(scalar(reading, state).1 == state.charged(byte_len(s)).charged(16));
        },
        PyReadingView::BigInt(i) => {
            assert(scalar(reading, state).1 == state.charged(crate::bigint::magnitude_len(i)));
        },
        PyReadingView::Function(function, shut_down) => {
            assert(scalar(reading, state).1 == state.charged(8));
        },
        PyReadingView::StreamSource(source) => {
            assert(scalar(reading, state).1 == state.charged(4));
        },
        _ => {
            assert(only_charged(state, scalar(reading, state).1));
        },
    }
}

/// A conversion that succeeds leaves every level that it entered; what it adds to the
/// byte count stays.
pub proof fn law_conversion_only_charges(tree: PyTree, path: Seq<usize>, state: LimitState)
    requires
        well_formed(tree),
        state.max_depth < usize::MAX,
        state.bytes <= usize::MAX,
        convert(tree, path, state).0 is Ok,
    ensures
        only_charged(state, convert(tree, path, state).1),
    decreases tree,
{
    match tree {
        PyTree::Leaf(reading) => {
            lemma_scalar_only_charges(reading, state.entered());
        },
        PyTree::Node { kind, identity, len, children } => {
            let counted = metered_twice(
                state.entered(),
                container_header(kind),
                container_slots(kind, len),
                Ok(()),
            ).1;
            lemma_children_only_charge(
                open_frame(kind, identity),
                children,
                path.push(identity),
                counted,
            );
        },
    }
}

proof fn lemma_children_only_charge(
    frame: PyFrameView,
    children: Seq<(Seq<char>, PyTree)>,
    path: Seq<usize>,
    state: LimitState,
)
    requires
        all_well_formed(children),
        state.max_depth < usize::MAX,
        state.bytes <= usize::MAX,
        convert_children(frame, children, path, state).0 is Ok,
    ensures
        only_charged(state, convert_children(frame, children, path, state).1),
    decreases children,
{
    if children.len() > 0 {
        let rest = children.drop_last();
        lemma_children_only_charge(frame, rest, path, state);
        let before = convert_children(frame, rest, path, state).1;
        let (key, child) = children.last();
        let counted = if frame.kind == PyContainer::Dict {
            metered_twice(before, byte_len(key), 8, Ok(())).1
        } else {
            before
        };
        law_conversion_only_charges(child, path, counted);
    }
}

/// The values of objects in order under one budget, or the first failure.
pub open spec fn convert_all(trees: Seq<PyTree>, state: LimitState) -> (
    Result<Seq<JsView>, Seq<char>>,
    LimitState,
)
    decreases trees.len(),
{
    if trees.len() == 0 {
        (Ok(Seq::empty()), state)
    } else {
        match convert_all(trees.drop_last(), state) {
            (Ok(values), before) => match convert(trees.last(), Seq::empty(), before) {
                (Ok(value), after) => (Ok(values.push(value)), after),
                (Err(text), after) => (Err(text), after),
            },
            (Err(text), before) => (Err(text), before),
        }
    }
}

/// A reader that is told of arguments in order, up to the first failure.
pub open spec fn read_all(reader: ArgumentsView, trees: Seq<PyTree>) -> (
    ArgumentsView,
    Option<Seq<char>>,
)
    decreases trees.len(),
{
    if trees.len() == 0 {
        (reader, None)
    } else {
        match read_all(reader, trees.drop_last()) {
            (before, None) => {
                let step = run(
                    accept(before.frames, before.budget, head(trees.last())),
                    body(trees.last()),
                );
                (
                    argument_step(before, step),
                    match step.2 {
                        PyStepView::Failed(text) => Some(text),
                        _ => None,
                    },
                )
            },
            (before, Some(text)) => (before, Some(text)),
        }
    }
}

/// The arguments of a call are metered against one budget: reading them one after
/// the other converts them in order under limits that carry over, and fails with the
/// first argument that exceeds what is left.
pub proof fn law_arguments_share_one_budget(trees: Seq<PyTree>, max_depth: nat, max_bytes: nat)
    requires
        forall|i: int| 0 <= i < trees.len() ==> well_formed(#[trigger] trees[i]),
    ensures
        ({
            let limits = LimitState::fresh(max_depth, max_bytes);
            let fresh = ArgumentsView {
                frames: Seq::empty(),
                budget: limits,
                done: Seq::empty(),
            };
            let (reader, failure) = read_all(fresh, trees);
            let (values, after) = convert_all(trees, limits);
            &&& reader.budget == after
            &&& match values {
                Ok(done) => failure is None && reader.done == done && reader.frames.len() == 0,
                Err(text) => failure == Some(text),
            }
        }),
    decreases trees.len(),
{
    if trees.len() > 0 {
        let rest = trees.drop_last();
        assert forall|i: int| 0 <= i < rest.len() implies well_formed(#[trigger] rest[i]) by {
            assert(rest[i] == trees[i]);
        }
        law_arguments_share_one_budget(rest, max_depth, max_bytes);
        let limits = LimitState::fresh(max_depth, max_bytes);
        let fresh = ArgumentsView { frames: Seq::empty(), budget: limits, done: Seq::empty() };
        let (before, failure) = read_all(fresh, rest);
        assert(well_formed(trees[trees.len() - 1]));
        law_feeding_converts(before.frames, before.budget, trees.last());
        if failure is None {
            assert(path_of(before.frames) =~= Seq::empty());
        }
    }
}

} // verus!
