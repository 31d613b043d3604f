//! What feeding a whole engine value to the importer amounts to.

use crate::bigint::parse_decimal;
use crate::conversion::{metered, metered_twice};
use crate::double::{clamp, Double};
use crate::error::ErrorView;
use crate::functions::{FunctionsView, StoredFunction};
use crate::js_value::JsView;
use crate::limits::{saturating_product, word_bytes, LimitState};
use crate::stream::JsStreamsView;
use crate::text::byte_len;
use crate::v8_import::{
    accept, accept_inner, advance, deliver, frame_value, frame_with, next_read, number_value,
    on_path, open_frame, receiver_of, settled, ImportState, V8Container, V8EventView, V8FrameView, V8ReadingView,
    V8StepView,
};
use vstd::prelude::*;

verus! {

/// An engine value with everything below it. The key of a child counts only in an
/// object.
pub enum V8Tree {
    Leaf(V8ReadingView),
    Buffer(Seq<u8>),
    Node { kind: V8Container, identity: usize, slot: u64, children: Seq<(Seq<char>, V8Tree)> },
}

/// A leaf is no container, and lengths fit the machine.
pub open spec fn well_formed(tree: V8Tree) -> bool
    decreases tree,
{
    match tree {
        V8Tree::Leaf(reading) => !(reading is Buffer || reading is Array || reading is JsSet
            || reading is Object),
        V8Tree::Buffer(bytes) => bytes.len() <= usize::MAX,
        V8Tree::Node { kind, children, slot, .. } => kind != V8Container::Buffer && (kind
            != V8Container::Object ==> slot == 0) && children.len() <= usize::MAX
            && all_well_formed(children),
    }
}

pub open spec fn all_well_formed(children: Seq<(Seq<char>, V8Tree)>) -> bool
    decreases children,
{
    children.len() == 0 || (all_well_formed(children.drop_last()) && well_formed(
        children.last().1,
    ))
}

/// What is read of the value itself.
pub open spec fn head(tree: V8Tree) -> V8ReadingView {
    match tree {
        V8Tree::Leaf(reading) => reading,
        V8Tree::Buffer(bytes) => V8ReadingView::Buffer(bytes.len() as usize),
        V8Tree::Node { kind, identity, slot, children } => match kind {
            V8Container::Array => V8ReadingView::Array(identity, children.len() as usize),
            V8Container::JsSet => V8ReadingView::JsSet(identity, children.len() as usize),
            _ => V8ReadingView::Object(identity, slot, Some(children.len() as usize)),
        },
    }
}

/// What is read of the value after its head.
pub open spec fn body(tree: V8Tree) -> Seq<V8EventView>
    decreases tree,
{
    match tree {
        V8Tree::Leaf(_) => Seq::empty(),
        V8Tree::Buffer(bytes) => seq![V8EventView::Bytes(bytes)],
        V8Tree::Node { kind, children, .. } => child_events(kind, children),
    }
}

/// How a child is read first.
pub open spec fn child_event(kind: V8Container, key: Seq<char>, child: V8Tree) -> V8EventView {
    if kind == V8Container::Object {
        V8EventView::Property(key, head(child))
    } else {
        V8EventView::Element(head(child))
    }
}

/// What is read of the children in order.
pub open spec fn child_events(kind: V8Container, children: Seq<(Seq<char>, V8Tree)>) -> Seq<
    V8EventView,
>
    decreases children,
{
    if children.len() == 0 {
        Seq::empty()
    } else {
        let (key, child) = children.last();
        child_events(kind, children.drop_last()).push(child_event(kind, key, child)) + body(child)
    }
}

/// What a conversion changes besides the containers that are being read.
#[verifier::ext_equal]
pub struct Effects {
    pub limits: LimitState,
    pub functions: FunctionsView,
    pub streams: JsStreamsView,
}

/// The importer's state with these containers and effects.
pub open spec fn state_of(frames: Seq<V8FrameView>, effects: Effects) -> ImportState {
    ImportState {
        frames,
        limits: effects.limits,
        functions: effects.functions,
        streams: effects.streams,
    }
}

pub open spec fn effects_of(state: ImportState) -> Effects {
    Effects { limits: state.limits, functions: state.functions, streams: state.streams }
}

/// The outcome of a value without parts: what accepting it alone amounts to.
pub open spec fn convert_leaf(
    reading: V8ReadingView,
    receiver: Option<u64>,
    effects: Effects,
) -> (Result<JsView, ErrorView>, Effects) {
    let (state, step) = accept_inner(state_of(Seq::empty(), effects), reading, receiver);
    match step {
        V8StepView::Done(value) => (Ok(value), effects_of(state)),
        V8StepView::Failed(err) => (Err(err), effects_of(state)),
        _ => (Ok(JsView::Undefined), effects_of(state)),
    }
}

/// The value below the containers on `path`, and the effects of converting it: one
/// level for each value, metered before anything below it.
pub open spec fn convert(
    tree: V8Tree,
    path: Seq<usize>,
    receiver: Option<u64>,
    effects: Effects,
) -> (Result<JsView, ErrorView>, Effects)
    decreases tree,
{
    let entered = Effects { limits: effects.limits.entered(), ..effects };
    match entered.limits.level_refusal() {
        Some(text) => (Err(ErrorView::Internal(text)), entered),
        None => match tree {
            V8Tree::Leaf(reading) => convert_leaf(reading, receiver, entered),
            V8Tree::Buffer(bytes) => match metered(entered.limits, bytes.len(), Ok(())) {
                (Err(text), limits) => (
                    Err(ErrorView::Internal(text)),
                    Effects { limits, ..entered },
                ),
                (Ok(_), limits) => (
                    Ok(JsView::Bytes(bytes)),
                    Effects { limits: limits.exited(), ..entered },
                ),
            },
            V8Tree::Node { kind, identity, slot, children } => if path.contains(identity) {
                (Err(ErrorView::Internal("Cannot serialize circular reference"@)), entered)
            } else {
                let (outcome, limits) = header_metered(kind, children.len(), entered.limits);
                let counted = Effects { limits, ..entered };
                match outcome {
                    Err(text) => (Err(ErrorView::Internal(text)), counted),
                    Ok(_) => match convert_children(
                        open_frame(kind, identity, slot, children.len() as usize),
                        children,
                        path.push(identity),
                        counted,
                    ) {
                        (Ok(frame), after) => (
                            Ok(frame_value(frame)),
                            Effects { limits: after.limits.exited(), ..after },
                        ),
                        (Err(err), after) => (Err(err), after),
                    },
                }
            },
        },
    }
}

/// An array or a set is metered with its header and one word for each element; an
/// object only with its keys.
pub open spec fn header_metered(kind: V8Container, length: nat, limits: LimitState) -> (
    Result<(), Seq<char>>,
    LimitState,
) {
    match kind {
        V8Container::Array => metered_twice(
            limits,
            16,
            saturating_product(length, word_bytes()),
            Ok(()),
        ),
        V8Container::JsSet => metered_twice(
            limits,
            24,
            saturating_product(length, word_bytes()),
            Ok(()),
        ),
        _ => (Ok(()), limits),
    }
}

/// The container with the values of its children, or the first failure.
pub open spec fn convert_children(
    frame: V8FrameView,
    children: Seq<(Seq<char>, V8Tree)>,
    path: Seq<usize>,
    effects: Effects,
) -> (Result<V8FrameView, ErrorView>, Effects)
    decreases children,
{
    if children.len() == 0 {
        (Ok(frame), effects)
    } else {
        match convert_children(frame, children.drop_last(), path, effects) {
            (Err(err), before) => (Err(err), before),
            (Ok(filled), before) => {
                let (key, child) = children.last();
                let (keyed, outcome, limits) = keyed_frame(filled, key, before.limits);
                let counted = Effects { limits, ..before };
                match outcome {
                    Err(text) => (Err(ErrorView::Internal(text)), counted),
                    Ok(_) => match convert(child, path, child_receiver(filled, child), counted) {
                        (Ok(value), after) => (Ok(frame_with(keyed, value)), after),
                        (Err(err), after) => (Err(err), after),
                    },
                }
            },
        }
    }
}

/// An object is told the key of the child, which is metered.
pub open spec fn keyed_frame(frame: V8FrameView, key: Seq<char>, limits: LimitState) -> (
    V8FrameView,
    Result<(), Seq<char>>,
    LimitState,
) {
    if frame.kind == V8Container::Object {
        let (outcome, counted) = metered(limits, byte_len(key), Ok(()));
        (V8FrameView { key, ..frame }, outcome, counted)
    } else {
        (frame, Ok(()), limits)
    }
}

/// A method of an object has the object as its receiver.
pub open spec fn child_receiver(frame: V8FrameView, child: V8Tree) -> Option<u64> {
    if frame.kind == V8Container::Object {
        receiver_of(frame, head(child))
    } else {
        None
    }
}

/// The importer asks for more.
pub open spec fn asks(step: V8StepView) -> bool {
    !(step is Done) && !(step is Failed)
}

/// The importer after a step, fed with what is read next for as long as it asks.
pub open spec fn run(at: (ImportState, V8StepView), events: Seq<V8EventView>) -> (
    ImportState,
    V8StepView,
)
    decreases events.len(),
{
    if events.len() == 0 || !asks(at.1) {
        at
    } else {
        run(advance(at.0, events[0]), events.drop_first())
    }
}

proof fn lemma_run_append(
    at: (ImportState, V8StepView),
    a: Seq<V8EventView>,
    b: Seq<V8EventView>,
)
    ensures
        run(at, a + b) == run(run(at, a), b),
    decreases a.len(),
{
    if a.len() == 0 {
        assert(a + b =~= b);
    } else if asks(at.1) {
        assert((a + b).drop_first() =~= a.drop_first() + b);
        lemma_run_append(advance(at.0, a[0]), a.drop_first(), b);
    }
}

/// The identities of the containers that are being read.
pub open spec fn path_of(frames: Seq<V8FrameView>) -> Seq<usize> {
    frames.map_values(|frame: V8FrameView| frame.identity)
}

/// No buffer is being read.
pub open spec fn no_buffer(frames: Seq<V8FrameView>) -> bool {
    forall|i: int| 0 <= i < frames.len() ==> (#[trigger] frames[i]).kind != V8Container::Buffer
}

proof fn lemma_path(frames: Seq<V8FrameView>, identity: usize)
    requires
        no_buffer(frames),
    ensures
        on_path(frames, identity) == path_of(frames).contains(identity),
{
    if on_path(frames, identity) {
        let i = choose|i: int|
            0 <= i < frames.len() && (#[trigger] frames[i]).identity == identity && frames[i].kind
                != V8Container::Buffer;
        assert(path_of(frames)[i] == identity);
    }
    if path_of(frames).contains(identity) {
        let i = choose|i: int| 0 <= i < path_of(frames).len() && path_of(frames)[i] == identity;
        assert(frames[i].identity == identity);
    }
}

/// The state and step after `value` was delivered to `frames`.
pub open spec fn delivered(frames: Seq<V8FrameView>, effects: Effects, value: JsView) -> (
    ImportState,
    V8StepView,
) {
    let (after, limits, step) = deliver(frames, effects.limits, value);
    (state_of(after, Effects { limits, ..effects }), step)
}

/// Feeding a value and everything below it to an importer gives the converted
/// value to the innermost container (or as the result), or fails as the
/// conversion does; and has the effects that the conversion has.
pub proof fn law_feeding_converts(
    frames: Seq<V8FrameView>,
    effects: Effects,
    tree: V8Tree,
    receiver: Option<u64>,
)
    requires
        well_formed(tree),
        no_buffer(frames),
    ensures
        ({
            let (result, after) = convert(tree, path_of(frames), receiver, effects);
            let end = run(accept(state_of(frames, effects), head(tree), receiver), body(tree));
            match result {
                Ok(value) => end == delivered(frames, after, value),
                Err(err) => end.1 == V8StepView::Failed(err) && effects_of(end.0) == after,
            }
        }),
    decreases tree,
{
    let entered = Effects { limits: effects.limits.entered(), ..effects };
    let start = accept(state_of(frames, effects), head(tree), receiver);
    assert(ImportState { limits: effects.limits.entered(), ..state_of(frames, effects) }
        == state_of(frames, entered));
    if entered.limits.level_refusal() is None {
        assert(start == accept_inner(state_of(frames, entered), head(tree), receiver));
        match tree {
            V8Tree::Leaf(reading) => {
                lemma_leaf(frames, entered, reading, receiver);
            },
            V8Tree::Buffer(bytes) => {
                lemma_buffer(frames, entered, bytes, receiver);
            },
            V8Tree::Node { kind, identity, slot, children } => {
                let length = children.len() as usize;
                lemma_path(frames, identity);
                lemma_open(frames, entered, kind, identity, slot, length, receiver);
                if !path_of(frames).contains(identity) {
                    let (outcome, limits) = header_metered(kind, children.len(), entered.limits);
                    if outcome is Ok && children.len() > 0 {
                        let frame = open_frame(kind, identity, slot, length);
                        let counted = Effects { limits, ..entered };
                        lemma_last_child(frames, frame, counted, children);
                    }
                }
            },
        }
    }
}

/// What a metered value amounts to does not depend on the containers it goes to.
proof fn lemma_settled(
    frames: Seq<V8FrameView>,
    effects: Effects,
    outcome: (Result<JsView, Seq<char>>, LimitState),
)
    ensures
        ({
            let alone = settled(state_of(Seq::empty(), effects), outcome);
            let end = settled(state_of(frames, effects), outcome);
            match outcome.0 {
                Ok(value) => {
                    &&& alone.1 == V8StepView::Done(value)
                    &&& end == delivered(frames, effects_of(alone.0), value)
                },
                Err(text) => {
                    &&& alone.1 == V8StepView::Failed(ErrorView::Internal(text))
                    &&& end.1 == V8StepView::Failed(ErrorView::Internal(text))
                    &&& effects_of(end.0) == effects_of(alone.0)
                },
            }
        }),
{
}

/// Accepting a value without parts passes it on or fails.
proof fn lemma_leaf(
    frames: Seq<V8FrameView>,
    entered: Effects,
    reading: V8ReadingView,
    receiver: Option<u64>,
)
    requires
        !(reading is Buffer || reading is Array || reading is JsSet || reading is Object),
    ensures
        ({
            let (result, after) = convert_leaf(reading, receiver, entered);
            let end = accept_inner(state_of(frames, entered), reading, receiver);
            match result {
                Ok(value) => end == delivered(frames, after, value),
                Err(err) => end.1 == V8StepView::Failed(err) && effects_of(end.0) == after,
            }
        }),
{
    let limits = entered.limits;
    match reading {
        V8ReadingView::Undefined => {
            lemma_settled(frames, entered, metered(limits, 0, Ok(JsView::Undefined)));
        },
        V8ReadingView::Null => {
            lemma_settled(frames, entered, metered(limits, 4, Ok(JsView::Null)));
        },
        V8ReadingView::Boolean(b) => {
            lemma_settled(frames, entered, metered(limits, 5, Ok(JsView::Bool(b))));
        },
        V8ReadingView::Number(bits) => {
            let value = number_value(bits);
            let bytes: nat = if value is Int {
                20
            } else {
                24
            };
            lemma_settled(frames, entered, metered(limits, bytes, Ok(value)));
        },
        V8ReadingView::BigInt(value, lossless, text) => {
            if lossless {
                lemma_settled(frames, entered, metered(limits, 20, Ok(JsView::Int(value))));
            } else if let Some(t) = text {
                if let Some(i) = parse_decimal(t) {
                    lemma_settled(
                        frames,
                        entered,
                        metered(limits, byte_len(t), Ok(JsView::BigInt(i))),
                    );
                }
            }
        },
        V8ReadingView::Text(t) => {
            lemma_settled(frames, entered, metered(limits, byte_len(t), Ok(JsView::String(t))));
        },
        V8ReadingView::Function(slot) => {
            let stored = Effects {
                functions: entered.functions.with(StoredFunction { function: slot, receiver }),
                ..entered
            };
            let value = JsView::Function(entered.functions.next_id);
            assert(state_of(frames, stored) == (ImportState {
                functions: stored.functions,
                ..state_of(frames, entered)
            }));
            lemma_settled(frames, stored, metered(limits, 8, Ok(value)));
        },
        V8ReadingView::Date(bits) => {
            let ms = clamp((Double { bits }).rounded(), i64::MIN as int, i64::MAX as int) as i64;
            lemma_settled(frames, entered, metered(limits, 16, Ok(JsView::Date(ms))));
        },
        V8ReadingView::Stream(slot) => {
            let registered = Effects { streams: entered.streams.registered(slot), ..entered };
            let value = JsView::JsStream(entered.streams.next_id);
            assert(state_of(frames, registered) == (ImportState {
                streams: registered.streams,
                ..state_of(frames, entered)
            }));
            lemma_settled(frames, registered, metered(limits, 4, Ok(value)));
        },
        V8ReadingView::Other(Some(t)) => {
            lemma_settled(frames, entered, metered(limits, byte_len(t), Ok(JsView::String(t))));
        },
        _ => {},
    }
}

/// A buffer is metered, then its bytes are read and passed on.
proof fn lemma_buffer(
    frames: Seq<V8FrameView>,
    entered: Effects,
    bytes: Seq<u8>,
    receiver: Option<u64>,
)
    requires
        bytes.len() <= usize::MAX,
    ensures
        ({
            let tree = V8Tree::Buffer(bytes);
            let end = run(accept_inner(state_of(frames, entered), head(tree), receiver), body(tree));
            match metered(entered.limits, bytes.len(), Ok::<(), Seq<char>>(())) {
                (Ok(_), limits) => end == delivered(
                    frames,
                    Effects { limits: limits.exited(), ..entered },
                    JsView::Bytes(bytes),
                ),
                (Err(text), limits) => end.1 == V8StepView::Failed(ErrorView::Internal(text))
                    && effects_of(end.0) == (Effects { limits, ..entered }),
            }
        }),
{
    let tree = V8Tree::Buffer(bytes);
    let start = accept_inner(state_of(frames, entered), head(tree), receiver);
    if asks(start.1) {
        assert(body(tree).drop_first() =~= Seq::empty());
        reveal_with_fuel(run, 2);
        assert(start.0.frames.drop_last() =~= frames);
    }
}

/// A container is refused, complete at once, or opened.
proof fn lemma_open(
    frames: Seq<V8FrameView>,
    entered: Effects,
    kind: V8Container,
    identity: usize,
    slot: u64,
    length: usize,
    receiver: Option<u64>,
)
    requires
        kind != V8Container::Buffer,
        kind != V8Container::Object ==> slot == 0,
    ensures
        ({
            let reading = match kind {
                V8Container::Array => V8ReadingView::Array(identity, length),
                V8Container::JsSet => V8ReadingView::JsSet(identity, length),
                _ => V8ReadingView::Object(identity, slot, Some(length)),
            };
            let end = accept_inner(state_of(frames, entered), reading, receiver);
            let frame = open_frame(kind, identity, slot, length);
            if on_path(frames, identity) {
                &&& end.1 == V8StepView::Failed(
                    ErrorView::Internal("Cannot serialize circular reference"@),
                )
                &&& effects_of(end.0) == entered
            } else {
                let (outcome, limits) = header_metered(kind, length as nat, entered.limits);
                let counted = Effects { limits, ..entered };
                match outcome {
                    Err(text) => end.1 == V8StepView::Failed(ErrorView::Internal(text))
                        && effects_of(end.0) == counted,
                    Ok(_) => if length == 0 {
                        end == delivered(
                            frames,
                            Effects { limits: limits.exited(), ..entered },
                            frame_value(frame),
                        )
                    } else {
                        end == (state_of(frames.push(frame), counted), next_read(frame))
                    },
                }
            }
        }),
{
}

/// Feeding all children of a container completes it.
proof fn lemma_last_child(
    frames: Seq<V8FrameView>,
    frame: V8FrameView,
    effects: Effects,
    children: Seq<(Seq<char>, V8Tree)>,
)
    requires
        no_buffer(frames),
        frame.kind != V8Container::Buffer,
        frame.read == 0,
        frame.length == children.len(),
        children.len() > 0,
        all_well_formed(children),
    ensures
        ({
            let path = path_of(frames).push(frame.identity);
            let (result, after) = convert_children(frame, children, path, effects);
            let end = run(
                (state_of(frames.push(frame), effects), next_read(frame)),
                child_events(frame.kind, children),
            );
            match result {
                Ok(filled) => end == delivered(
                    frames,
                    Effects { limits: after.limits.exited(), ..after },
                    frame_value(filled),
                ),
                Err(err) => end.1 == V8StepView::Failed(err) && effects_of(end.0) == after,
            }
        }),
    decreases children, 1int,
{
    lemma_children(frames, frame, effects, children.drop_last());
    lemma_one_child(frames, frame, effects, children);
    let path = path_of(frames).push(frame.identity);
    let (result, after) = convert_children(frame, children, path, effects);
    if let Ok(filled) = result {
        let (_, child) = children.last();
        let before = convert_children(frame, children.drop_last(), path, effects).0->Ok_0;
        let keyed = keyed_frame(before, children.last().0, after.limits).0;
        let inner = frames.push(keyed);
        assert(inner.drop_last() =~= frames);
    }
}

/// One more child is fed after the others: its value goes to the container.
proof fn lemma_one_child(
    frames: Seq<V8FrameView>,
    frame: V8FrameView,
    effects: Effects,
    children: Seq<(Seq<char>, V8Tree)>,
)
    requires
        no_buffer(frames),
        frame.kind != V8Container::Buffer,
        frame.read == 0,
        children.len() > 0,
        children.len() <= frame.length,
        all_well_formed(children),
        ({
            let path = path_of(frames).push(frame.identity);
            let (result, after) = convert_children(frame, children.drop_last(), path, effects);
            let end = run(
                (state_of(frames.push(frame), effects), next_read(frame)),
                child_events(frame.kind, children.drop_last()),
            );
            match result {
                Ok(filled) => end == (state_of(frames.push(filled), after), next_read(filled))
                    && same_container(frame, filled) && filled.read == children.len() - 1,
                Err(err) => end.1 == V8StepView::Failed(err) && effects_of(end.0) == after,
            }
        }),
    ensures
        ({
            let path = path_of(frames).push(frame.identity);
            let (result, after) = convert_children(frame, children, path, effects);
            let end = run(
                (state_of(frames.push(frame), effects), next_read(frame)),
                child_events(frame.kind, children),
            );
            match result {
                Ok(filled) => {
                    &&& same_container(frame, filled)
                    &&& filled.read == children.len()
                    &&& end == if filled.read >= filled.length {
                        delivered(
                            frames,
                            Effects { limits: after.limits.exited(), ..after },
                            frame_value(filled),
                        )
                    } else {
                        (state_of(frames.push(filled), after), next_read(filled))
                    }
                },
                Err(err) => end.1 == V8StepView::Failed(err) && effects_of(end.0) == after,
            }
        }),
    decreases children, 0int,
{
    let kind = frame.kind;
    let path = path_of(frames).push(frame.identity);
    let rest = children.drop_last();
    let (key, child) = children.last();
    let start = (state_of(frames.push(frame), effects), next_read(frame));
    let event = child_event(kind, key, child);
    let before = run(start, child_events(kind, rest));
    lemma_run_append(start, child_events(kind, rest).push(event), body(child));
    lemma_run_append(start, child_events(kind, rest), seq![event]);
    assert(child_events(kind, rest).push(event) =~= child_events(kind, rest) + seq![event]);
    assert(seq![event].drop_first() =~= Seq::empty());
    reveal_with_fuel(run, 2);
    match convert_children(frame, rest, path, effects) {
        (Err(_), _) => {},
        (Ok(filled), e) => {
            assert(before == (state_of(frames.push(filled), e), next_read(filled)));
            assert(asks(before.1));
            let stepped = advance(before.0, event);
            assert(run(before, seq![event]) == stepped);
            let (keyed, outcome, limits) = keyed_frame(filled, key, e.limits);
            let counted = Effects { limits, ..e };
            assert(frames.push(filled).drop_last() =~= frames);
            if outcome is Ok {
                let inner = frames.push(keyed);
                assert(state_of(inner, counted).frames == inner);
                assert(stepped == accept(
                    state_of(inner, counted),
                    head(child),
                    child_receiver(filled, child),
                ));
                assert(path_of(inner) =~= path);
                assert(no_buffer(inner));
                law_feeding_converts(inner, counted, child, child_receiver(filled, child));
                assert(inner.drop_last() =~= frames);
            }
        },
    }
}

/// Nothing but what was read differs.
pub open spec fn same_container(a: V8FrameView, b: V8FrameView) -> bool {
    a.kind == b.kind && a.identity == b.identity && a.slot == b.slot && a.length == b.length
}

/// Feeding children that do not complete the container fills it.
proof fn lemma_children(
    frames: Seq<V8FrameView>,
    frame: V8FrameView,
    effects: Effects,
    children: Seq<(Seq<char>, V8Tree)>,
)
    requires
        no_buffer(frames),
        frame.kind != V8Container::Buffer,
        frame.read == 0,
        children.len() < frame.length,
        all_well_formed(children),
    ensures
        ({
            let path = path_of(frames).push(frame.identity);
            let (result, after) = convert_children(frame, children, path, effects);
            let end = run(
                (state_of(frames.push(frame), effects), next_read(frame)),
                child_events(frame.kind, children),
            );
            match result {
                Ok(filled) => end == (state_of(frames.push(filled), after), next_read(filled))
                    && same_container(frame, filled) && filled.read == children.len(),
                Err(err) => end.1 == V8StepView::Failed(err) && effects_of(end.0) == after,
            }
        }),
    decreases children, 1int,
{
    if children.len() > 0 {
        lemma_children(frames, frame, effects, children.drop_last());
        lemma_one_child(frames, frame, effects, children);
    } else {
        reveal_with_fuel(run, 2);
    }
}

/// Converting one value under fresh limits: the importer, fed with what is read of
/// the value and of everything below it, ends with the converted value or with the
/// failure of the conversion.
pub proof fn law_import_of_one_value(tree: V8Tree, effects: Effects)
    requires
        well_formed(tree),
    ensures
        run(accept(state_of(Seq::empty(), effects), head(tree), None), body(tree)).1
            == match convert(tree, Seq::empty(), None, effects).0 {
            Ok(value) => V8StepView::Done(value),
            Err(err) => V8StepView::Failed(err),
        },
{
    let frames = Seq::<V8FrameView>::empty();
    assert(path_of(frames) =~= Seq::empty());
    law_feeding_converts(frames, effects, tree, None);
}

} // verus!
