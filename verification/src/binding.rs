//! Binding Python objects (values and ops) to the JavaScript global namespace.

use crate::core_state::{CoreView, RuntimeCoreState};
use crate::double::{double_from_u64, nearest_bits};
use crate::error::{unit_view, ErrorView, JsExceptionDetails, RuntimeError, RuntimeResult};
use crate::js_value::{
    lemma_position, lemma_view, lemma_views_push, views, JSValue, JsView, ObjectMap,
};
use crate::ops::{OpToken, OpsView, PythonOpMode};
use vstd::prelude::*;

verus! {

broadcast use {lemma_view, lemma_views_push};

/// A property assignment when binding Python objects into the JS global namespace.
#[derive(Debug)]
pub enum BoundObjectProperty {
    Value { key: String, value: JSValue },
    Op { key: String, op_id: OpToken, mode: PythonOpMode },
}

#[verifier::ext_equal]
pub enum PropertyView {
    Value(Seq<char>, JsView),
    Op(Seq<char>, u64, PythonOpMode),
}

impl BoundObjectProperty {
    pub open spec fn view(self) -> PropertyView {
        match self {
            BoundObjectProperty::Value { key, value } => PropertyView::Value(key@, value.view()),
            BoundObjectProperty::Op { key, op_id, mode } => PropertyView::Op(key@, op_id, mode),
        }
    }
}

pub open spec fn property_views(properties: Seq<BoundObjectProperty>) -> Seq<PropertyView> {
    properties.map_values(|property: BoundObjectProperty| property.view())
}

/// How an op mode is named to the bridge.
pub open spec fn mode_name(mode: PythonOpMode) -> Seq<char> {
    match mode {
        PythonOpMode::Async => "async"@,
        PythonOpMode::Sync => "sync"@,
    }
}

/// The object that tells the bridge of one assignment.
pub open spec fn assignment(property: PropertyView) -> JsView {
    match property {
        PropertyView::Value(key, value) => JsView::Object(
            seq![
                ("key"@, JsView::String(key)),
                ("kind"@, JsView::String("value"@)),
                ("value"@, value),
            ],
        ),
        PropertyView::Op(key, op_id, mode) => JsView::Object(
            seq![
                ("key"@, JsView::String(key)),
                ("kind"@, JsView::String("op"@)),
                ("op_id"@, JsView::Float(nearest_bits(op_id as nat) as u64)),
                ("mode"@, JsView::String(mode_name(mode))),
            ],
        ),
    }
}

/// The tokens among the properties, in order.
pub open spec fn bound_tokens(properties: Seq<PropertyView>) -> Seq<u64>
    decreases properties.len(),
{
    if properties.len() == 0 {
        Seq::empty()
    } else {
        match properties.last() {
            PropertyView::Op(_, op_id, _) => bound_tokens(properties.drop_last()).push(op_id),
            PropertyView::Value(_, _) => bound_tokens(properties.drop_last()),
        }
    }
}

/// The registry after the tokens were exposed in order.
pub open spec fn all_exposed(registry: OpsView, tokens: Seq<u64>) -> OpsView
    decreases tokens.len(),
{
    if tokens.len() == 0 {
        registry
    } else {
        all_exposed(registry, tokens.drop_last()).exposing(tokens.last())
    }
}

proof fn lemma_names_differ()
    ensures
        "key"@ != "kind"@,
        "key"@ != "value"@,
        "key"@ != "op_id"@,
        "key"@ != "mode"@,
        "kind"@ != "value"@,
        "kind"@ != "op_id"@,
        "kind"@ != "mode"@,
        "op_id"@ != "mode"@,
{
    reveal_strlit("key");
    reveal_strlit("kind");
    reveal_strlit("value");
    reveal_strlit("op_id");
    reveal_strlit("mode");
    assert("key"@.len() == 3);
    assert("kind"@.len() == 4);
    assert("value"@.len() == 5);
    assert("op_id"@.len() == 5);
    assert("mode"@.len() == 4);
    assert("kind"@[0] != "mode"@[0]);
}

/// Inserts a key that is not there yet: it goes to the end.
fn append(map: &mut ObjectMap, key: &str, value: JSValue)
    requires
        forall|i: int| 0 <= i < old(map)@.len() ==> (#[trigger] old(map)@[i]).0 != key@,
    ensures
        final(map)@ == old(map)@.push((key@, value.view())),
{
    proof {
        lemma_position(map@, key@);
        if crate::js_value::position(map@, key@) is Some {
            let i = crate::js_value::position(map@, key@)->0;
            assert(map@[i].0 != key@);
        }
    }
    map.insert(key.to_owned(), value);
}

fn text_value(text: &str) -> (value: JSValue)
    ensures
        value.view() == JsView::String(text@),
{
    JSValue::String(text.to_owned())
}

fn assignment_value(property: BoundObjectProperty) -> (r: (JSValue, Option<OpToken>))
    ensures
        r.0.view() == assignment(property.view()),
        r.1 == match property.view() {
            PropertyView::Op(_, op_id, _) => Some(op_id),
            PropertyView::Value(_, _) => None,
        },
{
    proof {
        lemma_names_differ();
    }
    let ghost whole = assignment(property.view())->Object_0;
    let mut map = ObjectMap::new();
    match property {
        BoundObjectProperty::Value { key, value } => {
            append(&mut map, "key", JSValue::String(key));
            append(&mut map, "kind", text_value("value"));
            append(&mut map, "value", value);
            assert(map@ =~= whole);
            (JSValue::Object(map), None)
        },
        BoundObjectProperty::Op { key, op_id, mode } => {
            let name: &str = match mode {
                PythonOpMode::Async => "async",
                PythonOpMode::Sync => "sync",
            };
            append(&mut map, "key", JSValue::String(key));
            append(&mut map, "kind", text_value("op"));
            append(&mut map, "op_id", JSValue::Float(double_from_u64(op_id)));
            append(&mut map, "mode", text_value(name));
            assert(map@ =~= whole);
            (JSValue::Object(map), Some(op_id))
        },
    }
}

/// What binding an object hands to the bridge, and the tokens to be exposed once the
/// bridge installed them.
pub fn bind_assignments(properties: Vec<BoundObjectProperty>) -> (r: (JSValue, Vec<OpToken>))
    ensures
        r.0.view() == JsView::Array(
            property_views(properties@).map_values(|p: PropertyView| assignment(p)),
        ),
        r.1@ == bound_tokens(property_views(properties@)),
{
    let ghost all = property_views(properties@);
    let mut rest: Vec<BoundObjectProperty> = properties;
    let ghost given = rest@;
    let mut reversed: Vec<BoundObjectProperty> = Vec::new();
    while rest.len() > 0
        invariant
            rest@ == given.take(rest@.len() as int),
            rest@.len() + reversed@.len() == given.len(),
            forall|k: int|
                0 <= k < reversed@.len() ==> #[trigger] reversed@[k] == given[given.len() - 1 - k],
        decreases rest@.len(),
    {
        if let Some(property) = rest.pop() {
            reversed.push(property);
            assert(rest@ =~= given.take(rest@.len() as int));
        }
    }
    let ghost backwards = reversed@;
    let mut assignments: Vec<JSValue> = Vec::new();
    let mut tokens: Vec<OpToken> = Vec::new();
    assert(all.take(0) =~= Seq::empty());
    assert(views(assignments@) =~= all.take(0).map_values(|p: PropertyView| assignment(p)));
    assert(tokens@ =~= Seq::empty());
    while reversed.len() > 0
        invariant
            all == property_views(given),
            backwards.len() == given.len(),
            reversed@ == backwards.take(reversed@.len() as int),
            assignments@.len() + reversed@.len() == given.len(),
            forall|k: int|
                0 <= k < backwards.len() ==> #[trigger] backwards[k] == given[given.len() - 1 - k],
            views(assignments@) == all.take(assignments@.len() as int).map_values(
                |p: PropertyView| assignment(p),
            ),
            tokens@ == bound_tokens(all.take(assignments@.len() as int)),
        decreases reversed@.len(),
    {
        let ghost i = assignments@.len() as int;
        if let Some(property) = reversed.pop() {
            assert(property == backwards[given.len() - 1 - i]);
            assert(property == given[i]);
            assert(all[i] == property.view());
            assert(reversed@ =~= backwards.take(reversed@.len() as int));
            assert(all.take(i + 1).drop_last() =~= all.take(i));
            let (value, token): (JSValue, Option<OpToken>) = assignment_value(property);
            let ghost before = assignments@;
            assignments.push(value);
            if let Some(op_id) = token {
                tokens.push(op_id);
            }
            assert(views(assignments@) =~= all.take(i + 1).map_values(
                |p: PropertyView| assignment(p),
            ));
        }
    }
    assert(all.take(assignments@.len() as int) =~= all);
    (JSValue::Array(assignments), tokens)
}

/// What came of asking the bridge to install the assignments.
#[derive(Debug)]
pub enum BindOutcome {
    /// The binding is installed in the guest's scope.
    Installed,
    /// The bridge threw.
    Threw(JsExceptionDetails),
    /// The bridge failed without an exception.
    NoException,
    /// The bridge could not be asked.
    NotAsked(RuntimeError),
}

/// The result of a binding that ended this way.
pub open spec fn bind_result(outcome: BindOutcome) -> Result<(), ErrorView> {
    match outcome {
        BindOutcome::Installed => Ok(()),
        BindOutcome::Threw(details) => Err(ErrorView::JavaScript(details@)),
        BindOutcome::NoException => Err(
            ErrorView::Internal("__pydeno_bind_object invocation failed"@),
        ),
        BindOutcome::NotAsked(err) => Err(err@),
    }
}

impl RuntimeCoreState {
    /// Ends a binding: the ops are exposed only once the binding is installed, so
    /// that a bridge that threw leaves the handlers registered but unreachable.
    pub fn finish_bind(&mut self, tokens: &Vec<OpToken>, outcome: BindOutcome) -> (result:
        RuntimeResult<()>)
        ensures
            unit_view(result) == bind_result(outcome),
            final(self)@ == if outcome is Installed {
                CoreView { ops: all_exposed(old(self)@.ops, tokens@), ..old(self)@ }
            } else {
                old(self)@
            },
    {
        match outcome {
            BindOutcome::Installed => {
                let ghost before = self@;
                let mut i: usize = 0;
                assert(tokens@.take(0) =~= Seq::empty());
                while i < tokens.len()
                    invariant
                        i <= tokens@.len(),
                        self@ == (CoreView {
                            ops: all_exposed(before.ops, tokens@.take(i as int)),
                            ..before
                        }),
                    decreases tokens@.len() - i,
                {
                    assert(tokens@.take(i + 1).drop_last() =~= tokens@.take(i as int));
                    let _ = self.expose_op(tokens[i]);
                    i = i + 1;
                }
                assert(tokens@.take(i as int) =~= tokens@);
                Ok(())
            },
            BindOutcome::Threw(details) => Err(RuntimeError::javascript(details)),
            BindOutcome::NoException => Err(
                RuntimeError::internal_text("__pydeno_bind_object invocation failed"),
            ),
            BindOutcome::NotAsked(err) => Err(err),
        }
    }
}

/// An installed binding exposes each of its ops that is registered, and changes what
/// no other token reaches.
pub proof fn law_installed_binding_exposes_its_ops(
    registry: OpsView,
    tokens: Seq<u64>,
    id: u64,
)
    ensures
        all_exposed(registry, tokens).handlers == registry.handlers,
        tokens.contains(id) && registry.handlers.contains_key(id) ==> all_exposed(
            registry,
            tokens,
        ).dispatched(id) == Some(registry.handlers[id]),
        !tokens.contains(id) ==> all_exposed(registry, tokens).dispatched(id)
            == registry.dispatched(id),
    decreases tokens.len(),
{
    if tokens.len() > 0 {
        let rest = tokens.drop_last();
        law_installed_binding_exposes_its_ops(registry, rest, id);
        if tokens.contains(id) {
            let i = choose|i: int| 0 <= i < tokens.len() && tokens[i] == id;
            if i < rest.len() {
                assert(rest[i] == id);
            }
        } else {
            assert(!rest.contains(id)) by {
                if rest.contains(id) {
                    let i = choose|i: int| 0 <= i < rest.len() && rest[i] == id;
                    assert(tokens[i] == id);
                }
            }
            assert(tokens[tokens.len() - 1] != id);
        }
    }
}

} // verus!
