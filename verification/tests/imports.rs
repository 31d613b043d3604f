use pydeno::double::Double;
use pydeno::functions::{FunctionTable, StoredFunction};
use pydeno::bigint::JsBigInt;
use pydeno::conversion::{js_value_to_python, PyValue};
use pydeno::js_value::{JSValue, ObjectMap};
use pydeno::limits::{LimitTracker, SerializationLimits};
use pydeno::ops::{convert_arguments, convert_arguments_told};
use pydeno::proxies::{JsFunction, PyStreamSource};
use pydeno::py_import::{
    probe_at, ArgumentReader, ArgumentStep, PyContainer, PyEvent, PyImporter, PyProbe, PyReading, PyStep,
};
use pydeno::stream::JsStreamRegistry;
use pydeno::v8_export::{call_stored, to_v8, V8Plan};
use pydeno::v8_import::{
    classify, V8Container, V8Event, V8Importer, V8Kind, V8Reading, V8Step, V8Traits,
};
use pydeno::error::RuntimeError;

fn float(value: f64) -> Double {
    Double { bits: value.to_bits() }
}

fn list(identity: usize, len: usize) -> PyReading {
    PyReading::Container { kind: PyContainer::List, identity, len }
}

#[test]
fn python_containers_are_read_item_by_item() {
    let mut tracker = LimitTracker::new(10, 1000);
    let mut importer = PyImporter::new();
    let dict = PyReading::Container { kind: PyContainer::Dict, identity: 1, len: 2 };
    assert!(matches!(importer.accept(&mut tracker, dict), PyStep::More));
    assert_eq!(importer.depth(), 1);
    let first = PyEvent::Entry { key: "a".to_string(), value: PyReading::Int(5) };
    assert!(matches!(importer.feed(&mut tracker, first), PyStep::More));
    let second = PyEvent::Entry { key: "b".to_string(), value: list(2, 1) };
    assert!(matches!(importer.feed(&mut tracker, second), PyStep::More));
    let item = PyEvent::Item(PyReading::Str("x".to_string()));
    assert!(matches!(importer.feed(&mut tracker, item), PyStep::More));
    assert!(matches!(importer.feed(&mut tracker, PyEvent::End), PyStep::More));
    match importer.feed(&mut tracker, PyEvent::End) {
        PyStep::Done(JSValue::Object(map)) => {
            assert!(matches!(map.get("a"), Some(JSValue::Int(5))));
            match map.get("b") {
                Some(JSValue::Array(items)) => {
                    assert!(matches!(&items[0], JSValue::String(s) if s == "x"))
                }
                other => panic!("unexpected {:?}", other),
            }
        }
        other => panic!("unexpected {:?}", other),
    }
}

#[test]
fn circular_references_are_found() {
    let mut tracker = LimitTracker::new(10, 1000);
    let mut importer = PyImporter::new();
    assert!(matches!(importer.accept(&mut tracker, list(7, 1)), PyStep::More));
    match importer.feed(&mut tracker, PyEvent::Item(list(7, 1))) {
        PyStep::Failed(text) => {
            assert_eq!(text, "Circular reference detected while converting Python list")
        }
        other => panic!("unexpected {:?}", other),
    }
}

#[test]
fn a_container_may_come_twice_side_by_side() {
    let mut tracker = LimitTracker::new(10, 1000);
    let mut importer = PyImporter::new();
    assert!(matches!(importer.accept(&mut tracker, list(1, 2)), PyStep::More));
    for _ in 0..2 {
        assert!(matches!(importer.feed(&mut tracker, PyEvent::Item(list(2, 0))), PyStep::More));
        assert!(matches!(importer.feed(&mut tracker, PyEvent::End), PyStep::More));
    }
    assert!(matches!(
        importer.feed(&mut tracker, PyEvent::End),
        PyStep::Done(JSValue::Array(items)) if items.len() == 2
    ));
}

#[test]
fn datetimes_are_rounded_to_milliseconds() {
    let mut tracker = LimitTracker::new(10, 1000);
    let reading = PyReading::DateTime { timestamp: float(1.0005), epoch_ms: float(1000.5) };
    assert!(matches!(
        PyImporter::new().accept(&mut tracker, reading),
        PyStep::Done(JSValue::Date(1001))
    ));
    let bad = PyReading::DateTime { timestamp: float(f64::NAN), epoch_ms: float(0.0) };
    match PyImporter::new().accept(&mut tracker, bad) {
        PyStep::Failed(text) => assert_eq!(text, "datetime.timestamp returned non-finite value"),
        other => panic!("unexpected {:?}", other),
    }
    let far = PyReading::DateTime { timestamp: float(1e300), epoch_ms: float(1e303) };
    match PyImporter::new().accept(&mut tracker, far) {
        PyStep::Failed(text) => {
            assert_eq!(text, "Datetime value out of range for JavaScript Date")
        }
        other => panic!("unexpected {:?}", other),
    }
}

#[test]
fn proxies_are_handed_over_by_id() {
    let mut tracker = LimitTracker::new(10, 1000);
    let limits = SerializationLimits::new(1, 1);
    let open = JsFunction { fn_id: 4, closed: false, attached: true, serialization_limits: limits };
    assert!(matches!(
        PyImporter::new().accept(&mut tracker, PyReading::Function(open, false)),
        PyStep::Done(JSValue::Function { id: 4 })
    ));
    match PyImporter::new().accept(&mut tracker, PyReading::Function(open, true)) {
        PyStep::Failed(text) => assert_eq!(text, "Runtime has been shut down"),
        other => panic!("unexpected {:?}", other),
    }
    let source = PyStreamSource { stream_id: 6, closed: true, attached: false };
    match PyImporter::new().accept(&mut tracker, PyReading::StreamSource(source)) {
        PyStep::Failed(text) => assert_eq!(text, "Stream has been closed"),
        other => panic!("unexpected {:?}", other),
    }
    match PyImporter::new().accept(&mut tracker, PyReading::Unsupported) {
        PyStep::Failed(text) => {
            assert_eq!(text, "Unsupported Python type for JSValue conversion")
        }
        other => panic!("unexpected {:?}", other),
    }
}

#[test]
fn arguments_share_one_budget() {
    let limits = SerializationLimits::new(10, 20);
    let mut reader = ArgumentReader::new(&limits);
    assert!(matches!(reader.accept(PyReading::Int(1)), ArgumentStep::Complete));
    assert!(matches!(reader.accept(list(1, 0)), ArgumentStep::Failed(_)));
    let mut again = ArgumentReader::new(&limits);
    assert!(matches!(again.accept(list(1, 0)), ArgumentStep::More));
    assert_eq!(again.depth(), 1);
    assert!(matches!(again.feed(PyEvent::End), ArgumentStep::Complete));
    assert!(matches!(again.accept(PyReading::NoneValue), ArgumentStep::Complete));
    assert!(matches!(again.accept(PyReading::Bool(true)), ArgumentStep::Failed(_)));
    let args = again.finish();
    assert_eq!(args.len(), 2);
    assert!(matches!(args[1], JSValue::Null));
}

#[test]
fn op_arguments_share_one_budget() {
    let args = vec![JSValue::Int(1), JSValue::Int(2)];
    assert!(convert_arguments(&args, &SerializationLimits::new(5, 16), true, &|| None).is_ok());
    assert!(convert_arguments(&args, &SerializationLimits::new(5, 15), true, &|| None).is_err());
}

#[test]
fn op_arguments_need_stack() {
    let args = vec![JSValue::Int(1), JSValue::Array(vec![JSValue::Int(2)])];
    let limits = SerializationLimits::new(5, 1000);
    assert!(convert_arguments_told(&args, &limits, true, Some(655_360)).is_ok());
    assert!(convert_arguments_told(&args, &limits, true, Some(655_361)).is_err());
    let asked = std::cell::Cell::new(0usize);
    let growing = || {
        asked.set(asked.get() + 1);
        Some(if asked.get() < 3 { 10 } else { 700_000 })
    };
    let refused = convert_arguments(&args, &limits, true, &growing).unwrap_err();
    assert!(refused.starts_with("stack headroom exhausted at depth 2: 700000 bytes used"));
}

#[test]
fn values_of_the_engine_are_read() {
    let mut tracker = LimitTracker::new(10, 1000);
    let mut functions = FunctionTable::new();
    let mut streams = JsStreamRegistry::new();
    let mut importer = V8Importer::new();
    let start = importer.accept(
        &mut tracker,
        &mut functions,
        &mut streams,
        V8Reading::Object { identity: 1, slot: 40, properties: Some(2) },
        None,
    );
    assert!(matches!(start, V8Step::ReadProperty { index: 0 }));
    assert_eq!(importer.innermost(), Some(V8Container::Object));
    let next = importer.feed(
        &mut tracker,
        &mut functions,
        &mut streams,
        V8Event::Property { key: "n".to_string(), value: V8Reading::Number(float(2.0)) },
    );
    assert!(matches!(next, V8Step::ReadProperty { index: 1 }));
    let done = importer.feed(
        &mut tracker,
        &mut functions,
        &mut streams,
        V8Event::Property { key: "f".to_string(), value: V8Reading::Function { slot: 41 } },
    );
    match done {
        V8Step::Done(JSValue::Object(map)) => {
            assert!(matches!(map.get("n"), Some(JSValue::Int(2))));
            assert!(matches!(map.get("f"), Some(JSValue::Function { id: 0 })));
        }
        other => panic!("unexpected {:?}", other),
    }
    assert_eq!(functions.get(0), Some(StoredFunction { function: 41, receiver: Some(40) }));
}

#[test]
fn numbers_of_the_engine_are_integers_where_they_can_be() {
    let mut tracker = LimitTracker::new(10, 1000);
    let mut functions = FunctionTable::new();
    let mut streams = JsStreamRegistry::new();
    let mut read = |reading: V8Reading| {
        V8Importer::new().accept(&mut tracker, &mut functions, &mut streams, reading, None)
    };
    assert!(matches!(read(V8Reading::Number(float(-3.0))), V8Step::Done(JSValue::Int(-3))));
    assert!(matches!(read(V8Reading::Number(float(0.5))), V8Step::Done(JSValue::Float(_))));
    assert!(matches!(read(V8Reading::Number(float(1e300))), V8Step::Done(JSValue::Float(_))));
    for whole in [9223372036854775808.0f64, -0.0] {
        match read(V8Reading::Number(float(whole))) {
            V8Step::Done(JSValue::Float(d)) => assert_eq!(d.bits, whole.to_bits()),
            other => panic!("unexpected {:?}", other),
        }
    }
    let least = V8Reading::Number(float(-9223372036854775808.0));
    assert!(matches!(read(least), V8Step::Done(JSValue::Int(i64::MIN))));
    let most = V8Reading::Number(float(9223372036854774784.0));
    assert!(matches!(read(most), V8Step::Done(JSValue::Int(9223372036854774784))));
    assert!(matches!(read(V8Reading::Number(float(0.0))), V8Step::Done(JSValue::Int(0))));
    let small = V8Reading::BigInt { value: 9, lossless: true, text: None };
    assert!(matches!(read(small), V8Step::Done(JSValue::Int(9))));
    let big = V8Reading::BigInt {
        value: 0,
        lossless: false,
        text: Some("36893488147419103232".to_string()),
    };
    match read(big) {
        V8Step::Done(JSValue::BigInt(i)) => assert_eq!(i.to_decimal(), "36893488147419103232"),
        other => panic!("unexpected {:?}", other),
    }
    match read(V8Reading::Symbol) {
        V8Step::Failed(RuntimeError::Internal { context }) => {
            assert_eq!(context, "Cannot serialize V8 symbol")
        }
        other => panic!("unexpected {:?}", other),
    }
}

#[test]
fn values_are_planned_for_the_engine() {
    let mut functions = FunctionTable::new();
    let id = functions.store(77, None);
    let value = JSValue::Array(vec![JSValue::Function { id }, JSValue::Int(1), JSValue::Date(3)]);
    match to_v8(&value, &functions).unwrap() {
        V8Plan::Array(items) => {
            assert!(matches!(items[0], V8Plan::Function { slot: 77 }));
            assert!(matches!(items[1], V8Plan::Number(d) if d.bits == 1f64.to_bits()));
            assert!(matches!(items[2], V8Plan::Date(d) if d.bits == 3f64.to_bits()));
        }
        other => panic!("unexpected {:?}", other),
    }
    match to_v8(&JSValue::Function { id: 9 }, &functions) {
        Err(RuntimeError::Internal { context }) => {
            assert_eq!(context, "Function ID 9 not found in args")
        }
        other => panic!("unexpected {:?}", other),
    }
    let plan = call_stored(&functions, id, &vec![JSValue::Null]).unwrap();
    assert_eq!(plan.stored.function, 77);
    assert_eq!(plan.args.len(), 1);
    assert!(call_stored(&functions, 5, &vec![]).is_err());
}

#[test]
fn released_functions_are_gone() {
    let mut functions = FunctionTable::new();
    let first = functions.store(1, None);
    let second = functions.store(2, Some(3));
    assert!(functions.remove(first));
    assert!(!functions.remove(first));
    assert_eq!(functions.get(first), None);
    assert_eq!(functions.get(second), Some(StoredFunction { function: 2, receiver: Some(3) }));
    assert_eq!(functions.len(), 1);
    functions.clear();
    assert_eq!(functions.len(), 0);
}

#[test]
fn values_are_read_as_the_first_thing_they_are() {
    let nothing = V8Traits {
        is_undefined: false,
        is_null: false,
        is_boolean: false,
        is_number: false,
        is_big_int: false,
        is_string: false,
        is_function: false,
        is_symbol: false,
        is_uint8_array: false,
        is_array_buffer: false,
        is_array: false,
        is_set: false,
        is_date: false,
        is_object: false,
    };
    assert_eq!(classify(nothing), V8Kind::Other);
    let object = V8Traits { is_object: true, ..nothing };
    assert_eq!(classify(object), V8Kind::Object);
    assert_eq!(classify(V8Traits { is_function: true, ..object }), V8Kind::Function);
    assert_eq!(classify(V8Traits { is_array: true, ..object }), V8Kind::Array);
    assert_eq!(classify(V8Traits { is_uint8_array: true, ..object }), V8Kind::ByteArray);
    assert_eq!(classify(V8Traits { is_null: true, ..nothing }), V8Kind::Null);
}

#[test]
fn booleans_are_tried_before_integers() {
    let mut order = Vec::new();
    let mut step = 0;
    while let Some(probe) = probe_at(step) {
        order.push(probe);
        step += 1;
    }
    assert_eq!(order.len(), 17);
    assert_eq!(order[0], PyProbe::NoneValue);
    let place = |probe: PyProbe| order.iter().position(|p| *p == probe).unwrap();
    assert!(place(PyProbe::Bool) < place(PyProbe::Int));
    assert!(place(PyProbe::Int) < place(PyProbe::BigInt));
    assert!(place(PyProbe::BigInt) < place(PyProbe::Float));
    assert_eq!(order[16], PyProbe::Function);
}

struct Engine {
    tracker: LimitTracker,
    functions: FunctionTable,
    streams: JsStreamRegistry,
    importer: V8Importer,
}

fn head(plan: &V8Plan, level: usize) -> V8Reading {
    match plan {
        V8Plan::Undefined => V8Reading::Undefined,
        V8Plan::Null => V8Reading::Null,
        V8Plan::Boolean(b) => V8Reading::Boolean(*b),
        V8Plan::BigInt { negative, words } => {
            let mut bytes = Vec::new();
            for word in words {
                bytes.extend_from_slice(&word.to_le_bytes());
            }
            let text = JsBigInt::from_bytes_le(*negative, bytes).to_decimal();
            V8Reading::BigInt { value: 0, lossless: false, text: Some(text) }
        }
        V8Plan::Number(d) => V8Reading::Number(*d),
        V8Plan::Text(s) => V8Reading::Text(s.clone()),
        V8Plan::Bytes(bytes) => V8Reading::Buffer { length: bytes.len() },
        V8Plan::Array(items) => V8Reading::Array { identity: level, length: items.len() },
        V8Plan::JsSet(items) => V8Reading::JsSet { identity: level, length: items.len() },
        V8Plan::Object(entries) => V8Reading::Object {
            identity: level,
            slot: 0,
            properties: Some(entries.len()),
        },
        V8Plan::Date(d) => V8Reading::Date(*d),
        other => panic!("unexpected {:?}", other),
    }
}

impl Engine {
    fn feed(&mut self, event: V8Event) -> V8Step {
        self.importer.feed(&mut self.tracker, &mut self.functions, &mut self.streams, event)
    }

    fn rest(&mut self, plan: &V8Plan, level: usize, step: V8Step) -> V8Step {
        let mut step = step;
        match plan {
            V8Plan::Bytes(bytes) => step = self.feed(V8Event::Bytes(bytes.clone())),
            V8Plan::Array(items) | V8Plan::JsSet(items) => {
                for item in items {
                    step = self.feed(V8Event::Element(head(item, level + 1)));
                    step = self.rest(item, level + 1, step);
                }
            }
            V8Plan::Object(entries) => {
                for (key, item) in entries {
                    let value = head(item, level + 1);
                    step = self.feed(V8Event::Property { key: key.clone(), value });
                    step = self.rest(item, level + 1, step);
                }
            }
            _ => {}
        }
        step
    }
}

#[test]
fn values_come_back_from_the_engine() {
    let mut map = ObjectMap::new();
    map.insert("n".to_string(), JSValue::Int(-9007199254740991));
    map.insert("f".to_string(), JSValue::Float(float(f64::INFINITY)));
    map.insert("h".to_string(), JSValue::Float(float(0.25)));
    map.insert("d".to_string(), JSValue::Date(1_700_000_000_123));
    let big = JsBigInt::parse("-340282366920938463463374607431768211456").unwrap();
    map.insert("b".to_string(), JSValue::BigInt(big));
    map.insert("y".to_string(), JSValue::Bytes(vec![7, 8]));
    let inner = vec![JSValue::Undefined, JSValue::String("x".to_string()), JSValue::Array(vec![])];
    map.insert("a".to_string(), JSValue::Array(inner));
    map.insert("s".to_string(), JSValue::JsSet(vec![JSValue::Bool(true), JSValue::Null]));
    let value = JSValue::Object(map);
    let mut engine = Engine {
        tracker: LimitTracker::new(10, 10_000),
        functions: FunctionTable::new(),
        streams: JsStreamRegistry::new(),
        importer: V8Importer::new(),
    };
    let plan = to_v8(&value, &engine.functions).unwrap();
    let start = engine.importer.accept(
        &mut engine.tracker,
        &mut engine.functions,
        &mut engine.streams,
        head(&plan, 0),
        None,
    );
    match engine.rest(&plan, 0, start) {
        V8Step::Done(back) => assert_eq!(format!("{:?}", back), format!("{:?}", value)),
        other => panic!("unexpected {:?}", other),
    }
}

#[test]
fn python_objects_come_back() {
    let mut tracker = LimitTracker::new(3, 1000);
    for _ in 0..2 {
        let mut importer = PyImporter::new();
        let dict = PyReading::Container { kind: PyContainer::Dict, identity: 1, len: 2 };
        importer.accept(&mut tracker, dict);
        let set = PyReading::Container { kind: PyContainer::FrozenSet, identity: 2, len: 1 };
        importer.feed(&mut tracker, PyEvent::Entry { key: "s".to_string(), value: set });
        importer.feed(&mut tracker, PyEvent::Item(PyReading::Bool(true)));
        importer.feed(&mut tracker, PyEvent::End);
        let float = PyReading::Float(float(1.0));
        importer.feed(&mut tracker, PyEvent::Entry { key: "f".to_string(), value: float });
        let value = match importer.feed(&mut tracker, PyEvent::End) {
            PyStep::Done(value) => value,
            other => panic!("unexpected {:?}", other),
        };
        match js_value_to_python(&value, false, true, &|| None).unwrap() {
            PyValue::Dict(entries) => {
                assert!(matches!(&entries[0].1, PyValue::PySet(items)
                    if matches!(items[0], PyValue::Bool(true))));
                assert!(matches!(entries[1].1, PyValue::Float(d) if d.bits == 1f64.to_bits()));
            }
            other => panic!("unexpected {:?}", other),
        }
    }
}
