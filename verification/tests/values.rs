use pydeno::bigint::JsBigInt;
use pydeno::conversion::{
    js_value_to_python, js_value_to_python_told, js_value_to_python_tracked, PyValue,
};
use pydeno::double::{
    double_from_i64, double_from_integer, double_from_large, double_from_u64, Double,
};
use pydeno::js_value::{JSValue, ObjectMap};
use pydeno::limits::{LimitTracker, STACK_HEADROOM_BYTES};
use pydeno::text::{contains, decimal_string, starts_with, str_bytes, strip_prefix};
use pydeno::time::{span_from_seconds, Duration};
use pydeno::wire::{deserialize, serialize, tag_payload_key, StreamKind, WireError, WireValue};

fn float(value: f64) -> Double {
    Double { bits: value.to_bits() }
}

fn unmeasured() -> Option<usize> {
    None
}

fn text(s: &str) -> JSValue {
    JSValue::String(s.to_string())
}

fn object(entries: Vec<(&str, JSValue)>) -> JSValue {
    let mut map = ObjectMap::new();
    for (key, value) in entries {
        map.insert(key.to_string(), value);
    }
    JSValue::Object(map)
}

#[test]
fn big_integers_are_written_and_read() {
    let big = JsBigInt::parse("-123456789012345678901234567890").unwrap();
    assert!(big.is_negative());
    assert_eq!(big.to_decimal(), "-123456789012345678901234567890");
    assert_eq!(big.magnitude_bytes(), 13);
    assert!(JsBigInt::parse("12x").is_none());
    assert!(JsBigInt::parse("").is_none());
    assert_eq!(JsBigInt::from_i64(-5).to_decimal(), "-5");
    assert_eq!(JsBigInt::from_i64(i64::MIN).to_decimal(), "-9223372036854775808");
    assert_eq!(JsBigInt::parse("0").unwrap().to_decimal(), "0");
}

#[test]
fn big_integers_have_words() {
    let big = JsBigInt::parse("18446744073709551617").unwrap();
    assert_eq!(big.words(), vec![1, 1]);
    let small = JsBigInt::from_bytes_le(true, vec![1, 2]);
    assert_eq!(small.to_decimal(), "-513");
    assert_eq!(small.words(), vec![513]);
}

#[test]
fn objects_keep_the_order_of_insertion() {
    let mut map = ObjectMap::new();
    map.insert("b".to_string(), JSValue::Int(1));
    map.insert("a".to_string(), JSValue::Int(2));
    map.insert("b".to_string(), JSValue::Int(3));
    assert_eq!(map.len(), 2);
    assert_eq!(map.key_at(0), "b");
    assert!(matches!(map.value_at(0), JSValue::Int(3)));
    assert_eq!(map.index_of("a"), Some(1));
    assert_eq!(map.index_of("c"), None);
    assert!(matches!(map.get("a"), Some(JSValue::Int(2))));
    assert!(map.get("c").is_none());
    map.insert("c".to_string(), JSValue::Null);
    assert!(matches!(map.shift_remove("a"), Some(JSValue::Int(2))));
    assert!(map.shift_remove("a").is_none());
    assert_eq!(map.key_at(0), "b");
    assert_eq!(map.key_at(1), "c");
}

#[test]
fn doubles_are_cut_and_rounded() {
    assert_eq!(float(-2.75).to_i64(), -2);
    assert_eq!(float(2.5).round_to_i64(), 3);
    assert_eq!(float(-2.5).round_to_i64(), -3);
    assert_eq!(float(1e300).to_i64(), i64::MAX);
    assert_eq!(float(-1e300).to_i64(), i64::MIN);
    assert_eq!(float(4294967296.0).to_u32(), u32::MAX);
    assert_eq!(float(-1.0).to_u32(), 0);
    assert_eq!(float(7.9).to_u32(), 7);
    assert!(float(3.0).is_integral());
    assert!(!float(3.5).is_integral());
    assert!(!float(f64::NAN).is_finite());
    assert!(float(-0.5).is_below_zero());
    assert!(!float(-0.0).is_below_zero());
}

#[test]
fn integers_become_the_nearest_double() {
    for n in [0u64, 1, 2, 3, 1023, (1 << 53) - 1] {
        assert_eq!(double_from_integer(n).bits, (n as f64).to_bits());
    }
    for n in [
        1u64 << 53,
        (1 << 53) + 1,
        (1 << 53) + 3,
        (1 << 54) + 2,
        (1 << 54) + 6,
        (1 << 63) - 1,
        1 << 63,
        u64::MAX,
        u64::MAX - 1024,
    ] {
        assert_eq!(double_from_u64(n).bits, (n as f64).to_bits());
    }
    for i in [0i64, -1, 5, i64::MIN, i64::MAX, -9007199254740993, 9007199254740993] {
        assert_eq!(double_from_i64(i).bits, (i as f64).to_bits());
    }
    for n in [1u64 << 63, (1 << 63) + 1024, (1 << 63) + 3072, u64::MAX] {
        assert_eq!(double_from_large(n).bits, (n as f64).to_bits());
    }
}

#[test]
fn spans_come_from_seconds() {
    assert_eq!(span_from_seconds(float(0.001)), Some(Duration::from_millis(1)));
    assert_eq!(span_from_seconds(float(2.0)), Some(Duration::from_secs(2)));
    assert_eq!(span_from_seconds(float(-0.0)), Some(Duration::zero()));
    assert_eq!(span_from_seconds(float(1e30)), None);
}

#[test]
fn texts_are_cut() {
    assert!(starts_with("pydeno://x", "pydeno://"));
    assert!(!starts_with("pyd", "pydeno"));
    assert_eq!(strip_prefix("pydeno://x", "pydeno://"), Some("x".to_string()));
    assert_eq!(strip_prefix("x", "y"), None);
    assert!(contains("a::b", "::"));
    assert!(!contains("a:b", "::"));
    assert_eq!(decimal_string(1200), "1200");
    assert_eq!(str_bytes("a\u{e9}\u{20ac}"), 6);
}

#[test]
fn values_are_written_and_read_back() {
    let value = object(vec![
        ("n", JSValue::Int(-4)),
        ("u", JSValue::Undefined),
        ("s", JSValue::JsSet(vec![text("x"), JSValue::Bool(true)])),
        ("d", JSValue::Date(86_400_000)),
        ("b", JSValue::BigInt(JsBigInt::parse("99999999999999999999").unwrap())),
        ("f", JSValue::Float(float(0.5))),
        ("y", JSValue::Bytes(vec![0, 255])),
        ("j", JSValue::JsStream { id: 3 }),
        ("p", JSValue::PyStream { id: 4 }),
        ("a", JSValue::Array(vec![JSValue::Null, object(vec![])])),
    ]);
    let wire = serialize(&value).unwrap();
    let back = deserialize(&wire).unwrap();
    assert_eq!(format!("{:?}", back), format!("{:?}", value));
}

#[test]
fn tagged_values_have_their_payload() {
    let wire = serialize(&JSValue::Date(5)).unwrap();
    match wire {
        WireValue::Entries(entries) => {
            assert_eq!(entries[0].0, "__pydeno_type");
            assert!(matches!(&entries[0].1, WireValue::Text(t) if t == "Date"));
            assert_eq!(entries[1].0, "epoch_ms");
            assert!(matches!(entries[1].1, WireValue::Signed(5)));
        }
        other => panic!("unexpected {:?}", other),
    }
    assert_eq!(tag_payload_key("Date"), "epoch_ms");
    assert_eq!(tag_payload_key("Set"), "values");
    assert_eq!(tag_payload_key("BigInt"), "value");
    assert_eq!(tag_payload_key("JsStream"), "id");
}

#[test]
fn large_unsigned_numbers_become_doubles() {
    assert!(matches!(deserialize(&WireValue::Unsigned(7)), Ok(JSValue::Int(7))));
    match deserialize(&WireValue::Unsigned(u64::MAX)) {
        Ok(JSValue::Float(d)) => assert_eq!(d.bits, (u64::MAX as f64).to_bits()),
        other => panic!("unexpected {:?}", other),
    }
}

fn tagged(tag: &str, key: &str, payload: WireValue) -> WireValue {
    WireValue::Entries(vec![
        ("__pydeno_type".to_string(), WireValue::Text(tag.to_string())),
        (key.to_string(), payload),
    ])
}

#[test]
fn values_that_cannot_be_written_or_read() {
    let function = serialize(&JSValue::Array(vec![JSValue::Function { id: 8 }])).unwrap_err();
    assert_eq!(
        function.message(""),
        "Cannot serialize JSValue::Function (id: 8). Functions must be called, not serialized."
    );
    let literal = deserialize(&tagged("BigInt", "value", WireValue::Text("z".to_string())));
    assert_eq!(literal.unwrap_err().message(""), "Invalid BigInt literal 'z'");
    let payload = deserialize(&tagged("BigInt", "value", WireValue::Bool(true))).unwrap_err();
    assert!(matches!(payload, WireError::BigIntPayload { .. }));
    assert_eq!(
        payload.message("Bool(true)"),
        "Invalid BigInt payload: expected string, got Bool(true)"
    );
    let stream = deserialize(&tagged("JsStream", "id", WireValue::Bool(true))).unwrap_err();
    assert!(matches!(stream, WireError::StreamId { kind: StreamKind::JsStream, .. }));
    assert_eq!(stream.message("x"), "Invalid JsStream id payload: x");
    let other = deserialize(&tagged("PyStream", "id", WireValue::Absent)).unwrap_err();
    assert_eq!(other.message("y"), "Invalid PyStream id payload: y");
}

#[test]
fn values_become_python_objects() {
    let value = object(vec![
        ("n", JSValue::Int(1)),
        ("l", JSValue::Array(vec![text("a"), JSValue::Null, JSValue::Undefined])),
    ]);
    match js_value_to_python(&value, true, true, &unmeasured).unwrap() {
        PyValue::Dict(entries) => {
            assert_eq!(entries[0].0, "n");
            assert!(matches!(entries[0].1, PyValue::Int(1)));
            match &entries[1].1 {
                PyValue::List(items) => {
                    assert!(matches!(&items[0], PyValue::Str(s) if s == "a"));
                    assert!(matches!(items[1], PyValue::NoneValue));
                    assert!(matches!(items[2], PyValue::Undefined));
                }
                other => panic!("unexpected {:?}", other),
            }
        }
        other => panic!("unexpected {:?}", other),
    }
    assert!(matches!(
        js_value_to_python(&JSValue::Function { id: 2 }, true, true, &unmeasured),
        Ok(PyValue::Function { id: 2 })
    ));
    assert_eq!(
        js_value_to_python(&JSValue::Function { id: 2 }, false, true, &unmeasured).unwrap_err(),
        "RuntimeHandle required to convert JSValue::Function"
    );
    assert_eq!(
        js_value_to_python(&JSValue::JsStream { id: 2 }, false, true, &unmeasured).unwrap_err(),
        "RuntimeHandle required to convert JSValue::JsStream"
    );
    assert_eq!(
        js_value_to_python(&JSValue::PyStream { id: 2 }, true, true, &unmeasured).unwrap_err(),
        "PyStream placeholders cannot be materialized on the Python side"
    );
}

#[test]
fn tagged_objects_become_what_they_stand_for() {
    let date = object(vec![("__pydeno_type", text("Date")), ("epoch_ms", JSValue::Int(9))]);
    assert!(matches!(js_value_to_python(&date, true, true, &unmeasured), Ok(PyValue::DateTime { epoch_ms: 9 })));
    let set = object(vec![
        ("__pydeno_type", text("Set")),
        ("values", JSValue::Array(vec![JSValue::Int(1)])),
    ]);
    assert!(matches!(js_value_to_python(&set, true, true, &unmeasured), Ok(PyValue::PySet(items)) if items.len() == 1));
    let big = object(vec![("__pydeno_type", text("BigInt")), ("value", text("12"))]);
    match js_value_to_python(&big, true, true, &unmeasured) {
        Ok(PyValue::BigInt(i)) => assert_eq!(i.to_decimal(), "12"),
        other => panic!("unexpected {:?}", other),
    }
    let undefined = object(vec![("__pydeno_type", text("Undefined"))]);
    assert!(matches!(js_value_to_python(&undefined, true, true, &unmeasured), Ok(PyValue::Undefined)));
    let unknown = object(vec![("__pydeno_type", text("Other"))]);
    assert!(matches!(js_value_to_python(&unknown, true, true, &unmeasured), Ok(PyValue::Dict(_))));
    let bad = object(vec![("__pydeno_type", text("Date")), ("epoch_ms", text("x"))]);
    assert_eq!(
        js_value_to_python(&bad, true, true, &unmeasured).unwrap_err(),
        "Invalid epoch_ms payload for Date"
    );
}

#[test]
fn conversions_are_metered() {
    let mut tracker = LimitTracker::new(2, 1000);
    let nested = JSValue::Array(vec![JSValue::Array(vec![JSValue::Null])]);
    assert!(js_value_to_python_tracked(&nested, true, &mut tracker, &unmeasured).is_err());
    let mut small = LimitTracker::new(10, 15);
    assert!(js_value_to_python_tracked(&text("abcdefghij"), true, &mut small, &unmeasured).is_err());
    let mut enough = LimitTracker::new(10, 26);
    assert!(js_value_to_python_tracked(&text("abcdefghij"), true, &mut enough, &unmeasured).is_ok());
    assert!(js_value_to_python_tracked(&JSValue::Bool(true), true, &mut enough, &unmeasured).is_err());
}

#[test]
fn the_stack_is_measured_at_each_level() {
    let deep = JSValue::Array(vec![JSValue::Array(vec![JSValue::Array(vec![])])]);
    let asked = std::cell::Cell::new(0usize);
    let growing = || {
        asked.set(asked.get() + 1);
        Some(STACK_HEADROOM_BYTES - 2 + asked.get())
    };
    let refused = js_value_to_python(&deep, true, true, &growing).unwrap_err();
    assert_eq!(asked.get(), 3);
    assert!(refused.starts_with("stack headroom exhausted at depth 3: 655361 bytes used"));
    asked.set(0);
    let mut tracker = LimitTracker::new(100, 1000);
    let shallow = JSValue::Array(vec![JSValue::Null]);
    assert!(js_value_to_python_tracked(&shallow, true, &mut tracker, &growing).is_ok());
    assert_eq!(asked.get(), 2);
}

#[test]
fn a_told_stack_holds_for_every_level() {
    let value = JSValue::Array(vec![JSValue::Null]);
    let mut tracker = LimitTracker::new(10, 1000);
    tracker.note_stack(Some(STACK_HEADROOM_BYTES), true);
    assert!(js_value_to_python_told(&value, true, &mut tracker).is_ok());
    tracker.note_stack(Some(STACK_HEADROOM_BYTES + 1), false);
    let refused = js_value_to_python_told(&value, true, &mut tracker).unwrap_err();
    assert!(refused.starts_with("stack headroom exhausted at depth 1: 655361 bytes used"));
    assert!(refused.contains("unoptimized (debug_assertions on)"));
}

#[test]
fn an_unknown_tag_comes_back_last() {
    let value = object(vec![("__pydeno_type", text("Other")), ("a", JSValue::Int(1))]);
    match deserialize(&serialize(&value).unwrap()).unwrap() {
        JSValue::Object(map) => {
            assert_eq!(map.len(), 2);
            assert_eq!(map.key_at(0), "a");
            assert_eq!(map.key_at(1), "__pydeno_type");
            assert!(matches!(map.get("__pydeno_type"), Some(JSValue::String(s)) if s == "Other"));
        }
        other => panic!("unexpected {:?}", other),
    }
    let set = object(vec![("values", JSValue::Int(1)), ("__pydeno_type", text("Set"))]);
    match deserialize(&serialize(&set).unwrap()).unwrap() {
        JSValue::Object(map) => {
            assert_eq!(map.key_at(0), "values");
            assert_eq!(map.key_at(1), "__pydeno_type");
        }
        other => panic!("unexpected {:?}", other),
    }
}
