use nvim_oxi::conversion::Error;
use nvim_oxi::{Array, ByteString, Dictionary, Float, FromObject, Function, HandleKind, Object, ObjectKind, ToObject};

fn integer(n: i64) -> Object {
    Object::Integer(n)
}

fn text(s: &str) -> Object {
    Object::String(ByteString { bytes: s.as_bytes().to_vec() })
}

fn array(items: Vec<Object>) -> Object {
    Object::Array(Array { items })
}

#[test]
fn round_trip_integers() {
    assert_eq!(i64::from_object(42i64.to_object().unwrap()).unwrap(), 42);
    assert_eq!(i64::from_object(i64::MIN.to_object().unwrap()).unwrap(), i64::MIN);
    assert_eq!(u8::from_object(255u8.to_object().unwrap()).unwrap(), 255);
    assert_eq!(i8::from_object((-128i8).to_object().unwrap()).unwrap(), -128);
    assert_eq!(u32::from_object(u32::MAX.to_object().unwrap()).unwrap(), u32::MAX);
    let big = i64::MAX as u64;
    assert_eq!(u64::from_object(big.to_object().unwrap()).unwrap(), big);
    assert_eq!(i128::from_object((-7i128).to_object().unwrap()).unwrap(), -7);
    assert_eq!(usize::from_object(9usize.to_object().unwrap()).unwrap(), 9);
}

#[test]
fn round_trip_bool_unit_float_function() {
    assert!(bool::from_object(true.to_object().unwrap()).unwrap());
    assert!(!bool::from_object(false.to_object().unwrap()).unwrap());
    <()>::from_object(().to_object().unwrap()).unwrap();
    let f = Float { bits: 1.5f64.to_bits() };
    let back = Float::from_object(f.to_object().unwrap()).unwrap();
    assert_eq!(f64::from_bits(back.bits), 1.5);
    let cb = Function { luaref: 17 };
    assert_eq!(Function::from_object(cb.to_object().unwrap()).unwrap(), cb);
}

#[test]
fn round_trip_text() {
    let s = String::from("héllo wörld ✓");
    assert_eq!(String::from_object(s.clone().to_object().unwrap()).unwrap(), s);
    let empty = String::new();
    assert_eq!(String::from_object(empty.to_object().unwrap()).unwrap(), "");
}

#[test]
fn text_is_stored_as_utf8_bytes() {
    match String::from("é").to_object().unwrap() {
        Object::String(b) => assert_eq!(b.bytes, vec![0xc3, 0xa9]),
        other => panic!("unexpected object {:?}", other),
    }
}

#[test]
fn invalid_utf8_is_a_typed_error() {
    let obj = Object::String(ByteString { bytes: vec![b'a', 0xff, b'b'] });
    assert!(matches!(String::from_object(obj), Err(Error::FromUtf8)));
    let raw = ByteString::from_object(Object::String(ByteString { bytes: vec![0xff] })).unwrap();
    assert_eq!(raw.bytes, vec![0xff]);
}

#[test]
fn round_trip_vec_and_option() {
    let v: Vec<i32> = vec![3, -1, 7];
    assert_eq!(Vec::<i32>::from_object(v.clone().to_object().unwrap()).unwrap(), v);
    let empty: Vec<bool> = Vec::new();
    assert_eq!(Vec::<bool>::from_object(empty.to_object().unwrap()).unwrap(), Vec::<bool>::new());
    let nested: Vec<Vec<String>> = vec![vec!["a".into()], vec![], vec!["b".into(), "c".into()]];
    assert_eq!(Vec::<Vec<String>>::from_object(nested.clone().to_object().unwrap()).unwrap(), nested);
    let some: Option<i64> = Some(5);
    assert_eq!(Option::<i64>::from_object(some.to_object().unwrap()).unwrap(), Some(5));
    let none: Option<i64> = None;
    assert_eq!(Option::<i64>::from_object(none.to_object().unwrap()).unwrap(), None);
}

#[test]
fn object_round_trip_keeps_structure() {
    let mut d = Dictionary::new();
    d.push(ByteString::from_bytes(b"k".to_vec()), integer(1));
    d.push(ByteString::from_bytes(b"k".to_vec()), Object::Nil);
    let o = array(vec![Object::Dictionary(d), text("x"), Object::Handle(HandleKind::Window, 3)]);
    let back = Object::from_object(o.copy().to_object().unwrap()).unwrap();
    match back {
        Object::Array(a) => {
            assert_eq!(a.len(), 3);
            match &a.items[0] {
                Object::Dictionary(d) => {
                    assert_eq!(d.len(), 2);
                    assert!(matches!(d.entries[0].1, Object::Integer(1)));
                    assert!(matches!(d.entries[1].1, Object::Nil));
                },
                other => panic!("unexpected object {:?}", other),
            }
            assert_eq!(a.items[2].kind(), ObjectKind::Window);
        },
        other => panic!("unexpected object {:?}", other),
    }
}

#[test]
fn narrowing_out_of_range_fails() {
    assert!(matches!(i8::from_object(integer(300)), Err(Error::FromInt)));
    assert!(matches!(u8::from_object(integer(-1)), Err(Error::FromInt)));
    assert!(matches!(u8::from_object(integer(256)), Err(Error::FromInt)));
    assert_eq!(u8::from_object(integer(255)).unwrap(), 255);
    assert!(matches!(i32::from_object(integer(i64::from(i32::MAX) + 1)), Err(Error::FromInt)));
    assert!(matches!(u64::from_object(integer(-5)), Err(Error::FromInt)));
}

#[test]
fn encoding_out_of_range_fails() {
    assert!(matches!((i64::MAX as u64 + 1).to_object(), Err(Error::FromInt)));
    assert!(matches!(u128::MAX.to_object(), Err(Error::FromInt)));
    assert!(matches!(i128::MIN.to_object(), Err(Error::FromInt)));
    assert!(matches!(7u128.to_object(), Ok(Object::Integer(7))));
}

#[test]
fn handles_decode_as_integers() {
    assert_eq!(i64::from_object(Object::Handle(HandleKind::Buffer, 4)).unwrap(), 4);
    assert_eq!(u32::from_object(Object::Handle(HandleKind::TabPage, 2)).unwrap(), 2);
}

fn wrong(r: Result<impl std::fmt::Debug, Error>, expected: ObjectKind, actual: ObjectKind) {
    match r {
        Err(Error::FromWrongType { expected: e, actual: a }) => {
            assert_eq!(e, expected);
            assert_eq!(a, actual);
        },
        other => panic!("expected a kind error, got {:?}", other),
    }
}

#[test]
fn wrong_tag_names_both_kinds() {
    wrong(bool::from_object(integer(1)), ObjectKind::Boolean, ObjectKind::Integer);
    wrong(i64::from_object(Object::Boolean(true)), ObjectKind::Integer, ObjectKind::Boolean);
    wrong(u8::from_object(text("1")), ObjectKind::Integer, ObjectKind::String);
    wrong(<()>::from_object(integer(0)), ObjectKind::Nil, ObjectKind::Integer);
    wrong(Float::from_object(integer(0)), ObjectKind::Float, ObjectKind::Integer);
    wrong(String::from_object(array(vec![])), ObjectKind::String, ObjectKind::Array);
    wrong(Array::from_object(text("a")), ObjectKind::Array, ObjectKind::String);
    wrong(Dictionary::from_object(array(vec![])), ObjectKind::Dictionary, ObjectKind::Array);
    wrong(Function::from_object(Object::Nil), ObjectKind::LuaRef, ObjectKind::Nil);
    wrong(Vec::<i64>::from_object(Object::Handle(HandleKind::Buffer, 1)), ObjectKind::Array, ObjectKind::Buffer);
    wrong(<(i64, i64)>::from_object(integer(1)), ObjectKind::Array, ObjectKind::Integer);
}

#[test]
fn option_maps_only_nil_to_none() {
    assert_eq!(Option::<i64>::from_object(Object::Nil).unwrap(), None);
    assert_eq!(Option::<i64>::from_object(integer(5)).unwrap(), Some(5));
    assert_eq!(Option::<bool>::from_object(Object::Boolean(false)).unwrap(), Some(false));
    wrong(Option::<i64>::from_object(text("5")), ObjectKind::Integer, ObjectKind::String);
    assert!(matches!(Option::<u8>::from_object(integer(1000)), Err(Error::FromInt)));
}

#[test]
fn vec_stops_at_first_failing_element() {
    let obj = array(vec![integer(1), text("x"), Object::Boolean(true)]);
    wrong(Vec::<i64>::from_object(obj), ObjectKind::Integer, ObjectKind::String);
    let obj = array(vec![integer(1), integer(1000), text("x")]);
    assert!(matches!(Vec::<u8>::from_object(obj), Err(Error::FromInt)));
}

#[test]
fn tuple_arity_is_not_a_kind_error() {
    let r = <(i64, i64, i64)>::from_object(array(vec![integer(1), integer(2)]));
    assert!(matches!(r, Err(Error::WrongArity { expected: 3, actual: 2 })));
    let r = <(i64, i64, i64)>::from_object(array(vec![integer(1), integer(2), integer(3), integer(4)]));
    assert!(matches!(r, Err(Error::WrongArity { expected: 3, actual: 4 })));
    let r = <(i64,)>::from_object(array(vec![]));
    assert!(matches!(r, Err(Error::WrongArity { expected: 1, actual: 0 })));
}

#[test]
fn tuple_element_error_propagates() {
    let r = <(i64, i64, i64)>::from_object(array(vec![integer(1), text("x"), integer(3)]));
    wrong(r, ObjectKind::Integer, ObjectKind::String);
    let r = <(i64, bool, String)>::from_object(array(vec![integer(1), integer(2), integer(3)]));
    wrong(r, ObjectKind::Boolean, ObjectKind::Integer);
    let r = <(i64, bool, String, u8)>::from_object(array(vec![integer(1), Object::Boolean(true), text("s"), integer(9)]));
    assert_eq!(r.unwrap(), (1, true, String::from("s"), 9));
    let r = <(u8, String)>::from_object(array(vec![integer(-1), text("s")]));
    assert!(matches!(r, Err(Error::FromInt)));
}

#[test]
fn errors_clone_field_by_field() {
    let e = Error::Other(String::from("not enough elements"));
    assert!(matches!(e.clone(), Error::Other(ref m) if m == "not enough elements"));
    let e = Error::FromWrongType { expected: ObjectKind::Float, actual: ObjectKind::Nil };
    assert!(matches!(
        e.clone(),
        Error::FromWrongType { expected: ObjectKind::Float, actual: ObjectKind::Nil }
    ));
}
