use nvim_oxi::object::bytes_eq;
use nvim_oxi::{Array, ByteString, Dictionary, HandleKind, Object, ObjectKind};

fn key(s: &str) -> ByteString {
    ByteString::from_bytes(s.as_bytes().to_vec())
}

#[test]
fn dictionary_lookup_last_write_wins() {
    let mut d = Dictionary::new();
    d.push(key("a"), Object::Integer(1));
    d.push(key("b"), Object::Integer(2));
    d.push(key("a"), Object::Integer(3));
    assert_eq!(d.len(), 3);
    assert!(matches!(d.get(b"a"), Some(Object::Integer(3))));
    assert!(matches!(d.get(b"b"), Some(Object::Integer(2))));
    assert!(d.get(b"c").is_none());
    assert!(Dictionary::new().get(b"").is_none());
}

#[test]
fn kinds_follow_the_tag() {
    assert_eq!(Object::Nil.kind(), ObjectKind::Nil);
    assert_eq!(Object::Boolean(true).kind(), ObjectKind::Boolean);
    assert_eq!(Object::Handle(HandleKind::Buffer, 1).kind(), ObjectKind::Buffer);
    assert_eq!(Object::Handle(HandleKind::TabPage, 1).kind(), ObjectKind::TabPage);
    assert_eq!(Object::Array(Array::new()).kind(), ObjectKind::Array);
    assert!(Object::Nil.is_nil());
    assert!(!Object::Integer(0).is_nil());
}

#[test]
fn copies_are_deep_and_independent() {
    let mut inner = Array::new();
    inner.push(Object::String(key("x")));
    let mut outer = Array::new();
    outer.push(Object::Array(inner));
    let source = Object::Array(outer);
    let mut copy = source.copy();
    if let Object::Array(a) = &mut copy {
        a.push(Object::Nil);
    }
    match (&source, &copy) {
        (Object::Array(a), Object::Array(b)) => {
            assert_eq!(a.len(), 1);
            assert_eq!(b.len(), 2);
            match &b.items[0] {
                Object::Array(i) => assert!(matches!(&i.items[0], Object::String(s) if s.bytes == b"x".to_vec())),
                other => panic!("unexpected object {:?}", other),
            }
        },
        _ => panic!("copy changed the tag"),
    }
}

#[test]
fn byte_comparison() {
    assert!(bytes_eq(b"abc", b"abc"));
    assert!(!bytes_eq(b"abc", b"abd"));
    assert!(!bytes_eq(b"ab", b"abc"));
    assert!(bytes_eq(b"", b""));
}
