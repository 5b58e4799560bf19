use std::cell::Cell;
use std::rc::Rc;

use nvim_oxi::api::{finish_call, finish_exec, finish_unit, Error, ErrorSlot};
use nvim_oxi::conversion;
use nvim_oxi::{Arena, ArenaSlot, ByteString, Dictionary, NonOwning, Object, ObjectKind, init_arena};

/// A host function that fails: it fills the error slot and still returns an
/// object, which here is not even an integer.
fn failing_host_call(_arg: NonOwning<'_, Object>, _arena: &mut Arena, err: &mut ErrorSlot) -> Object {
    err.set(String::from("E121: Undefined variable"));
    Object::String(ByteString::from_bytes(b"garbage".to_vec()))
}

fn echo_host_call(arg: NonOwning<'_, Object>, arena: &mut Arena, _err: &mut ErrorSlot) -> Object {
    let r = arena.allocate(arg.get().copy());
    arena.copy_out(r).unwrap()
}

#[test]
fn error_slot_takes_precedence_over_the_returned_value() {
    let mut slot = ArenaSlot::new();
    init_arena(&mut slot).unwrap();
    let arg = Object::Integer(1);
    let mut err = ErrorSlot::new();
    let ret = failing_host_call(NonOwning::new(&arg), slot.current_arena(), &mut err);
    assert!(err.is_set());
    match finish_call::<i64>(err, ret) {
        Err(Error::Nvim(e)) => assert_eq!(e.message, "E121: Undefined variable"),
        other => panic!("expected the host error, got {:?}", other),
    }
}

#[test]
fn empty_error_slot_decodes_the_returned_value() {
    let mut slot = ArenaSlot::new();
    init_arena(&mut slot).unwrap();
    let arg = Object::Integer(41);
    let mut err = ErrorSlot::new();
    let ret = echo_host_call(NonOwning::new(&arg), slot.current_arena(), &mut err);
    assert!(matches!(arg, Object::Integer(41)));
    assert_eq!(finish_call::<i64>(err, ret).unwrap(), 41);
    let ret = Object::Boolean(true);
    match finish_call::<i64>(ErrorSlot::new(), ret) {
        Err(Error::ObjectConversion(conversion::Error::FromWrongType { expected, actual })) => {
            assert_eq!(expected, ObjectKind::Integer);
            assert_eq!(actual, ObjectKind::Boolean);
        },
        other => panic!("expected a conversion error, got {:?}", other),
    }
}

#[test]
fn unit_calls_surface_only_the_slot() {
    assert!(finish_unit(ErrorSlot::new()).is_ok());
    let mut err = ErrorSlot::new();
    err.set(String::from("failed"));
    assert!(matches!(finish_unit(err), Err(Error::Nvim(_))));
    let mut err = ErrorSlot::new();
    err.set(String::from("x"));
    assert_eq!(err.take().unwrap().message, "x");
    assert!(!err.is_set());
}

#[test]
fn exec_output_is_the_first_entry() {
    assert!(finish_exec(ErrorSlot::new(), Dictionary::new()).unwrap().is_none());
    let mut d = Dictionary::new();
    d.push(ByteString::from_bytes(b"output".to_vec()), Object::String(ByteString::from_bytes(b"hi".to_vec())));
    d.push(ByteString::from_bytes(b"other".to_vec()), Object::Nil);
    assert_eq!(finish_exec(ErrorSlot::new(), d).unwrap().unwrap().bytes, b"hi".to_vec());
    let mut d = Dictionary::new();
    d.push(ByteString::from_bytes(b"output".to_vec()), Object::Integer(3));
    assert!(matches!(
        finish_exec(ErrorSlot::new(), d),
        Err(Error::ObjectConversion(conversion::Error::FromWrongType { .. }))
    ));
}

struct Sentinel {
    drops: Rc<Cell<usize>>,
    payload: u32,
}

impl Drop for Sentinel {
    fn drop(&mut self) {
        self.drops.set(self.drops.get() + 1);
    }
}

fn observe(value: NonOwning<'_, Sentinel>) -> u32 {
    value.get().payload
}

#[test]
fn borrowed_value_is_not_freed_by_the_callee() {
    let drops = Rc::new(Cell::new(0));
    let value = Sentinel { drops: drops.clone(), payload: 99 };
    assert_eq!(observe(NonOwning::new(&value)), 99);
    assert_eq!(drops.get(), 0);
    assert_eq!(value.payload, 99);
    drop(value);
    assert_eq!(drops.get(), 1);
}
