use nvim_oxi::{init_arena, ArenaSlot, ByteString, InitError, Object};

#[test]
fn second_init_fails_and_keeps_the_arena() {
    let mut slot = ArenaSlot::new();
    assert!(!slot.is_initialized());
    assert_eq!(init_arena(&mut slot), Ok(()));
    let r = slot.current_arena().allocate(Object::Integer(7));
    assert_eq!(init_arena(&mut slot), Err(InitError::ArenaAlreadyInitialized));
    assert!(slot.is_initialized());
    let arena = slot.current_arena();
    assert_eq!(arena.len(), 1);
    assert!(matches!(arena.copy_out(r), Some(Object::Integer(7))));
    let r2 = arena.allocate(Object::Boolean(true));
    assert_eq!(r2.index, 1);
    assert!(matches!(arena.copy_out(r2), Some(Object::Boolean(true))));
}

#[test]
fn arena_values_do_not_outlive_the_call() {
    let mut slot = ArenaSlot::new();
    init_arena(&mut slot).unwrap();
    let arena = slot.current_arena();
    assert_eq!(arena.generation(), 0);
    let r = arena.allocate(Object::String(ByteString::from_bytes(b"tmp".to_vec())));
    let copy = arena.copy_out(r).unwrap();
    arena.end_call();
    assert_eq!(arena.generation(), 1);
    assert_eq!(arena.len(), 0);
    assert!(arena.copy_out(r).is_none());
    match copy {
        Object::String(s) => assert_eq!(s.bytes, b"tmp".to_vec()),
        other => panic!("unexpected object {:?}", other),
    }
    let r3 = arena.allocate(Object::Nil);
    assert_eq!(r3.index, 0);
    assert_eq!(r3.generation, 1);
    assert!(arena.copy_out(r3).is_some());
}

#[test]
fn init_error_message() {
    assert_eq!(InitError::ArenaAlreadyInitialized.message(), "The types arena has already been initialized");
}
