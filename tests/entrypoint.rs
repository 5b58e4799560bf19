use nvim_oxi::entrypoint::{arena_stage_outcome, next_step, panic_error, Stage, Step};
use nvim_oxi::{Error, InitError};

#[test]
fn stages_run_in_order() {
    assert!(matches!(next_step(Stage::InitArena, Ok(0)), Step::Run(Stage::InitLua)));
    assert!(matches!(next_step(Stage::InitLua, Ok(0)), Step::Run(Stage::InitLoop)));
    assert!(matches!(next_step(Stage::InitLoop, Ok(0)), Step::Run(Stage::RunBody)));
    assert!(matches!(next_step(Stage::RunBody, Ok(2)), Step::Finish(2)));
}

#[test]
fn first_failure_is_reported() {
    let outcome = arena_stage_outcome(Err(InitError::ArenaAlreadyInitialized));
    assert!(matches!(
        next_step(Stage::InitArena, outcome),
        Step::Fail(Error::Types(InitError::ArenaAlreadyInitialized))
    ));
    assert!(matches!(arena_stage_outcome(Ok(())), Ok(0)));
    assert!(matches!(next_step(Stage::RunBody, Err(Error::Lua("boom".into()))), Step::Fail(Error::Lua(_))));
}

#[test]
fn panic_becomes_runtime_error() {
    match panic_error("index out of bounds") {
        Error::Lua(m) => assert_eq!(m, "Plugin panic: index out of bounds"),
        other => panic!("unexpected error {:?}", other),
    }
}
