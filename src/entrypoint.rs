//! The decisions of the plugin's single entry point.
//!
//! The entry point initialises the session one stage at a time, then runs the
//! plugin's body and pushes its result for the host. Each stage runs only once
//! the previous one has succeeded; the first failure is reported to the host
//! and nothing after it runs. A panic of the body becomes a runtime error
//! instead of unwinding into the host.
use vstd::prelude::*;
use crate::error::Error;
use crate::init_error::InitError;

verus! {

/// A stage of the entry point, in the order they run.
#[derive(Clone, Copy, Debug, PartialEq, Eq, Structural)]
pub enum Stage {
    InitArena,
    InitLua,
    InitLoop,
    RunBody,
}

/// What the entry point does next.
#[derive(Debug)]
pub enum Step {
    /// Run this stage.
    Run(Stage),
    /// Return this many values pushed for the host.
    Finish(i32),
    /// Report this error to the host.
    Fail(Error),
}

/// The stage that follows `s`, if any.
pub open spec fn stage_after(s: Stage) -> Option<Stage> {
    match s {
        Stage::InitArena => Some(Stage::InitLua),
        Stage::InitLua => Some(Stage::InitLoop),
        Stage::InitLoop => Some(Stage::RunBody),
        Stage::RunBody => None,
    }
}

/// Decides the next step once `stage` has run with `outcome`, where the body
/// stage's success value is the number of values it pushed.
pub fn next_step(stage: Stage, outcome: Result<i32, Error>) -> (r: Step)
    ensures
        outcome is Err ==> r == Step::Fail(outcome->Err_0),
        outcome is Ok && stage_after(stage) is Some ==> r == Step::Run(stage_after(stage)->Some_0),
        outcome is Ok && stage_after(stage) is None ==> r == Step::Finish(outcome->Ok_0),
{
    match outcome {
        Err(e) => Step::Fail(e),
        Ok(n) => match stage {
            Stage::InitArena => Step::Run(Stage::InitLua),
            Stage::InitLua => Step::Run(Stage::InitLoop),
            Stage::InitLoop => Step::Run(Stage::RunBody),
            Stage::RunBody => Step::Finish(n),
        },
    }
}

/// The outcome of the arena stage, from the result of initialising it.
pub fn arena_stage_outcome(r: Result<(), InitError>) -> (o: Result<i32, Error>)
    ensures
        r is Ok ==> o == Ok::<i32, Error>(0),
        r is Err ==> o == Err::<i32, Error>(Error::Types(r->Err_0)),
{
    match r {
        Ok(()) => Ok(0),
        Err(e) => Err(Error::Types(e)),
    }
}

/// Relies on `String::push_str`: appends the characters of `tail`.
#[verifier::external_body]
fn push_str(s: &mut String, tail: &str)
    ensures
        final(s)@ == old(s)@ + tail@,
{
    s.push_str(tail)
}

/// The runtime error that a panic of the body with message `message`
/// becomes.
pub fn panic_error(message: &str) -> (e: Error)
    ensures
        e matches Error::Lua(m) && m@ == "Plugin panic: "@ + message@,
{
    let mut m = "Plugin panic: ".to_owned();
    push_str(&mut m, message);
    Error::Lua(m)
}

} // verus!
