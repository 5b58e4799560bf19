//! The call-scoped arena that boundary calls allocate transient values in.
//!
//! Values materialised in the arena during a boundary call are valid only
//! until that call returns. Readers never get a reference into the arena:
//! [`Arena::copy_out`] hands back an owned copy, and a reference taken during
//! an earlier call no longer reads anything.
use vstd::prelude::*;
use crate::init_error::InitError;
use crate::object::{Object, Value, values_of};

verus! {

/// Mathematical model of an [`Arena`].
pub struct ArenaState {
    /// Number of boundary calls whose scope has ended.
    pub generation: u64,
    /// Values allocated during the current call, in allocation order.
    pub blocks: Seq<Value>,
}

/// A region allocator whose contents live for one boundary call.
#[derive(Debug)]
pub struct Arena {
    generation: u64,
    blocks: Vec<Object>,
}

/// Names a value allocated in an [`Arena`] during one call.
#[derive(Clone, Copy, Debug, PartialEq, Eq, Structural)]
pub struct ArenaRef {
    pub generation: u64,
    pub index: usize,
}

impl View for Arena {
    type V = ArenaState;

    closed spec fn view(&self) -> ArenaState {
        ArenaState { generation: self.generation, blocks: values_of(self.blocks@) }
    }
}

/// The arena as it is right after initialisation.
pub open spec fn fresh_arena() -> ArenaState {
    ArenaState { generation: 0, blocks: Seq::empty() }
}

/// Whether `r` names a value of the arena's current call.
pub open spec fn is_live(a: ArenaState, r: ArenaRef) -> bool {
    r.generation == a.generation && r.index < a.blocks.len()
}

impl Arena {
    fn new() -> (r: Arena)
        ensures
            r@ == fresh_arena(),
    {
        let r = Arena { generation: 0, blocks: Vec::new() };
        assert(r@.blocks =~= Seq::<Value>::empty());
        r
    }

    /// Number of boundary calls whose scope has ended.
    pub fn generation(&self) -> (r: u64)
        ensures
            r == self@.generation,
    {
        self.generation
    }

    /// Number of values allocated during the current call.
    pub fn len(&self) -> (r: usize)
        ensures
            r == self@.blocks.len(),
    {
        self.blocks.len()
    }

    /// Moves `value` into the arena for the rest of the current call.
    pub fn allocate(&mut self, value: Object) -> (r: ArenaRef)
        ensures
            final(self)@.generation == old(self)@.generation,
            final(self)@.blocks == old(self)@.blocks.push(value@),
            r == (ArenaRef { generation: old(self)@.generation, index: old(self)@.blocks.len() as usize }),
            is_live(final(self)@, r),
    {
        let index = self.blocks.len();
        self.blocks.push(value);
        assert(final(self)@.blocks =~= old(self)@.blocks.push(value@));
        ArenaRef { generation: self.generation, index }
    }

    /// An owned copy of the value `r` names, if it was allocated during the
    /// current call.
    pub fn copy_out(&self, r: ArenaRef) -> (o: Option<Object>)
        ensures
            o is Some <==> is_live(self@, r),
            o matches Some(v) ==> v@ == self@.blocks[r.index as int],
    {
        if r.generation == self.generation && r.index < self.blocks.len() {
            Some(self.blocks[r.index].copy())
        } else {
            None
        }
    }

    /// Ends the current call's scope: everything allocated in it is released
    /// and every reference taken during it stops reading anything.
    pub fn end_call(&mut self)
        requires
            old(self)@.generation < u64::MAX,
        ensures
            final(self)@ == (ArenaState { generation: (old(self)@.generation + 1) as u64, blocks: Seq::empty() }),
    {
        self.blocks.clear();
        self.generation = self.generation + 1;
        assert(final(self)@.blocks =~= Seq::<Value>::empty());
    }
}

/// The single-assignment cell that holds a thread's arena.
#[derive(Debug)]
pub struct ArenaSlot {
    arena: Option<Arena>,
}

impl View for ArenaSlot {
    type V = Option<ArenaState>;

    closed spec fn view(&self) -> Option<ArenaState> {
        match self.arena {
            Some(a) => Some(a@),
            None => None,
        }
    }
}

/// What initialising a slot in state `s` returns, and the slot's next state.
pub open spec fn init_outcome(s: Option<ArenaState>) -> (Result<(), InitError>, Option<ArenaState>) {
    match s {
        Some(_) => (Err(InitError::ArenaAlreadyInitialized), s),
        None => (Ok(()), Some(fresh_arena())),
    }
}

impl ArenaSlot {
    /// A slot that holds no arena yet.
    pub fn new() -> (r: ArenaSlot)
        ensures
            r@ is None,
    {
        ArenaSlot { arena: None }
    }

    pub fn is_initialized(&self) -> (r: bool)
        ensures
            r == (self@ is Some),
    {
        self.arena.is_some()
    }

    /// The arena, to be threaded into the boundary calls that allocate.
    pub fn current_arena(&mut self) -> (r: &mut Arena)
        requires
            old(self)@ is Some,
        ensures
            r@ == old(self)@->Some_0,
            final(self)@ == Some(final(r)@),
    {
        self.arena.as_mut().unwrap()
    }
}

/// Creates the thread's arena. A second call fails with
/// [`InitError::ArenaAlreadyInitialized`] and keeps the arena in place.
pub fn init_arena(slot: &mut ArenaSlot) -> (r: Result<(), InitError>)
    ensures
        (r, final(slot)@) == init_outcome(old(slot)@),
{
    if slot.arena.is_some() {
        Err(InitError::ArenaAlreadyInitialized)
    } else {
        slot.arena = Some(Arena::new());
        Ok(())
    }
}

/// A second initialisation fails with
/// [`InitError::ArenaAlreadyInitialized`] and leaves the arena of the first
/// one in place and usable.
pub proof fn lemma_init_twice(s: Option<ArenaState>)
    ensures
        init_outcome(init_outcome(s).1).0 == Err::<(), InitError>(InitError::ArenaAlreadyInitialized),
        init_outcome(init_outcome(s).1).1 == init_outcome(s).1,
        init_outcome(s).1 is Some,
        s is None ==> init_outcome(s).0 is Ok && init_outcome(s).1 == Some(fresh_arena()),
{
}

} // verus!
