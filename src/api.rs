//! The calling convention of boundary calls and the error they surface.
//!
//! A boundary call takes its arguments (objects by [`NonOwning`] borrow), an
//! optional arena, and a trailing error slot that the host fills when the call
//! fails. The returned value is read only when the slot stays empty.
//!
//! [`NonOwning`]: crate::borrow::NonOwning
use vstd::prelude::*;
use crate::conversion::{self, FromObject};
use crate::object::{ByteString, Dictionary, Object, ObjectKind, Value};

verus! {

/// An error reported by the host through the error slot.
#[derive(Debug)]
pub struct HostError {
    pub message: String,
}

/// The trailing error slot of a boundary call.
#[derive(Debug)]
pub struct ErrorSlot {
    error: Option<HostError>,
}

impl View for ErrorSlot {
    type V = Option<HostError>;

    closed spec fn view(&self) -> Option<HostError> {
        self.error
    }
}

impl ErrorSlot {
    /// An empty slot, to hand to a call.
    pub fn new() -> (r: ErrorSlot)
        ensures
            r@ is None,
    {
        ErrorSlot { error: None }
    }

    /// Records the host's error, as the host does on failure.
    pub fn set(&mut self, message: String)
        ensures
            final(self)@ == Some(HostError { message }),
    {
        self.error = Some(HostError { message });
    }

    pub fn is_set(&self) -> (r: bool)
        ensures
            r == (self@ is Some),
    {
        self.error.is_some()
    }

    /// Empties the slot, giving back what it held.
    pub fn take(&mut self) -> (r: Option<HostError>)
        ensures
            r == old(self)@,
            final(self)@ is None,
    {
        self.error.take()
    }
}

/// Errors of boundary calls.
#[derive(Debug)]
pub enum Error {
    /// An integer did not fit its target type.
    FromInt,
    /// Bytes were not valid UTF-8.
    FromUtf8,
    /// The host reported the call as failed.
    Nvim(HostError),
    /// The returned object could not be decoded.
    ObjectConversion(conversion::Error),
    /// Any other failure, with its message.
    Message(String),
}

/// What a call with the error slot in state `slot` and returned object `ret`
/// gives, as a model of the decoded value.
pub open spec fn call_outcome<R: FromObject>(slot: Option<HostError>, ret: Value) -> Result<<R as DeepView>::V, Error> {
    match slot {
        Some(e) => Err(Error::Nvim(e)),
        None => match R::decode(ret) {
            Ok(x) => Ok(x),
            Err(e) => Err(Error::ObjectConversion(e)),
        },
    }
}

pub open spec fn deep_api_result<T: DeepView>(r: Result<T, Error>) -> Result<T::V, Error> {
    match r {
        Ok(x) => Ok(x.deep_view()),
        Err(e) => Err(e),
    }
}

/// Finishes a boundary call: a filled error slot takes priority and the
/// returned object is dropped unread; otherwise the object is decoded.
pub fn finish_call<R: FromObject>(mut slot: ErrorSlot, ret: Object) -> (r: Result<R, Error>)
    ensures
        deep_api_result(r) == call_outcome::<R>(slot@, ret@),
{
    match slot.take() {
        Some(e) => Err(Error::Nvim(e)),
        None => match R::from_object(ret) {
            Ok(x) => Ok(x),
            Err(e) => Err(Error::ObjectConversion(e)),
        },
    }
}

/// Finishes a boundary call that returns nothing.
pub fn finish_unit(mut slot: ErrorSlot) -> (r: Result<(), Error>)
    ensures
        r == (match slot@ {
            Some(e) => Err(Error::Nvim(e)),
            None => Ok::<(), Error>(()),
        }),
{
    match slot.take() {
        Some(e) => Err(Error::Nvim(e)),
        None => Ok(()),
    }
}

/// What the output dictionary of a script execution gives: the value of its
/// first entry, which must be a byte string, or nothing when it is empty.
pub open spec fn exec_output(slot: Option<HostError>, d: Seq<(Seq<u8>, Value)>) -> Result<Option<Seq<u8>>, Error> {
    match slot {
        Some(e) => Err(Error::Nvim(e)),
        None => if d.len() == 0 {
            Ok(None)
        } else {
            match d[0].1 {
                Value::String(b) => Ok(Some(b)),
                other => Err(Error::ObjectConversion(conversion::wrong_kind(ObjectKind::String, other))),
            }
        },
    }
}

/// Finishes a script execution, whose output comes back as a dictionary.
pub fn finish_exec(mut slot: ErrorSlot, output: Dictionary) -> (r: Result<Option<ByteString>, Error>)
    ensures
        deep_api_result(r) == exec_output(slot@, output@),
{
    match slot.take() {
        Some(e) => Err(Error::Nvim(e)),
        None => {
            let mut entries = output.entries;
            if entries.len() == 0 {
                Ok(None)
            } else {
                let ghost first = entries@[0];
                let (_key, value) = entries.swap_remove(0);
                assert(value@ == first.1@);
                match ByteString::from_object(value) {
                    Ok(s) => Ok(Some(s)),
                    Err(e) => Err(Error::ObjectConversion(e)),
                }
            }
        },
    }
}

/// A failed call surfaces the host's error whatever object it returned, so
/// the object is never decoded.
pub proof fn lemma_error_precedence<R: FromObject>(e: HostError, ret: Value)
    ensures
        call_outcome::<R>(Some(e), ret) == Err::<<R as DeepView>::V, Error>(Error::Nvim(e)),
{
}

} // verus!
