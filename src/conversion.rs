//! Conversions between [`Object`]s and native types.
use vstd::prelude::*;
use vstd::utf8::{decode_utf8, encode_utf8, valid_utf8};
use crate::object::{Array, ByteString, Dictionary, Float, Function, HandleKind, Object, ObjectKind, Value, kind_of};

verus! {

broadcast use {crate::object::lemma_array_value, crate::object::lemma_dictionary_value};

/// Errors of the conversion layer.
#[allow(inconsistent_fields)]
#[derive(Debug)]
pub enum Error {
    /// The object's tag is not the one the target type is decoded from.
    FromWrongType { expected: ObjectKind, actual: ObjectKind },
    /// An integer does not fit the target integer type.
    FromInt,
    /// A byte string is not valid UTF-8.
    FromUtf8,
    /// An array does not have as many elements as the target tuple.
    WrongArity { expected: usize, actual: usize },
    /// A structured value could not be serialized.
    Serialize(String),
    /// A structured value could not be deserialized.
    Deserialize(String),
    /// Any other failure, with its message.
    Other(String),
}

impl Clone for Error {
    fn clone(&self) -> (r: Error)
        ensures
            r == *self,
    {
        match self {
            Error::FromWrongType { expected, actual } => Error::FromWrongType { expected: *expected, actual: *actual },
            Error::FromInt => Error::FromInt,
            Error::FromUtf8 => Error::FromUtf8,
            Error::WrongArity { expected, actual } => Error::WrongArity { expected: *expected, actual: *actual },
            Error::Serialize(m) => Error::Serialize(m.clone()),
            Error::Deserialize(m) => Error::Deserialize(m.clone()),
            Error::Other(m) => Error::Other(m.clone()),
        }
    }
}

/// The error for decoding `v` into a type that expects the tag `expected`.
pub open spec fn wrong_kind(expected: ObjectKind, v: Value) -> Error {
    Error::FromWrongType { expected, actual: kind_of(v) }
}

/// A decoding result, with the value replaced by its model.
pub open spec fn deep_result<T: DeepView>(r: Result<T, Error>) -> Result<T::V, Error> {
    match r {
        Ok(x) => Ok(x.deep_view()),
        Err(e) => Err(e),
    }
}

/// An encoding result, with the object replaced by its model.
pub open spec fn value_result(r: Result<Object, Error>) -> Result<Value, Error> {
    match r {
        Ok(o) => Ok(o@),
        Err(e) => Err(e),
    }
}

/// Types that can be obtained from an [`Object`].
pub trait FromObject: Sized + DeepView {
    /// What decoding an object with model `v` gives, as a model of `Self`.
    spec fn decode(v: Value) -> Result<<Self as DeepView>::V, Error>;

    fn from_object(obj: Object) -> (r: Result<Self, Error>)
        ensures
            deep_result(r) == Self::decode(obj@),
    ;
}

/// Types that can be converted into an [`Object`].
pub trait ToObject: Sized + DeepView {
    /// What encoding a value with model `x` gives, as a model of an object.
    spec fn encode(x: <Self as DeepView>::V) -> Result<Value, Error>;

    fn to_object(self) -> (r: Result<Object, Error>)
        ensures
            value_result(r) == Self::encode(self.deep_view()),
    ;
}

/// Types whose values come back unchanged from an encode/decode round trip.
pub trait RoundTrip: FromObject + ToObject {
    /// The values of the type that the round trip is claimed for.
    spec fn representable(x: <Self as DeepView>::V) -> bool;

    /// Decoding what a representable value encodes to gives the value back.
    proof fn lemma_round_trip(x: <Self as DeepView>::V)
        requires
            Self::representable(x),
        ensures
            Self::encode(x) is Ok,
            Self::decode(Self::encode(x)->Ok_0) == Ok::<<Self as DeepView>::V, Error>(x),
    ;
}

// ---------------------------------------------------------------- Object

impl FromObject for Object {
    open spec fn decode(v: Value) -> Result<Value, Error> {
        Ok(v)
    }

    fn from_object(obj: Object) -> (r: Result<Object, Error>) {
        Ok(obj)
    }
}

impl ToObject for Object {
    open spec fn encode(x: Value) -> Result<Value, Error> {
        Ok(x)
    }

    fn to_object(self) -> (r: Result<Object, Error>) {
        Ok(self)
    }
}

impl RoundTrip for Object {
    open spec fn representable(x: Value) -> bool {
        true
    }

    proof fn lemma_round_trip(x: Value) {
    }
}

// ---------------------------------------------------------------- unit

impl FromObject for () {
    open spec fn decode(v: Value) -> Result<(), Error> {
        match v {
            Value::Nil => Ok(()),
            _ => Err(wrong_kind(ObjectKind::Nil, v)),
        }
    }

    fn from_object(obj: Object) -> (r: Result<(), Error>) {
        match obj {
            Object::Nil => Ok(()),
            other => Err(Error::FromWrongType { expected: ObjectKind::Nil, actual: other.kind() }),
        }
    }
}

impl ToObject for () {
    open spec fn encode(x: ()) -> Result<Value, Error> {
        Ok(Value::Nil)
    }

    fn to_object(self) -> (r: Result<Object, Error>) {
        Ok(Object::Nil)
    }
}

impl RoundTrip for () {
    open spec fn representable(x: ()) -> bool {
        true
    }

    proof fn lemma_round_trip(x: ()) {
    }
}

// ---------------------------------------------------------------- bool

impl FromObject for bool {
    open spec fn decode(v: Value) -> Result<bool, Error> {
        match v {
            Value::Boolean(b) => Ok(b),
            _ => Err(wrong_kind(ObjectKind::Boolean, v)),
        }
    }

    fn from_object(obj: Object) -> (r: Result<bool, Error>) {
        match obj {
            Object::Boolean(b) => Ok(b),
            other => Err(Error::FromWrongType { expected: ObjectKind::Boolean, actual: other.kind() }),
        }
    }
}

impl ToObject for bool {
    open spec fn encode(x: bool) -> Result<Value, Error> {
        Ok(Value::Boolean(x))
    }

    fn to_object(self) -> (r: Result<Object, Error>) {
        Ok(Object::Boolean(self))
    }
}

impl RoundTrip for bool {
    open spec fn representable(x: bool) -> bool {
        true
    }

    proof fn lemma_round_trip(x: bool) {
    }
}

// ---------------------------------------------------------------- i64

impl FromObject for i64 {
    /// Integers and handles both decode to their integer.
    open spec fn decode(v: Value) -> Result<i64, Error> {
        match v {
            Value::Integer(n) => Ok(n),
            Value::Handle(_, n) => Ok(n),
            _ => Err(wrong_kind(ObjectKind::Integer, v)),
        }
    }

    fn from_object(obj: Object) -> (r: Result<i64, Error>) {
        match obj {
            Object::Integer(n) => Ok(n),
            Object::Handle(_, n) => Ok(n),
            other => Err(Error::FromWrongType { expected: ObjectKind::Integer, actual: other.kind() }),
        }
    }
}

impl ToObject for i64 {
    open spec fn encode(x: i64) -> Result<Value, Error> {
        Ok(Value::Integer(x))
    }

    fn to_object(self) -> (r: Result<Object, Error>) {
        Ok(Object::Integer(self))
    }
}

impl RoundTrip for i64 {
    open spec fn representable(x: i64) -> bool {
        true
    }

    proof fn lemma_round_trip(x: i64) {
    }
}

// ---------------------------------------------------------------- i8

impl FromObject for i8 {
    /// Integers out of range fail with [`Error::FromInt`].
    open spec fn decode(v: Value) -> Result<i8, Error> {
        match i64::decode(v) {
            Ok(n) => if i8::MIN <= n && n <= i8::MAX {
                Ok(n as i8)
            } else {
                Err(Error::FromInt)
            },
            Err(e) => Err(e),
        }
    }

    fn from_object(obj: Object) -> (r: Result<i8, Error>) {
        match <i64 as FromObject>::from_object(obj) {
            Ok(n) => if i8::MIN as i64 <= n && n <= i8::MAX as i64 {
                Ok(n as i8)
            } else {
                Err(Error::FromInt)
            },
            Err(e) => Err(e),
        }
    }
}

impl ToObject for i8 {
    /// Widening to a 64-bit integer never fails.
    open spec fn encode(x: i8) -> Result<Value, Error> {
        Ok(Value::Integer(x as i64))
    }

    fn to_object(self) -> (r: Result<Object, Error>) {
        Ok(Object::Integer(self as i64))
    }
}

impl RoundTrip for i8 {
    open spec fn representable(x: i8) -> bool {
        true
    }

    proof fn lemma_round_trip(x: i8) {
    }
}

// ---------------------------------------------------------------- u8

impl FromObject for u8 {
    /// Integers out of range fail with [`Error::FromInt`].
    open spec fn decode(v: Value) -> Result<u8, Error> {
        match i64::decode(v) {
            Ok(n) => if u8::MIN <= n && n <= u8::MAX {
                Ok(n as u8)
            } else {
                Err(Error::FromInt)
            },
            Err(e) => Err(e),
        }
    }

    fn from_object(obj: Object) -> (r: Result<u8, Error>) {
        match <i64 as FromObject>::from_object(obj) {
            Ok(n) => if 0 <= n && n <= u8::MAX as i64 {
                Ok(n as u8)
            } else {
                Err(Error::FromInt)
            },
            Err(e) => Err(e),
        }
    }
}

impl ToObject for u8 {
    /// Widening to a 64-bit integer never fails.
    open spec fn encode(x: u8) -> Result<Value, Error> {
        Ok(Value::Integer(x as i64))
    }

    fn to_object(self) -> (r: Result<Object, Error>) {
        Ok(Object::Integer(self as i64))
    }
}

impl RoundTrip for u8 {
    open spec fn representable(x: u8) -> bool {
        true
    }

    proof fn lemma_round_trip(x: u8) {
    }
}

// ---------------------------------------------------------------- i16

impl FromObject for i16 {
    /// Integers out of range fail with [`Error::FromInt`].
    open spec fn decode(v: Value) -> Result<i16, Error> {
        match i64::decode(v) {
            Ok(n) => if i16::MIN <= n && n <= i16::MAX {
                Ok(n as i16)
            } else {
                Err(Error::FromInt)
            },
            Err(e) => Err(e),
        }
    }

    fn from_object(obj: Object) -> (r: Result<i16, Error>) {
        match <i64 as FromObject>::from_object(obj) {
            Ok(n) => if i16::MIN as i64 <= n && n <= i16::MAX as i64 {
                Ok(n as i16)
            } else {
                Err(Error::FromInt)
            },
            Err(e) => Err(e),
        }
    }
}

impl ToObject for i16 {
    /// Widening to a 64-bit integer never fails.
    open spec fn encode(x: i16) -> Result<Value, Error> {
        Ok(Value::Integer(x as i64))
    }

    fn to_object(self) -> (r: Result<Object, Error>) {
        Ok(Object::Integer(self as i64))
    }
}

impl RoundTrip for i16 {
    open spec fn representable(x: i16) -> bool {
        true
    }

    proof fn lemma_round_trip(x: i16) {
    }
}

// ---------------------------------------------------------------- u16

impl FromObject for u16 {
    /// Integers out of range fail with [`Error::FromInt`].
    open spec fn decode(v: Value) -> Result<u16, Error> {
        match i64::decode(v) {
            Ok(n) => if u16::MIN <= n && n <= u16::MAX {
                Ok(n as u16)
            } else {
                Err(Error::FromInt)
            },
            Err(e) => Err(e),
        }
    }

    fn from_object(obj: Object) -> (r: Result<u16, Error>) {
        match <i64 as FromObject>::from_object(obj) {
            Ok(n) => if 0 <= n && n <= u16::MAX as i64 {
                Ok(n as u16)
            } else {
                Err(Error::FromInt)
            },
            Err(e) => Err(e),
        }
    }
}

impl ToObject for u16 {
    /// Widening to a 64-bit integer never fails.
    open spec fn encode(x: u16) -> Result<Value, Error> {
        Ok(Value::Integer(x as i64))
    }

    fn to_object(self) -> (r: Result<Object, Error>) {
        Ok(Object::Integer(self as i64))
    }
}

impl RoundTrip for u16 {
    open spec fn representable(x: u16) -> bool {
        true
    }

    proof fn lemma_round_trip(x: u16) {
    }
}

// ---------------------------------------------------------------- i32

impl FromObject for i32 {
    /// Integers out of range fail with [`Error::FromInt`].
    open spec fn decode(v: Value) -> Result<i32, Error> {
        match i64::decode(v) {
            Ok(n) => if i32::MIN <= n && n <= i32::MAX {
                Ok(n as i32)
            } else {
                Err(Error::FromInt)
            },
            Err(e) => Err(e),
        }
    }

    fn from_object(obj: Object) -> (r: Result<i32, Error>) {
        match <i64 as FromObject>::from_object(obj) {
            Ok(n) => if i32::MIN as i64 <= n && n <= i32::MAX as i64 {
                Ok(n as i32)
            } else {
                Err(Error::FromInt)
            },
            Err(e) => Err(e),
        }
    }
}

impl ToObject for i32 {
    /// Widening to a 64-bit integer never fails.
    open spec fn encode(x: i32) -> Result<Value, Error> {
        Ok(Value::Integer(x as i64))
    }

    fn to_object(self) -> (r: Result<Object, Error>) {
        Ok(Object::Integer(self as i64))
    }
}

impl RoundTrip for i32 {
    open spec fn representable(x: i32) -> bool {
        true
    }

    proof fn lemma_round_trip(x: i32) {
    }
}

// ---------------------------------------------------------------- u32

impl FromObject for u32 {
    /// Integers out of range fail with [`Error::FromInt`].
    open spec fn decode(v: Value) -> Result<u32, Error> {
        match i64::decode(v) {
            Ok(n) => if u32::MIN <= n && n <= u32::MAX {
                Ok(n as u32)
            } else {
                Err(Error::FromInt)
            },
            Err(e) => Err(e),
        }
    }

    fn from_object(obj: Object) -> (r: Result<u32, Error>) {
        match <i64 as FromObject>::from_object(obj) {
            Ok(n) => if 0 <= n && n <= u32::MAX as i64 {
                Ok(n as u32)
            } else {
                Err(Error::FromInt)
            },
            Err(e) => Err(e),
        }
    }
}

impl ToObject for u32 {
    /// Widening to a 64-bit integer never fails.
    open spec fn encode(x: u32) -> Result<Value, Error> {
        Ok(Value::Integer(x as i64))
    }

    fn to_object(self) -> (r: Result<Object, Error>) {
        Ok(Object::Integer(self as i64))
    }
}

impl RoundTrip for u32 {
    open spec fn representable(x: u32) -> bool {
        true
    }

    proof fn lemma_round_trip(x: u32) {
    }
}

// ---------------------------------------------------------------- u64

impl FromObject for u64 {
    /// Integers out of range fail with [`Error::FromInt`].
    open spec fn decode(v: Value) -> Result<u64, Error> {
        match i64::decode(v) {
            Ok(n) => if u64::MIN <= n && n <= u64::MAX {
                Ok(n as u64)
            } else {
                Err(Error::FromInt)
            },
            Err(e) => Err(e),
        }
    }

    fn from_object(obj: Object) -> (r: Result<u64, Error>) {
        match <i64 as FromObject>::from_object(obj) {
            Ok(n) => if 0 <= n {
                Ok(n as u64)
            } else {
                Err(Error::FromInt)
            },
            Err(e) => Err(e),
        }
    }
}

impl ToObject for u64 {
    /// Values out of the 64-bit signed range fail with [`Error::FromInt`].
    open spec fn encode(x: u64) -> Result<Value, Error> {
        if i64::MIN <= x && x <= i64::MAX {
            Ok(Value::Integer(x as i64))
        } else {
            Err(Error::FromInt)
        }
    }

    fn to_object(self) -> (r: Result<Object, Error>) {
        if self <= i64::MAX as u64 {
            Ok(Object::Integer(self as i64))
        } else {
            Err(Error::FromInt)
        }
    }
}

impl RoundTrip for u64 {
    open spec fn representable(x: u64) -> bool {
        i64::MIN <= x && x <= i64::MAX
    }

    proof fn lemma_round_trip(x: u64) {
    }
}

// ---------------------------------------------------------------- usize

impl FromObject for usize {
    /// Integers out of range fail with [`Error::FromInt`].
    open spec fn decode(v: Value) -> Result<usize, Error> {
        match i64::decode(v) {
            Ok(n) => if usize::MIN <= n && n <= usize::MAX {
                Ok(n as usize)
            } else {
                Err(Error::FromInt)
            },
            Err(e) => Err(e),
        }
    }

    fn from_object(obj: Object) -> (r: Result<usize, Error>) {
        match <i64 as FromObject>::from_object(obj) {
            Ok(n) => if 0 <= n && n as u64 <= usize::MAX as u64 {
                Ok(n as usize)
            } else {
                Err(Error::FromInt)
            },
            Err(e) => Err(e),
        }
    }
}

impl ToObject for usize {
    /// Values out of the 64-bit signed range fail with [`Error::FromInt`].
    open spec fn encode(x: usize) -> Result<Value, Error> {
        if i64::MIN <= x && x <= i64::MAX {
            Ok(Value::Integer(x as i64))
        } else {
            Err(Error::FromInt)
        }
    }

    fn to_object(self) -> (r: Result<Object, Error>) {
        if self as u64 <= i64::MAX as u64 {
            Ok(Object::Integer(self as i64))
        } else {
            Err(Error::FromInt)
        }
    }
}

impl RoundTrip for usize {
    open spec fn representable(x: usize) -> bool {
        i64::MIN <= x && x <= i64::MAX
    }

    proof fn lemma_round_trip(x: usize) {
    }
}

// ---------------------------------------------------------------- isize

impl FromObject for isize {
    /// Integers out of range fail with [`Error::FromInt`].
    open spec fn decode(v: Value) -> Result<isize, Error> {
        match i64::decode(v) {
            Ok(n) => if isize::MIN <= n && n <= isize::MAX {
                Ok(n as isize)
            } else {
                Err(Error::FromInt)
            },
            Err(e) => Err(e),
        }
    }

    fn from_object(obj: Object) -> (r: Result<isize, Error>) {
        match <i64 as FromObject>::from_object(obj) {
            Ok(n) => if isize::MIN as i64 <= n && n <= isize::MAX as i64 {
                Ok(n as isize)
            } else {
                Err(Error::FromInt)
            },
            Err(e) => Err(e),
        }
    }
}

impl ToObject for isize {
    /// Widening to a 64-bit integer never fails.
    open spec fn encode(x: isize) -> Result<Value, Error> {
        Ok(Value::Integer(x as i64))
    }

    fn to_object(self) -> (r: Result<Object, Error>) {
        Ok(Object::Integer(self as i64))
    }
}

impl RoundTrip for isize {
    open spec fn representable(x: isize) -> bool {
        true
    }

    proof fn lemma_round_trip(x: isize) {
    }
}

// ---------------------------------------------------------------- i128

impl FromObject for i128 {
    /// Every integer fits.
    open spec fn decode(v: Value) -> Result<i128, Error> {
        match i64::decode(v) {
            Ok(n) => Ok(n as i128),
            Err(e) => Err(e),
        }
    }

    fn from_object(obj: Object) -> (r: Result<i128, Error>) {
        match <i64 as FromObject>::from_object(obj) {
            Ok(n) => Ok(n as i128),
            Err(e) => Err(e),
        }
    }
}

impl ToObject for i128 {
    /// Values out of the 64-bit signed range fail with [`Error::FromInt`].
    open spec fn encode(x: i128) -> Result<Value, Error> {
        if i64::MIN <= x && x <= i64::MAX {
            Ok(Value::Integer(x as i64))
        } else {
            Err(Error::FromInt)
        }
    }

    fn to_object(self) -> (r: Result<Object, Error>) {
        if i64::MIN as i128 <= self && self <= i64::MAX as i128 {
            Ok(Object::Integer(self as i64))
        } else {
            Err(Error::FromInt)
        }
    }
}

impl RoundTrip for i128 {
    open spec fn representable(x: i128) -> bool {
        i64::MIN <= x && x <= i64::MAX
    }

    proof fn lemma_round_trip(x: i128) {
    }
}

// ---------------------------------------------------------------- u128

impl FromObject for u128 {
    /// Integers out of range fail with [`Error::FromInt`].
    open spec fn decode(v: Value) -> Result<u128, Error> {
        match i64::decode(v) {
            Ok(n) => if u128::MIN <= n && n <= u128::MAX {
                Ok(n as u128)
            } else {
                Err(Error::FromInt)
            },
            Err(e) => Err(e),
        }
    }

    fn from_object(obj: Object) -> (r: Result<u128, Error>) {
        match <i64 as FromObject>::from_object(obj) {
            Ok(n) => if 0 <= n {
                Ok(n as u128)
            } else {
                Err(Error::FromInt)
            },
            Err(e) => Err(e),
        }
    }
}

impl ToObject for u128 {
    /// Values out of the 64-bit signed range fail with [`Error::FromInt`].
    open spec fn encode(x: u128) -> Result<Value, Error> {
        if i64::MIN <= x && x <= i64::MAX {
            Ok(Value::Integer(x as i64))
        } else {
            Err(Error::FromInt)
        }
    }

    fn to_object(self) -> (r: Result<Object, Error>) {
        if self <= i64::MAX as u128 {
            Ok(Object::Integer(self as i64))
        } else {
            Err(Error::FromInt)
        }
    }
}

impl RoundTrip for u128 {
    open spec fn representable(x: u128) -> bool {
        i64::MIN <= x && x <= i64::MAX
    }

    proof fn lemma_round_trip(x: u128) {
    }
}

// ---------------------------------------------------------------- Float

impl FromObject for Float {
    open spec fn decode(v: Value) -> Result<u64, Error> {
        match v {
            Value::Float(x) => Ok(x),
            _ => Err(wrong_kind(ObjectKind::Float, v)),
        }
    }

    fn from_object(obj: Object) -> (r: Result<Float, Error>) {
        match obj {
            Object::Float(x) => Ok(x),
            other => Err(Error::FromWrongType { expected: ObjectKind::Float, actual: other.kind() }),
        }
    }
}

impl ToObject for Float {
    open spec fn encode(x: u64) -> Result<Value, Error> {
        Ok(Value::Float(x))
    }

    fn to_object(self) -> (r: Result<Object, Error>) {
        Ok(Object::Float(self))
    }
}

impl RoundTrip for Float {
    open spec fn representable(x: u64) -> bool {
        true
    }

    proof fn lemma_round_trip(x: u64) {
    }
}

// ---------------------------------------------------------------- ByteString

impl FromObject for ByteString {
    open spec fn decode(v: Value) -> Result<Seq<u8>, Error> {
        match v {
            Value::String(x) => Ok(x),
            _ => Err(wrong_kind(ObjectKind::String, v)),
        }
    }

    fn from_object(obj: Object) -> (r: Result<ByteString, Error>) {
        match obj {
            Object::String(x) => Ok(x),
            other => Err(Error::FromWrongType { expected: ObjectKind::String, actual: other.kind() }),
        }
    }
}

impl ToObject for ByteString {
    open spec fn encode(x: Seq<u8>) -> Result<Value, Error> {
        Ok(Value::String(x))
    }

    fn to_object(self) -> (r: Result<Object, Error>) {
        Ok(Object::String(self))
    }
}

impl RoundTrip for ByteString {
    open spec fn representable(x: Seq<u8>) -> bool {
        true
    }

    proof fn lemma_round_trip(x: Seq<u8>) {
    }
}

// ---------------------------------------------------------------- Array

impl FromObject for Array {
    open spec fn decode(v: Value) -> Result<Seq<Value>, Error> {
        match v {
            Value::Array(x) => Ok(x),
            _ => Err(wrong_kind(ObjectKind::Array, v)),
        }
    }

    fn from_object(obj: Object) -> (r: Result<Array, Error>) {
        match obj {
            Object::Array(x) => Ok(x),
            other => Err(Error::FromWrongType { expected: ObjectKind::Array, actual: other.kind() }),
        }
    }
}

impl ToObject for Array {
    open spec fn encode(x: Seq<Value>) -> Result<Value, Error> {
        Ok(Value::Array(x))
    }

    fn to_object(self) -> (r: Result<Object, Error>) {
        Ok(Object::Array(self))
    }
}

impl RoundTrip for Array {
    open spec fn representable(x: Seq<Value>) -> bool {
        true
    }

    proof fn lemma_round_trip(x: Seq<Value>) {
    }
}

// ---------------------------------------------------------------- Dictionary

impl FromObject for Dictionary {
    open spec fn decode(v: Value) -> Result<Seq<(Seq<u8>, Value)>, Error> {
        match v {
            Value::Dictionary(x) => Ok(x),
            _ => Err(wrong_kind(ObjectKind::Dictionary, v)),
        }
    }

    fn from_object(obj: Object) -> (r: Result<Dictionary, Error>) {
        match obj {
            Object::Dictionary(x) => Ok(x),
            other => Err(Error::FromWrongType { expected: ObjectKind::Dictionary, actual: other.kind() }),
        }
    }
}

impl ToObject for Dictionary {
    open spec fn encode(x: Seq<(Seq<u8>, Value)>) -> Result<Value, Error> {
        Ok(Value::Dictionary(x))
    }

    fn to_object(self) -> (r: Result<Object, Error>) {
        Ok(Object::Dictionary(self))
    }
}

impl RoundTrip for Dictionary {
    open spec fn representable(x: Seq<(Seq<u8>, Value)>) -> bool {
        true
    }

    proof fn lemma_round_trip(x: Seq<(Seq<u8>, Value)>) {
    }
}

// ---------------------------------------------------------------- Function

impl FromObject for Function {
    open spec fn decode(v: Value) -> Result<i32, Error> {
        match v {
            Value::LuaRef(x) => Ok(x),
            _ => Err(wrong_kind(ObjectKind::LuaRef, v)),
        }
    }

    fn from_object(obj: Object) -> (r: Result<Function, Error>) {
        match obj {
            Object::LuaRef(x) => Ok(x),
            other => Err(Error::FromWrongType { expected: ObjectKind::LuaRef, actual: other.kind() }),
        }
    }
}

impl ToObject for Function {
    open spec fn encode(x: i32) -> Result<Value, Error> {
        Ok(Value::LuaRef(x))
    }

    fn to_object(self) -> (r: Result<Object, Error>) {
        Ok(Object::LuaRef(self))
    }
}

impl RoundTrip for Function {
    open spec fn representable(x: i32) -> bool {
        true
    }

    proof fn lemma_round_trip(x: i32) {
    }
}

// ---------------------------------------------------------------- String

/// Relies on `String::from_utf8`: it succeeds exactly on valid UTF-8, and
/// the string it returns holds the characters those bytes encode.
#[verifier::external_body]
fn string_from_utf8(bytes: Vec<u8>) -> (r: Option<String>)
    ensures
        r is Some <==> valid_utf8(bytes@),
        r matches Some(s) ==> s@ == decode_utf8(bytes@),
{
    String::from_utf8(bytes).ok()
}

impl FromObject for String {
    /// Byte strings decode when they are valid UTF-8.
    open spec fn decode(v: Value) -> Result<Seq<char>, Error> {
        match v {
            Value::String(b) => if valid_utf8(b) {
                Ok(decode_utf8(b))
            } else {
                Err(Error::FromUtf8)
            },
            _ => Err(wrong_kind(ObjectKind::String, v)),
        }
    }

    fn from_object(obj: Object) -> (r: Result<String, Error>) {
        match obj {
            Object::String(s) => match string_from_utf8(s.bytes) {
                Some(text) => Ok(text),
                None => Err(Error::FromUtf8),
            },
            other => Err(Error::FromWrongType { expected: ObjectKind::String, actual: other.kind() }),
        }
    }
}

impl ToObject for String {
    /// Text is stored as its UTF-8 encoding; this never fails.
    open spec fn encode(x: Seq<char>) -> Result<Value, Error> {
        Ok(Value::String(encode_utf8(x)))
    }

    fn to_object(self) -> (r: Result<Object, Error>) {
        let bytes = vstd::slice::slice_to_vec(self.as_str().as_bytes());
        Ok(Object::String(ByteString { bytes }))
    }
}

impl RoundTrip for String {
    open spec fn representable(x: Seq<char>) -> bool {
        true
    }

    proof fn lemma_round_trip(x: Seq<char>) {
        vstd::utf8::encode_utf8_valid_utf8(x);
        vstd::utf8::encode_utf8_decode_utf8(x);
    }
}

// ---------------------------------------------------------------- Option

impl<T: FromObject> FromObject for Option<T> {
    /// Nil, and nothing else, decodes to `None`.
    open spec fn decode(v: Value) -> Result<Option<<T as DeepView>::V>, Error> {
        match v {
            Value::Nil => Ok(None),
            _ => match T::decode(v) {
                Ok(x) => Ok(Some(x)),
                Err(e) => Err(e),
            },
        }
    }

    fn from_object(obj: Object) -> (r: Result<Option<T>, Error>) {
        if obj.is_nil() {
            Ok(None)
        } else {
            match T::from_object(obj) {
                Ok(x) => Ok(Some(x)),
                Err(e) => Err(e),
            }
        }
    }
}

impl<T: ToObject> ToObject for Option<T> {
    /// `None` encodes to nil, `Some(x)` as `x` does.
    open spec fn encode(x: Option<<T as DeepView>::V>) -> Result<Value, Error> {
        match x {
            None => Ok(Value::Nil),
            Some(y) => T::encode(y),
        }
    }

    fn to_object(self) -> (r: Result<Object, Error>) {
        match self {
            None => Ok(Object::Nil),
            Some(x) => x.to_object(),
        }
    }
}

impl<T: RoundTrip> RoundTrip for Option<T> {
    /// A present value that encodes to nil would come back as `None`.
    open spec fn representable(x: Option<<T as DeepView>::V>) -> bool {
        match x {
            None => true,
            Some(y) => T::representable(y) && T::encode(y) != Ok::<Value, Error>(Value::Nil),
        }
    }

    proof fn lemma_round_trip(x: Option<<T as DeepView>::V>) {
        if let Some(y) = x {
            T::lemma_round_trip(y);
        }
    }
}


// ---------------------------------------------------------------- Vec

/// Decodes each value in order; the first failure is the result.
pub open spec fn decode_seq<T: FromObject>(s: Seq<Value>) -> Result<Seq<<T as DeepView>::V>, Error>
    decreases s.len(),
{
    if s.len() == 0 {
        Ok(Seq::empty())
    } else {
        match decode_seq::<T>(s.drop_last()) {
            Ok(xs) => match T::decode(s.last()) {
                Ok(x) => Ok(xs.push(x)),
                Err(e) => Err(e),
            },
            Err(e) => Err(e),
        }
    }
}

/// Encodes each value in order; the first failure is the result.
pub open spec fn encode_seq<T: ToObject>(xs: Seq<<T as DeepView>::V>) -> Result<Seq<Value>, Error>
    decreases xs.len(),
{
    if xs.len() == 0 {
        Ok(Seq::empty())
    } else {
        match encode_seq::<T>(xs.drop_last()) {
            Ok(vs) => match T::encode(xs.last()) {
                Ok(v) => Ok(vs.push(v)),
                Err(e) => Err(e),
            },
            Err(e) => Err(e),
        }
    }
}

/// A failure on a prefix is the failure of the whole sequence.
pub proof fn lemma_decode_seq_prefix_err<T: FromObject>(s: Seq<Value>, j: int)
    requires
        0 <= j <= s.len(),
        decode_seq::<T>(s.take(j)) is Err,
    ensures
        decode_seq::<T>(s) == decode_seq::<T>(s.take(j)),
    decreases s.len() - j,
{
    if j < s.len() {
        assert(s.take(j + 1).drop_last() =~= s.take(j));
        lemma_decode_seq_prefix_err::<T>(s, j + 1);
    } else {
        assert(s.take(j) =~= s);
    }
}

/// A failure on a prefix is the failure of the whole sequence.
pub proof fn lemma_encode_seq_prefix_err<T: ToObject>(xs: Seq<<T as DeepView>::V>, j: int)
    requires
        0 <= j <= xs.len(),
        encode_seq::<T>(xs.take(j)) is Err,
    ensures
        encode_seq::<T>(xs) == encode_seq::<T>(xs.take(j)),
    decreases xs.len() - j,
{
    if j < xs.len() {
        assert(xs.take(j + 1).drop_last() =~= xs.take(j));
        lemma_encode_seq_prefix_err::<T>(xs, j + 1);
    } else {
        assert(xs.take(j) =~= xs);
    }
}

impl<T: FromObject> FromObject for Vec<T> {
    /// Needs an array; elements decode in order and the first failure is the
    /// result.
    open spec fn decode(v: Value) -> Result<Seq<<T as DeepView>::V>, Error> {
        match v {
            Value::Array(s) => decode_seq::<T>(s),
            _ => Err(wrong_kind(ObjectKind::Array, v)),
        }
    }

    fn from_object(obj: Object) -> (r: Result<Vec<T>, Error>) {
        match obj {
            Object::Array(a) => {
                let ghost items = a.items@;
                let ghost s = a@;
                let mut out: Vec<T> = Vec::new();
                assert(s.take(0) =~= Seq::<Value>::empty());
                assert(out.deep_view() =~= Seq::<<T as DeepView>::V>::empty());
                for o in it: a.items.into_iter()
                    invariant
                        it.seq() == items,
                        obj@ == Value::Array(s),
                        s == crate::object::values_of(items),
                        decode_seq::<T>(s.take(it.index())) == Ok::<Seq<<T as DeepView>::V>, Error>(out.deep_view()),
                {
                    let ghost i = it.index();
                    proof {
                        assert(s.take(i + 1).drop_last() =~= s.take(i));
                        assert(s.take(i + 1).last() == o@);
                    }
                    match T::from_object(o) {
                        Ok(x) => {
                            let ghost before = out.deep_view();
                            out.push(x);
                            assert(out.deep_view() =~= before.push(x.deep_view()));
                        },
                        Err(e) => {
                            proof {
                                assert(T::decode(o@) == Err::<<T as DeepView>::V, Error>(e));
                                assert(decode_seq::<T>(s.take(i + 1)) == Err::<Seq<<T as DeepView>::V>, Error>(e));
                                lemma_decode_seq_prefix_err::<T>(s, i + 1);
                            }
                            return Err(e);
                        },
                    }
                }
                assert(s.take(s.len() as int) =~= s);
                Ok(out)
            },
            other => Err(Error::FromWrongType { expected: ObjectKind::Array, actual: other.kind() }),
        }
    }
}

impl<T: ToObject> ToObject for Vec<T> {
    /// Gives an array; elements encode in order and the first failure is the
    /// result.
    open spec fn encode(xs: Seq<<T as DeepView>::V>) -> Result<Value, Error> {
        match encode_seq::<T>(xs) {
            Ok(vs) => Ok(Value::Array(vs)),
            Err(e) => Err(e),
        }
    }

    fn to_object(self) -> (r: Result<Object, Error>) {
        let ghost xs = self.deep_view();
        let ghost elems = self@;
        let mut items: Vec<Object> = Vec::new();
        assert(xs.take(0) =~= Seq::<<T as DeepView>::V>::empty());
        assert(crate::object::values_of(items@) =~= Seq::<Value>::empty());
        for x in it: self.into_iter()
            invariant
                it.seq() == elems,
                xs == Seq::new(elems.len(), |i: int| elems[i].deep_view()),
                encode_seq::<T>(xs.take(it.index())) == Ok::<Seq<Value>, Error>(crate::object::values_of(items@)),
        {
            let ghost i = it.index();
            proof {
                assert(xs.take(i + 1).drop_last() =~= xs.take(i));
                assert(xs.take(i + 1).last() == x.deep_view());
            }
            match x.to_object() {
                Ok(o) => {
                    let ghost before = items@;
                    items.push(o);
                    assert(crate::object::values_of(items@) =~= crate::object::values_of(before).push(o@));
                },
                Err(e) => {
                    proof {
                        lemma_encode_seq_prefix_err::<T>(xs, i + 1);
                    }
                    return Err(e);
                },
            }
        }
        assert(xs.take(xs.len() as int) =~= xs);
        Ok(Object::Array(Array { items }))
    }
}

/// Round trip of a sequence whose elements all round-trip.
pub proof fn lemma_seq_round_trip<T: RoundTrip>(xs: Seq<<T as DeepView>::V>)
    requires
        forall|i: int| 0 <= i < xs.len() ==> T::representable(#[trigger] xs[i]),
    ensures
        encode_seq::<T>(xs) is Ok,
        decode_seq::<T>(encode_seq::<T>(xs)->Ok_0) == Ok::<Seq<<T as DeepView>::V>, Error>(xs),
    decreases xs.len(),
{
    if xs.len() > 0 {
        let init = xs.drop_last();
        assert forall|i: int| 0 <= i < init.len() implies T::representable(#[trigger] init[i]) by {
            assert(init[i] == xs[i]);
        }
        lemma_seq_round_trip::<T>(init);
        T::lemma_round_trip(xs.last());
        let prev = encode_seq::<T>(init)->Ok_0;
        let v = T::encode(xs.last())->Ok_0;
        let vs = encode_seq::<T>(xs)->Ok_0;
        assert(vs == prev.push(v));
        assert(vs.drop_last() =~= prev);
        assert(vs.last() == v);
        assert(decode_seq::<T>(vs) == Ok::<Seq<<T as DeepView>::V>, Error>(init.push(xs.last())));
        assert(init.push(xs.last()) =~= xs);
    } else {
        assert(xs =~= Seq::<<T as DeepView>::V>::empty());
    }
}

impl<T: RoundTrip> RoundTrip for Vec<T> {
    open spec fn representable(xs: Seq<<T as DeepView>::V>) -> bool {
        forall|i: int| 0 <= i < xs.len() ==> T::representable(#[trigger] xs[i])
    }

    proof fn lemma_round_trip(xs: Seq<<T as DeepView>::V>) {
        lemma_seq_round_trip::<T>(xs);
    }
}

// ---------------------------------------------------------------- tuples

impl<A: FromObject> FromObject for (A,) {
    /// Needs an array of exactly one element, and fails as that element
    /// does.
    open spec fn decode(v: Value) -> Result<(<A as DeepView>::V,), Error> {
        match v {
            Value::Array(s) => if s.len() != 1 {
                Err(Error::WrongArity { expected: 1, actual: s.len() as usize })
            } else {
                match A::decode(s[0]) {
                    Err(e) => Err(e),
                    Ok(x0) => Ok((x0,)),
                }
            },
            _ => Err(wrong_kind(ObjectKind::Array, v)),
        }
    }

    fn from_object(obj: Object) -> (r: Result<(A,), Error>) {
        match obj {
            Object::Array(a) => {
                let ghost s = a@;
                let mut items = a.items;
                if items.len() != 1 {
                    return Err(Error::WrongArity { expected: 1, actual: items.len() });
                }
                let ghost all = items@;
                let o0 = items.pop().unwrap();
                assert(forall|i: int| 0 <= i < 1 ==> s[i] == all[i]@);
                match A::from_object(o0) {
                    Err(e) => Err(e),
                    Ok(x0) => Ok((x0,)),
                }
            },
            other => Err(Error::FromWrongType { expected: ObjectKind::Array, actual: other.kind() }),
        }
    }
}

impl<A: FromObject, B: FromObject> FromObject for (A, B) {
    /// Needs an array of exactly 2 elements; they decode in order and
    /// the first failure is the result.
    open spec fn decode(v: Value) -> Result<(<A as DeepView>::V, <B as DeepView>::V), Error> {
        match v {
            Value::Array(s) => if s.len() != 2 {
                Err(Error::WrongArity { expected: 2, actual: s.len() as usize })
            } else {
                match A::decode(s[0]) {
                    Err(e) => Err(e),
                    Ok(x0) => match B::decode(s[1]) {
                        Err(e) => Err(e),
                        Ok(x1) => Ok((x0, x1)),
                    },
                }
            },
            _ => Err(wrong_kind(ObjectKind::Array, v)),
        }
    }

    fn from_object(obj: Object) -> (r: Result<(A, B), Error>) {
        match obj {
            Object::Array(a) => {
                let ghost s = a@;
                let mut items = a.items;
                if items.len() != 2 {
                    return Err(Error::WrongArity { expected: 2, actual: items.len() });
                }
                let ghost all = items@;
                let o1 = items.pop().unwrap();
                let o0 = items.pop().unwrap();
                assert(forall|i: int| 0 <= i < 2 ==> s[i] == all[i]@);
                match A::from_object(o0) {
                    Err(e) => Err(e),
                    Ok(x0) => match B::from_object(o1) {
                        Err(e) => Err(e),
                        Ok(x1) => Ok((x0, x1)),
                    },
                }
            },
            other => Err(Error::FromWrongType { expected: ObjectKind::Array, actual: other.kind() }),
        }
    }
}

impl<A: FromObject, B: FromObject, C: FromObject> FromObject for (A, B, C) {
    /// Needs an array of exactly 3 elements; they decode in order and
    /// the first failure is the result.
    open spec fn decode(v: Value) -> Result<(<A as DeepView>::V, <B as DeepView>::V, <C as DeepView>::V), Error> {
        match v {
            Value::Array(s) => if s.len() != 3 {
                Err(Error::WrongArity { expected: 3, actual: s.len() as usize })
            } else {
                match A::decode(s[0]) {
                    Err(e) => Err(e),
                    Ok(x0) => match B::decode(s[1]) {
                        Err(e) => Err(e),
                        Ok(x1) => match C::decode(s[2]) {
                            Err(e) => Err(e),
                            Ok(x2) => Ok((x0, x1, x2)),
                        },
                    },
                }
            },
            _ => Err(wrong_kind(ObjectKind::Array, v)),
        }
    }

    fn from_object(obj: Object) -> (r: Result<(A, B, C), Error>) {
        match obj {
            Object::Array(a) => {
                let ghost s = a@;
                let mut items = a.items;
                if items.len() != 3 {
                    return Err(Error::WrongArity { expected: 3, actual: items.len() });
                }
                let ghost all = items@;
                let o2 = items.pop().unwrap();
                let o1 = items.pop().unwrap();
                let o0 = items.pop().unwrap();
                assert(forall|i: int| 0 <= i < 3 ==> s[i] == all[i]@);
                match A::from_object(o0) {
                    Err(e) => Err(e),
                    Ok(x0) => match B::from_object(o1) {
                        Err(e) => Err(e),
                        Ok(x1) => match C::from_object(o2) {
                            Err(e) => Err(e),
                            Ok(x2) => Ok((x0, x1, x2)),
                        },
                    },
                }
            },
            other => Err(Error::FromWrongType { expected: ObjectKind::Array, actual: other.kind() }),
        }
    }
}

impl<A: FromObject, B: FromObject, C: FromObject, D: FromObject> FromObject for (A, B, C, D) {
    /// Needs an array of exactly 4 elements; they decode in order and
    /// the first failure is the result.
    open spec fn decode(v: Value) -> Result<(<A as DeepView>::V, <B as DeepView>::V, <C as DeepView>::V, <D as DeepView>::V), Error> {
        match v {
            Value::Array(s) => if s.len() != 4 {
                Err(Error::WrongArity { expected: 4, actual: s.len() as usize })
            } else {
                match A::decode(s[0]) {
                    Err(e) => Err(e),
                    Ok(x0) => match B::decode(s[1]) {
                        Err(e) => Err(e),
                        Ok(x1) => match C::decode(s[2]) {
                            Err(e) => Err(e),
                            Ok(x2) => match D::decode(s[3]) {
                                Err(e) => Err(e),
                                Ok(x3) => Ok((x0, x1, x2, x3)),
                            },
                        },
                    },
                }
            },
            _ => Err(wrong_kind(ObjectKind::Array, v)),
        }
    }

    fn from_object(obj: Object) -> (r: Result<(A, B, C, D), Error>) {
        match obj {
            Object::Array(a) => {
                let ghost s = a@;
                let mut items = a.items;
                if items.len() != 4 {
                    return Err(Error::WrongArity { expected: 4, actual: items.len() });
                }
                let ghost all = items@;
                let o3 = items.pop().unwrap();
                let o2 = items.pop().unwrap();
                let o1 = items.pop().unwrap();
                let o0 = items.pop().unwrap();
                assert(forall|i: int| 0 <= i < 4 ==> s[i] == all[i]@);
                match A::from_object(o0) {
                    Err(e) => Err(e),
                    Ok(x0) => match B::from_object(o1) {
                        Err(e) => Err(e),
                        Ok(x1) => match C::from_object(o2) {
                            Err(e) => Err(e),
                            Ok(x2) => match D::from_object(o3) {
                                Err(e) => Err(e),
                                Ok(x3) => Ok((x0, x1, x2, x3)),
                            },
                        },
                    },
                }
            },
            other => Err(Error::FromWrongType { expected: ObjectKind::Array, actual: other.kind() }),
        }
    }
}

} // verus!
verus! {

// ---------------------------------------------------------------- laws

/// Decoding from an object of the wrong tag fails with
/// [`Error::FromWrongType`], naming the tag the target type expects and the
/// tag the object has.
pub proof fn lemma_tag_mismatch<T: FromObject>(v: Value)
    ensures
        !(v is Nil) ==> <()>::decode(v) == Err::<(), Error>(wrong_kind(ObjectKind::Nil, v)),
        !(v is Boolean) ==> bool::decode(v) == Err::<bool, Error>(wrong_kind(ObjectKind::Boolean, v)),
        !(v is Integer || v is Handle) ==> i64::decode(v) == Err::<i64, Error>(wrong_kind(ObjectKind::Integer, v)),
        !(v is Integer || v is Handle) ==> i32::decode(v) == Err::<i32, Error>(wrong_kind(ObjectKind::Integer, v)),
        !(v is Float) ==> Float::decode(v) == Err::<u64, Error>(wrong_kind(ObjectKind::Float, v)),
        !(v is String) ==> ByteString::decode(v) == Err::<Seq<u8>, Error>(wrong_kind(ObjectKind::String, v)),
        !(v is String) ==> String::decode(v) == Err::<Seq<char>, Error>(wrong_kind(ObjectKind::String, v)),
        !(v is Array) ==> Array::decode(v) == Err::<Seq<Value>, Error>(wrong_kind(ObjectKind::Array, v)),
        !(v is Dictionary) ==> Dictionary::decode(v) == Err::<Seq<(Seq<u8>, Value)>, Error>(wrong_kind(ObjectKind::Dictionary, v)),
        !(v is LuaRef) ==> Function::decode(v) == Err::<i32, Error>(wrong_kind(ObjectKind::LuaRef, v)),
        !(v is Array) ==> Vec::<T>::decode(v) == Err::<Seq<<T as DeepView>::V>, Error>(wrong_kind(ObjectKind::Array, v)),
        !(v is Array) ==> <(T, T)>::decode(v) == Err::<(<T as DeepView>::V, <T as DeepView>::V), Error>(wrong_kind(ObjectKind::Array, v)),
{
}

/// Nil, and only nil, decodes to `None`; any other object decodes as the
/// inner type does, failing with the inner type's error.
pub proof fn lemma_option_decode<T: FromObject>(v: Value)
    ensures
        v is Nil ==> Option::<T>::decode(v) == Ok::<Option<<T as DeepView>::V>, Error>(None),
        !(v is Nil) && T::decode(v) is Ok ==> Option::<T>::decode(v) == Ok::<Option<<T as DeepView>::V>, Error>(Some(T::decode(v)->Ok_0)),
        !(v is Nil) && T::decode(v) is Err ==> Option::<T>::decode(v) == Err::<Option<<T as DeepView>::V>, Error>(T::decode(v)->Err_0),
{
}

/// A three-element tuple decoded from an array of another length fails with
/// an arity error, never a kind error; from three elements, the first element
/// that fails gives its own error.
pub proof fn lemma_tuple_arity<A: FromObject, B: FromObject, C: FromObject>(s: Seq<Value>)
    ensures
        s.len() != 3 ==> <(A, B, C)>::decode(Value::Array(s)) == Err::<(<A as DeepView>::V, <B as DeepView>::V, <C as DeepView>::V), Error>(
            Error::WrongArity { expected: 3, actual: s.len() as usize },
        ),
        s.len() == 3 && A::decode(s[0]) is Err ==> <(A, B, C)>::decode(Value::Array(s)) == Err::<(<A as DeepView>::V, <B as DeepView>::V, <C as DeepView>::V), Error>(
            A::decode(s[0])->Err_0,
        ),
        s.len() == 3 && A::decode(s[0]) is Ok && B::decode(s[1]) is Err ==> <(A, B, C)>::decode(Value::Array(s)) == Err::<(<A as DeepView>::V, <B as DeepView>::V, <C as DeepView>::V), Error>(
            B::decode(s[1])->Err_0,
        ),
        s.len() == 3 && A::decode(s[0]) is Ok && B::decode(s[1]) is Ok && C::decode(s[2]) is Err ==> <(A, B, C)>::decode(Value::Array(s)) == Err::<(<A as DeepView>::V, <B as DeepView>::V, <C as DeepView>::V), Error>(
            C::decode(s[2])->Err_0,
        ),
{
}

} // verus!
