//! The dynamic value exchanged across the host boundary.
use vstd::prelude::*;

verus! {

/// Kind of host-side object an opaque handle refers to.
#[derive(Clone, Copy, Debug, PartialEq, Eq, Structural)]
pub enum HandleKind {
    Buffer,
    Window,
    TabPage,
}

/// The tag of an [`Object`].
#[derive(Clone, Copy, Debug, PartialEq, Eq, Structural)]
pub enum ObjectKind {
    Nil,
    Boolean,
    Integer,
    Float,
    String,
    Array,
    Dictionary,
    LuaRef,
    Buffer,
    Window,
    TabPage,
}

/// A 64-bit float, held as its IEEE-754 bit pattern.
#[derive(Clone, Copy, Debug, PartialEq, Eq, Structural)]
pub struct Float {
    pub bits: u64,
}

/// An owned byte buffer; not required to be valid UTF-8.
#[derive(Debug)]
pub struct ByteString {
    pub bytes: Vec<u8>,
}

/// Opaque reference into the host's callback table.
#[derive(Clone, Copy, Debug, PartialEq, Eq, Structural)]
pub struct Function {
    pub luaref: i32,
}

/// Ordered sequence of objects.
#[derive(Debug)]
pub struct Array {
    pub items: Vec<Object>,
}

/// Sequence of key/value pairs, kept in insertion order.
#[derive(Debug)]
pub struct Dictionary {
    pub entries: Vec<(ByteString, Object)>,
}

/// Any value of the scripting host.
#[derive(Debug)]
pub enum Object {
    Nil,
    Boolean(bool),
    Integer(i64),
    Float(Float),
    String(ByteString),
    Array(Array),
    Dictionary(Dictionary),
    Handle(HandleKind, i64),
    LuaRef(Function),
}

/// Mathematical model of an [`Object`].
pub enum Value {
    Nil,
    Boolean(bool),
    Integer(i64),
    Float(u64),
    String(Seq<u8>),
    Array(Seq<Value>),
    Dictionary(Seq<(Seq<u8>, Value)>),
    Handle(HandleKind, i64),
    LuaRef(i32),
}

impl View for ByteString {
    type V = Seq<u8>;

    open spec fn view(&self) -> Seq<u8> {
        self.bytes@
    }
}

/// The tag of an object with model `v`.
pub open spec fn kind_of(v: Value) -> ObjectKind {
    match v {
        Value::Nil => ObjectKind::Nil,
        Value::Boolean(_) => ObjectKind::Boolean,
        Value::Integer(_) => ObjectKind::Integer,
        Value::Float(_) => ObjectKind::Float,
        Value::String(_) => ObjectKind::String,
        Value::Array(_) => ObjectKind::Array,
        Value::Dictionary(_) => ObjectKind::Dictionary,
        Value::Handle(HandleKind::Buffer, _) => ObjectKind::Buffer,
        Value::Handle(HandleKind::Window, _) => ObjectKind::Window,
        Value::Handle(HandleKind::TabPage, _) => ObjectKind::TabPage,
        Value::LuaRef(_) => ObjectKind::LuaRef,
    }
}

/// The model of an object: the same tree, with sequences for vectors.
pub open spec fn object_value(o: &Object) -> Value
    decreases o,
    via object_value_decreases
{
    match o {
        Object::Nil => Value::Nil,
        Object::Boolean(b) => Value::Boolean(*b),
        Object::Integer(n) => Value::Integer(*n),
        Object::Float(f) => Value::Float(f.bits),
        Object::String(s) => Value::String(s.bytes@),
        Object::Array(a) => Value::Array(
            Seq::new(
                a.items@.len(),
                |i: int|
                    if 0 <= i < a.items@.len() {
                        object_value(&a.items@[i])
                    } else {
                        Value::Nil
                    },
            ),
        ),
        Object::Dictionary(d) => Value::Dictionary(
            Seq::new(
                d.entries@.len(),
                |i: int|
                    if 0 <= i < d.entries@.len() {
                        (d.entries@[i].0.bytes@, object_value(&d.entries@[i].1))
                    } else {
                        (Seq::empty(), Value::Nil)
                    },
            ),
        ),
        Object::Handle(k, n) => Value::Handle(*k, *n),
        Object::LuaRef(f) => Value::LuaRef(f.luaref),
    }
}

impl View for Object {
    type V = Value;

    open spec fn view(&self) -> Value {
        object_value(self)
    }
}

impl DeepView for Object {
    type V = Value;

    open spec fn deep_view(&self) -> Value {
        object_value(self)
    }
}

impl DeepView for ByteString {
    type V = Seq<u8>;

    open spec fn deep_view(&self) -> Seq<u8> {
        self.bytes@
    }
}

/// The models of a sequence of objects.
pub open spec fn values_of(items: Seq<Object>) -> Seq<Value> {
    Seq::new(items.len(), |i: int| items[i]@)
}

impl View for Array {
    type V = Seq<Value>;

    open spec fn view(&self) -> Seq<Value> {
        values_of(self.items@)
    }
}

impl DeepView for Array {
    type V = Seq<Value>;

    open spec fn deep_view(&self) -> Seq<Value> {
        self@
    }
}

impl View for Dictionary {
    type V = Seq<(Seq<u8>, Value)>;

    open spec fn view(&self) -> Seq<(Seq<u8>, Value)> {
        Seq::new(self.entries@.len(), |i: int| (self.entries@[i].0@, self.entries@[i].1@))
    }
}

impl DeepView for Dictionary {
    type V = Seq<(Seq<u8>, Value)>;

    open spec fn deep_view(&self) -> Seq<(Seq<u8>, Value)> {
        self@
    }
}

impl DeepView for Float {
    type V = u64;

    open spec fn deep_view(&self) -> u64 {
        self.bits
    }
}

impl DeepView for Function {
    type V = i32;

    open spec fn deep_view(&self) -> i32 {
        self.luaref
    }
}

impl ByteString {
    pub fn from_bytes(bytes: Vec<u8>) -> (r: ByteString)
        ensures
            r@ == bytes@,
    {
        ByteString { bytes }
    }

    pub fn copy(&self) -> (r: ByteString)
        ensures
            r@ == self@,
    {
        ByteString { bytes: self.bytes.clone() }
    }

    pub fn len(&self) -> (r: usize)
        ensures
            r == self@.len(),
    {
        self.bytes.len()
    }
}

impl Array {
    pub fn new() -> (r: Array)
        ensures
            r@ == Seq::<Value>::empty(),
    {
        Array { items: Vec::new() }
    }

    pub fn len(&self) -> (r: usize)
        ensures
            r == self@.len(),
    {
        self.items.len()
    }

    pub fn push(&mut self, o: Object)
        ensures
            final(self)@ == old(self)@.push(o@),
    {
        self.items.push(o);
        assert(final(self)@ =~= old(self)@.push(o@));
    }
}

impl Dictionary {
    pub fn new() -> (r: Dictionary)
        ensures
            r@ == Seq::<(Seq<u8>, Value)>::empty(),
    {
        Dictionary { entries: Vec::new() }
    }

    pub fn len(&self) -> (r: usize)
        ensures
            r == self@.len(),
    {
        self.entries.len()
    }

    /// The value of the last entry whose key is `key`: when a key repeats,
    /// the last write wins.
    pub fn get(&self, key: &[u8]) -> (r: Option<&Object>)
        ensures
            r is Some <==> exists|i: int| 0 <= i < self@.len() && self@[i].0 == key@,
            r matches Some(v) ==> exists|i: int|
                0 <= i < self@.len() && self@[i].0 == key@ && v@ == self@[i].1
                    && forall|j: int| i < j < self@.len() ==> self@[j].0 != key@,
    {
        let mut i: usize = self.entries.len();
        while i > 0
            invariant
                i <= self.entries@.len(),
                forall|j: int| i <= j < self@.len() ==> self@[j].0 != key@,
            decreases i,
        {
            i = i - 1;
            if bytes_eq(self.entries[i].0.bytes.as_slice(), key) {
                assert(self@[i as int].0 == key@);
                assert(self@[i as int].1 == self.entries@[i as int].1@);
                return Some(&self.entries[i].1);
            }
        }
        None
    }

    /// Appends an entry; keys are not required to be unique.
    pub fn push(&mut self, key: ByteString, value: Object)
        ensures
            final(self)@ == old(self)@.push((key@, value@)),
    {
        self.entries.push((key, value));
        assert(final(self)@ =~= old(self)@.push((key@, value@)));
    }
}

/// Whether two byte slices hold the same bytes.
pub fn bytes_eq(a: &[u8], b: &[u8]) -> (r: bool)
    ensures
        r == (a@ == b@),
{
    if a.len() != b.len() {
        return false;
    }
    let mut i: usize = 0;
    while i < a.len()
        invariant
            a@.len() == b@.len(),
            i <= a@.len(),
            forall|j: int| 0 <= j < i ==> a@[j] == b@[j],
        decreases a@.len() - i,
    {
        if a[i] != b[i] {
            return false;
        }
        i = i + 1;
    }
    assert(a@ =~= b@);
    true
}

impl Object {
    /// The tag of this object.
    pub fn kind(&self) -> (r: ObjectKind)
        ensures
            r == kind_of(self@),
    {
        match self {
            Object::Nil => ObjectKind::Nil,
            Object::Boolean(_) => ObjectKind::Boolean,
            Object::Integer(_) => ObjectKind::Integer,
            Object::Float(_) => ObjectKind::Float,
            Object::String(_) => ObjectKind::String,
            Object::Array(_) => ObjectKind::Array,
            Object::Dictionary(_) => ObjectKind::Dictionary,
            Object::Handle(HandleKind::Buffer, _) => ObjectKind::Buffer,
            Object::Handle(HandleKind::Window, _) => ObjectKind::Window,
            Object::Handle(HandleKind::TabPage, _) => ObjectKind::TabPage,
            Object::LuaRef(_) => ObjectKind::LuaRef,
        }
    }

    pub fn is_nil(&self) -> (r: bool)
        ensures
            r == (self@ is Nil),
    {
        match self {
            Object::Nil => true,
            _ => false,
        }
    }

    /// A deep, owned copy of this object.
    pub fn copy(&self) -> (r: Object)
        ensures
            r@ == self@,
        decreases self,
    {
        match self {
            Object::Nil => Object::Nil,
            Object::Boolean(b) => Object::Boolean(*b),
            Object::Integer(n) => Object::Integer(*n),
            Object::Float(f) => Object::Float(*f),
            Object::String(s) => Object::String(s.copy()),
            Object::Array(a) => {
                proof {
                    broadcast use vstd::std_specs::vec::axiom_vec_index_decreases;
                    assert forall|j: int| 0 <= j < a.items@.len() implies decreases_to!(self => a.items[j]) by {
                        assert(decreases_to!(a.items => a.items[j]));
                    }
                }
                let mut items: Vec<Object> = Vec::new();
                let mut i: usize = 0;
                while i < a.items.len()
                    invariant
                        forall|j: int| 0 <= j < a.items@.len() ==> decreases_to!(self => a.items[j]),
                        i <= a.items@.len(),
                        items@.len() == i,
                        forall|j: int| 0 <= j < i ==> items@[j]@ == a.items@[j]@,
                    decreases a.items@.len() - i,
                {
                    items.push(a.items[i].copy());
                    i = i + 1;
                }
                let r = Object::Array(Array { items });
                assert(r@->Array_0 =~= self@->Array_0);
                r
            },
            Object::Dictionary(d) => {
                proof {
                    broadcast use vstd::std_specs::vec::axiom_vec_index_decreases;
                    assert forall|j: int| 0 <= j < d.entries@.len() implies decreases_to!(self => d.entries[j].1) by {
                        assert(decreases_to!(d.entries => d.entries[j]));
                    }
                }
                let mut entries: Vec<(ByteString, Object)> = Vec::new();
                let mut i: usize = 0;
                while i < d.entries.len()
                    invariant
                        forall|j: int| 0 <= j < d.entries@.len() ==> decreases_to!(self => d.entries[j].1),
                        i <= d.entries@.len(),
                        entries@.len() == i,
                        forall|j: int| 0 <= j < i ==> entries@[j].0@ == d.entries@[j].0@ && entries@[j].1@ == d.entries@[j].1@,
                    decreases d.entries@.len() - i,
                {
                    let entry = &d.entries[i];
                    entries.push((entry.0.copy(), entry.1.copy()));
                    i = i + 1;
                }
                let r = Object::Dictionary(Dictionary { entries });
                assert(r@->Dictionary_0 =~= self@->Dictionary_0);
                r
            },
            Object::Handle(k, n) => Object::Handle(*k, *n),
            Object::LuaRef(f) => Object::LuaRef(*f),
        }
    }
}

/// An array object's model is the array's model.
pub broadcast proof fn lemma_array_value(a: Array)
    ensures
        #[trigger] object_value(&Object::Array(a)) == Value::Array(a@),
{
    assert(object_value(&Object::Array(a))->Array_0 =~= a@);
}

/// A dictionary object's model is the dictionary's model.
pub broadcast proof fn lemma_dictionary_value(d: Dictionary)
    ensures
        #[trigger] object_value(&Object::Dictionary(d)) == Value::Dictionary(d@),
{
    assert(object_value(&Object::Dictionary(d))->Dictionary_0 =~= d@);
}

#[via_fn]
proof fn object_value_decreases(o: &Object) {
    broadcast use vstd::std_specs::vec::axiom_vec_index_decreases;

    match o {
        Object::Array(a) => {
            assert forall|i: int| 0 <= i < a.items@.len() implies decreases_to!(o => a.items@[i]) by {
                assert(decreases_to!(a.items => a.items[i]));
            }
        },
        Object::Dictionary(d) => {
            assert forall|i: int| 0 <= i < d.entries@.len() implies decreases_to!(o => d.entries@[i].1) by {
                assert(decreases_to!(d.entries => d.entries[i]));
            }
        },
        _ => {},
    }
}

} // verus!
