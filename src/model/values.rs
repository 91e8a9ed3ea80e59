//! Type expressions and literal values.
use crate::model::identity::{HasName, Identifier};
use crate::model::comments::HasDocumentation;
use crate::model::modules::{HasVisibility, Visibility};
use crate::model::properties::{HasProperties, Property};
use vstd::prelude::*;

verus! {

/// The primitive types that every target syntax knows.
#[derive(Clone, Copy, Debug, PartialEq, Eq, Structural)]
pub enum KnownType {
    I8,
    U8,
    I16,
    U16,
    I32,
    U32,
    I64,
    U64,
    F32,
    F64,
    Boolean,
    Char,
    String,
}

/// A type expression. `Constrained` and `Generic` are meant to carry at least one bound
/// or argument type (see `ValueType::wf`); `Array`, `SetOf` and `MapOf` box their
/// element types.
#[derive(Debug)]
pub enum ValueType {
    Known(KnownType),
    Reference(Identifier),
    Array(Box<ValueType>),
    SetOf(Box<ValueType>),
    MapOf(Box<ValueType>, Box<ValueType>),
    Constrained(Identifier, Vec<ValueType>),
    Generic(Identifier, Vec<ValueType>),
    Function(Vec<ValueType>, Option<Box<ValueType>>),
}

impl ValueType {
    /// `Constrained` and `Generic` carry at least one type, here and in every nested type.
    pub open spec fn wf(self) -> bool
        decreases self,
    {
        match self {
            ValueType::Known(_) => true,
            ValueType::Reference(_) => true,
            ValueType::Array(t) => t.wf(),
            ValueType::SetOf(t) => t.wf(),
            ValueType::MapOf(k, v) => k.wf() && v.wf(),
            ValueType::Constrained(_, ts) => ts@.len() > 0 && forall|i: int|
                0 <= i < ts@.len() ==> (#[trigger] ts@[i]).wf(),
            ValueType::Generic(_, ts) => ts@.len() > 0 && forall|i: int|
                0 <= i < ts@.len() ==> (#[trigger] ts@[i]).wf(),
            ValueType::Function(ps, rt) => (forall|i: int|
                0 <= i < ps@.len() ==> (#[trigger] ps@[i]).wf()) && match rt {
                Some(t) => t.wf(),
                None => true,
            },
        }
    }

    pub fn i8() -> (r: ValueType)
        ensures
            r == ValueType::Known(KnownType::I8),
    {
        ValueType::Known(KnownType::I8)
    }

    pub fn u8() -> (r: ValueType)
        ensures
            r == ValueType::Known(KnownType::U8),
    {
        ValueType::Known(KnownType::U8)
    }

    pub fn i16() -> (r: ValueType)
        ensures
            r == ValueType::Known(KnownType::I16),
    {
        ValueType::Known(KnownType::I16)
    }

    pub fn u16() -> (r: ValueType)
        ensures
            r == ValueType::Known(KnownType::U16),
    {
        ValueType::Known(KnownType::U16)
    }

    pub fn i32() -> (r: ValueType)
        ensures
            r == ValueType::Known(KnownType::I32),
    {
        ValueType::Known(KnownType::I32)
    }

    pub fn u32() -> (r: ValueType)
        ensures
            r == ValueType::Known(KnownType::U32),
    {
        ValueType::Known(KnownType::U32)
    }

    pub fn i64() -> (r: ValueType)
        ensures
            r == ValueType::Known(KnownType::I64),
    {
        ValueType::Known(KnownType::I64)
    }

    pub fn u64() -> (r: ValueType)
        ensures
            r == ValueType::Known(KnownType::U64),
    {
        ValueType::Known(KnownType::U64)
    }

    pub fn float32() -> (r: ValueType)
        ensures
            r == ValueType::Known(KnownType::F32),
    {
        ValueType::Known(KnownType::F32)
    }

    pub fn float64() -> (r: ValueType)
        ensures
            r == ValueType::Known(KnownType::F64),
    {
        ValueType::Known(KnownType::F64)
    }

    pub fn boolean() -> (r: ValueType)
        ensures
            r == ValueType::Known(KnownType::Boolean),
    {
        ValueType::Known(KnownType::Boolean)
    }

    pub fn character() -> (r: ValueType)
        ensures
            r == ValueType::Known(KnownType::Char),
    {
        ValueType::Known(KnownType::Char)
    }

    pub fn string() -> (r: ValueType)
        ensures
            r == ValueType::Known(KnownType::String),
    {
        ValueType::Known(KnownType::String)
    }

    /// An array of `member_type`.
    pub fn array_of(member_type: ValueType) -> (r: ValueType)
        ensures
            r == ValueType::Array(Box::new(member_type)),
    {
        ValueType::Array(Box::new(member_type))
    }

    /// A set of `member_type`.
    pub fn set_of(member_type: ValueType) -> (r: ValueType)
        ensures
            r == ValueType::SetOf(Box::new(member_type)),
    {
        ValueType::SetOf(Box::new(member_type))
    }

    /// A map from `key_type` to `value_type`.
    pub fn map_of(key_type: ValueType, value_type: ValueType) -> (r: ValueType)
        ensures
            r == ValueType::MapOf(Box::new(key_type), Box::new(value_type)),
    {
        ValueType::MapOf(Box::new(key_type), Box::new(value_type))
    }
}

/// A literal value. Floating-point literals are held as their decimal text; a
/// `NamedValues` literal holds its entries as key and value pairs, in order.
#[derive(Debug)]
pub enum Value {
    I8(i8),
    U8(u8),
    I16(i16),
    U16(u16),
    I32(i32),
    U32(u32),
    I64(i64),
    U64(u64),
    F32(String),
    F64(String),
    Boolean(bool),
    Char(char),
    String(String),
    Values(Vec<Value>),
    NamedValues(Vec<(Value, Value)>),
    Identifier(Identifier),
}

impl Clone for ValueType {
    fn clone(&self) -> Self {
        copy_type(self)
    }
}

fn copy_type(t: &ValueType) -> ValueType
    decreases t,
{
    match t {
        ValueType::Known(k) => ValueType::Known(*k),
        ValueType::Reference(n) => ValueType::Reference(n.clone()),
        ValueType::Array(e) => ValueType::Array(Box::new(copy_type(e))),
        ValueType::SetOf(e) => ValueType::SetOf(Box::new(copy_type(e))),
        ValueType::MapOf(k, v) => ValueType::MapOf(Box::new(copy_type(k)), Box::new(copy_type(v))),
        ValueType::Constrained(n, ts) => ValueType::Constrained(n.clone(), copy_types(ts)),
        ValueType::Generic(n, ts) => ValueType::Generic(n.clone(), copy_types(ts)),
        ValueType::Function(ps, rt) => ValueType::Function(
            copy_types(ps),
            match rt {
                Some(t) => Some(Box::new(copy_type(t))),
                None => None,
            },
        ),
    }
}

fn copy_types(ts: &Vec<ValueType>) -> Vec<ValueType>
    decreases ts,
{
    broadcast use vstd::std_specs::vec::group_vec_axioms;

    let mut r: Vec<ValueType> = Vec::new();
    let n = ts.len();
    let mut i: usize = 0;
    while i < n
        invariant
            n == ts@.len(),
        decreases n - i,
    {
        r.push(copy_type(&ts[i]));
        i += 1;
    }
    r
}

impl Clone for Value {
    fn clone(&self) -> Self {
        copy_value(self)
    }
}

fn copy_value(v: &Value) -> Value
    decreases v,
{
    match v {
        Value::I8(x) => Value::I8(*x),
        Value::U8(x) => Value::U8(*x),
        Value::I16(x) => Value::I16(*x),
        Value::U16(x) => Value::U16(*x),
        Value::I32(x) => Value::I32(*x),
        Value::U32(x) => Value::U32(*x),
        Value::I64(x) => Value::I64(*x),
        Value::U64(x) => Value::U64(*x),
        Value::F32(x) => Value::F32(x.clone()),
        Value::F64(x) => Value::F64(x.clone()),
        Value::Boolean(x) => Value::Boolean(*x),
        Value::Char(x) => Value::Char(*x),
        Value::String(x) => Value::String(x.clone()),
        Value::Values(vs) => Value::Values(copy_values(vs)),
        Value::NamedValues(ps) => Value::NamedValues(copy_pairs(ps)),
        Value::Identifier(x) => Value::Identifier(x.clone()),
    }
}

fn copy_values(vs: &Vec<Value>) -> Vec<Value>
    decreases vs,
{
    broadcast use vstd::std_specs::vec::group_vec_axioms;

    let mut r: Vec<Value> = Vec::new();
    let n = vs.len();
    let mut i: usize = 0;
    while i < n
        invariant
            n == vs@.len(),
        decreases n - i,
    {
        r.push(copy_value(&vs[i]));
        i += 1;
    }
    r
}

fn copy_pairs(ps: &Vec<(Value, Value)>) -> Vec<(Value, Value)>
    decreases ps,
{
    broadcast use vstd::std_specs::vec::group_vec_axioms;

    let mut r: Vec<(Value, Value)> = Vec::new();
    let n = ps.len();
    let mut i: usize = 0;
    while i < n
        invariant
            n == ps@.len(),
        decreases n - i,
    {
        let (k, v) = &ps[i];
        r.push((copy_value(k), copy_value(v)));
        i += 1;
    }
    r
}

impl Value {
    /// The primitive type of a scalar literal; none for lists, maps and identifiers,
    /// whose type depends on their context.
    pub open spec fn canonical_type(self) -> Option<ValueType> {
        match self {
            Value::I8(_) => Some(ValueType::Known(KnownType::I8)),
            Value::U8(_) => Some(ValueType::Known(KnownType::U8)),
            Value::I16(_) => Some(ValueType::Known(KnownType::I16)),
            Value::U16(_) => Some(ValueType::Known(KnownType::U16)),
            Value::I32(_) => Some(ValueType::Known(KnownType::I32)),
            Value::U32(_) => Some(ValueType::Known(KnownType::U32)),
            Value::I64(_) => Some(ValueType::Known(KnownType::I64)),
            Value::U64(_) => Some(ValueType::Known(KnownType::U64)),
            Value::F32(_) => Some(ValueType::Known(KnownType::F32)),
            Value::F64(_) => Some(ValueType::Known(KnownType::F64)),
            Value::Boolean(_) => Some(ValueType::Known(KnownType::Boolean)),
            Value::Char(_) => Some(ValueType::Known(KnownType::Char)),
            Value::String(_) => Some(ValueType::Known(KnownType::String)),
            Value::Values(_) => None,
            Value::NamedValues(..) => None,
            Value::Identifier(_) => None,
        }
    }

    /// The primitive type of a scalar literal, or `None` for a composite or identifier.
    pub fn value_type(&self) -> (r: Option<ValueType>)
        ensures
            r == self.canonical_type(),
    {
        match self {
            Value::I8(_) => Some(ValueType::Known(KnownType::I8)),
            Value::U8(_) => Some(ValueType::Known(KnownType::U8)),
            Value::I16(_) => Some(ValueType::Known(KnownType::I16)),
            Value::U16(_) => Some(ValueType::Known(KnownType::U16)),
            Value::I32(_) => Some(ValueType::Known(KnownType::I32)),
            Value::U32(_) => Some(ValueType::Known(KnownType::U32)),
            Value::I64(_) => Some(ValueType::Known(KnownType::I64)),
            Value::U64(_) => Some(ValueType::Known(KnownType::U64)),
            Value::F32(_) => Some(ValueType::Known(KnownType::F32)),
            Value::F64(_) => Some(ValueType::Known(KnownType::F64)),
            Value::Boolean(_) => Some(ValueType::Known(KnownType::Boolean)),
            Value::Char(_) => Some(ValueType::Known(KnownType::Char)),
            Value::String(_) => Some(ValueType::Known(KnownType::String)),
            Value::Values(_) => None,
            Value::NamedValues(..) => None,
            Value::Identifier(_) => None,
        }
    }

    /// A string literal.
    pub fn from_str(v: &str) -> (r: Value)
        ensures
            r matches Value::String(s) && s@ == v@,
    {
        Value::String(String::from_str(v))
    }
}

/// An entity with a type.
pub trait HasType: Sized {
    /// The type field.
    spec fn type_of(&self) -> ValueType;

    /// This value with the type field replaced.
    spec fn with_type(self, value_type: ValueType) -> Self;

    fn value_type(&self) -> (r: &ValueType)
        ensures
            *r == self.type_of(),
    ;

    fn set_value_type(&mut self, value_type: ValueType) -> (r: &mut Self)
        ensures
            *r == old(self).with_type(value_type),
            *final(self) == *final(r),
    ;
}

/// An entity that may carry a type.
pub trait HasOptionalType: Sized {
    /// The type field.
    spec fn optional_type_of(&self) -> Option<ValueType>;

    /// This value with the type field replaced.
    spec fn with_optional_type(self, value_type: Option<ValueType>) -> Self;

    fn value_type(&self) -> (r: &Option<ValueType>)
        ensures
            *r == self.optional_type_of(),
    ;

    fn has_value_type(&self) -> (r: bool)
        ensures
            r == self.optional_type_of() is Some,
    {
        self.value_type().is_some()
    }

    fn set_value_type(&mut self, value_type: ValueType) -> (r: &mut Self)
        ensures
            *r == old(self).with_optional_type(Some(value_type)),
            *final(self) == *final(r),
    ;

    fn unset_value_type(&mut self) -> (r: &mut Self)
        ensures
            *r == old(self).with_optional_type(None),
            *final(self) == *final(r),
    ;
}

/// An entity with a value.
pub trait HasValue: Sized {
    /// The value field.
    spec fn value_of(&self) -> Value;

    /// This value with the value field replaced.
    spec fn with_value_of(self, value: Value) -> Self;

    fn value(&self) -> (r: &Value)
        ensures
            *r == self.value_of(),
    ;

    fn set_value(&mut self, value: Value) -> (r: &mut Self)
        ensures
            *r == old(self).with_value_of(value),
            *final(self) == *final(r),
    ;
}

/// An entity that may carry a value.
pub trait HasOptionalValue: Sized {
    /// The value field.
    spec fn optional_value_of(&self) -> Option<Value>;

    /// This value with the value field replaced.
    spec fn with_optional_value(self, value: Option<Value>) -> Self;

    fn value(&self) -> (r: &Option<Value>)
        ensures
            *r == self.optional_value_of(),
    ;

    fn has_value(&self) -> (r: bool)
        ensures
            r == self.optional_value_of() is Some,
    {
        self.value().is_some()
    }

    fn set_value(&mut self, value: Value) -> (r: &mut Self)
        ensures
            *r == old(self).with_optional_value(Some(value)),
            *final(self) == *final(r),
    ;

    fn unset_value(&mut self) -> (r: &mut Self)
        ensures
            *r == old(self).with_optional_value(None),
            *final(self) == *final(r),
    ;
}

/// A named, typed value: a constant or a variable. It always carries both its type and
/// its value.
#[derive(Clone, Debug)]
pub struct NamedValue {
    pub properties: Vec<Property>,
    pub visibility: Option<Visibility>,
    pub name: Identifier,
    pub documentation: Option<String>,
    pub value_type: ValueType,
    pub value: Value,
}

impl HasProperties for NamedValue {
    open spec fn properties_of(&self) -> Vec<Property> {
        self.properties
    }

    open spec fn with_properties(self, properties: Vec<Property>) -> Self {
        NamedValue { properties, ..self }
    }

    fn properties(&self) -> (r: &Vec<Property>) {
        &self.properties
    }

    fn set_properties(&mut self, properties: Vec<Property>) -> (r: &mut Self) {
        self.properties = properties;
        self
    }

    fn add_property(&mut self, property: Property) -> (r: &mut Self) {
        self.properties.push(property);
        self
    }
}

impl HasVisibility for NamedValue {
    open spec fn visibility_of(&self) -> Option<Visibility> {
        self.visibility
    }

    open spec fn with_visibility_of(self, visibility: Option<Visibility>) -> Self {
        NamedValue { visibility, ..self }
    }

    fn visibility(&self) -> (r: &Option<Visibility>) {
        &self.visibility
    }

    fn set_visibility(&mut self, visibility: Visibility) -> (r: &mut Self) {
        self.visibility = Some(visibility);
        self
    }

    fn unset_visibility(&mut self) -> (r: &mut Self) {
        self.visibility = None;
        self
    }
}

impl HasName for NamedValue {
    open spec fn name_of(&self) -> Identifier {
        self.name
    }

    open spec fn with_name(self, name: Identifier) -> Self {
        NamedValue { name, ..self }
    }

    fn name(&self) -> (r: &Identifier) {
        &self.name
    }

    fn set_name(&mut self, name: Identifier) -> (r: &mut Self) {
        self.name = name;
        self
    }
}

impl HasDocumentation for NamedValue {
    open spec fn doc_of(&self) -> Option<String> {
        self.documentation
    }

    open spec fn with_doc(self, documentation: Option<String>) -> Self {
        NamedValue { documentation, ..self }
    }

    fn documentation(&self) -> (r: &Option<String>) {
        &self.documentation
    }

    fn set_documentation(&mut self, documentation: &str) -> (r: &mut Self) {
        self.documentation = Some(String::from_str(documentation));
        self
    }

    fn unset_documentation(&mut self) -> (r: &mut Self) {
        self.documentation = None;
        self
    }
}

impl HasType for NamedValue {
    open spec fn type_of(&self) -> ValueType {
        self.value_type
    }

    open spec fn with_type(self, value_type: ValueType) -> Self {
        NamedValue { value_type, ..self }
    }

    fn value_type(&self) -> (r: &ValueType) {
        &self.value_type
    }

    fn set_value_type(&mut self, value_type: ValueType) -> (r: &mut Self) {
        self.value_type = value_type;
        self
    }
}

impl HasValue for NamedValue {
    open spec fn value_of(&self) -> Value {
        self.value
    }

    open spec fn with_value_of(self, value: Value) -> Self {
        NamedValue { value, ..self }
    }

    fn value(&self) -> (r: &Value) {
        &self.value
    }

    fn set_value(&mut self, value: Value) -> (r: &mut Self) {
        self.value = value;
        self
    }
}

impl NamedValue {
    pub fn new(name: Identifier, value_type: ValueType, value: Value) -> (r: NamedValue)
        ensures
            r.properties@.len() == 0,
            r.visibility is None,
            r.name == name,
            r.documentation is None,
            r.value_type == value_type,
            r.value == value,
    {
        NamedValue {
            properties: Vec::new(),
            visibility: None,
            name,
            documentation: None,
            value_type,
            value,
        }
    }

    /// A named `i8` literal, typed by its literal.
    pub fn i8(name: Identifier, value: i8) -> (r: NamedValue)
        ensures
            r.properties@.len() == 0,
            r.visibility is None,
            r.name == name,
            r.documentation is None,
            r.value_type == ValueType::Known(KnownType::I8),
            r.value == Value::I8(value),
    {
        let value = Value::I8(value);
        let value_type = value.value_type();
        NamedValue::new(name, value_type.unwrap(), value)
    }

    /// A named `u8` literal, typed by its literal.
    pub fn u8(name: Identifier, value: u8) -> (r: NamedValue)
        ensures
            r.properties@.len() == 0,
            r.visibility is None,
            r.name == name,
            r.documentation is None,
            r.value_type == ValueType::Known(KnownType::U8),
            r.value == Value::U8(value),
    {
        let value = Value::U8(value);
        let value_type = value.value_type();
        NamedValue::new(name, value_type.unwrap(), value)
    }

    /// A named `i16` literal, typed by its literal.
    pub fn i16(name: Identifier, value: i16) -> (r: NamedValue)
        ensures
            r.properties@.len() == 0,
            r.visibility is None,
            r.name == name,
            r.documentation is None,
            r.value_type == ValueType::Known(KnownType::I16),
            r.value == Value::I16(value),
    {
        let value = Value::I16(value);
        let value_type = value.value_type();
        NamedValue::new(name, value_type.unwrap(), value)
    }

    /// A named `u16` literal, typed by its literal.
    pub fn u16(name: Identifier, value: u16) -> (r: NamedValue)
        ensures
            r.properties@.len() == 0,
            r.visibility is None,
            r.name == name,
            r.documentation is None,
            r.value_type == ValueType::Known(KnownType::U16),
            r.value == Value::U16(value),
    {
        let value = Value::U16(value);
        let value_type = value.value_type();
        NamedValue::new(name, value_type.unwrap(), value)
    }

    /// A named `i32` literal, typed by its literal.
    pub fn i32(name: Identifier, value: i32) -> (r: NamedValue)
        ensures
            r.properties@.len() == 0,
            r.visibility is None,
            r.name == name,
            r.documentation is None,
            r.value_type == ValueType::Known(KnownType::I32),
            r.value == Value::I32(value),
    {
        let value = Value::I32(value);
        let value_type = value.value_type();
        NamedValue::new(name, value_type.unwrap(), value)
    }

    /// A named `u32` literal, typed by its literal.
    pub fn u32(name: Identifier, value: u32) -> (r: NamedValue)
        ensures
            r.properties@.len() == 0,
            r.visibility is None,
            r.name == name,
            r.documentation is None,
            r.value_type == ValueType::Known(KnownType::U32),
            r.value == Value::U32(value),
    {
        let value = Value::U32(value);
        let value_type = value.value_type();
        NamedValue::new(name, value_type.unwrap(), value)
    }

    /// A named `i64` literal, typed by its literal.
    pub fn i64(name: Identifier, value: i64) -> (r: NamedValue)
        ensures
            r.properties@.len() == 0,
            r.visibility is None,
            r.name == name,
            r.documentation is None,
            r.value_type == ValueType::Known(KnownType::I64),
            r.value == Value::I64(value),
    {
        let value = Value::I64(value);
        let value_type = value.value_type();
        NamedValue::new(name, value_type.unwrap(), value)
    }

    /// A named `u64` literal, typed by its literal.
    pub fn u64(name: Identifier, value: u64) -> (r: NamedValue)
        ensures
            r.properties@.len() == 0,
            r.visibility is None,
            r.name == name,
            r.documentation is None,
            r.value_type == ValueType::Known(KnownType::U64),
            r.value == Value::U64(value),
    {
        let value = Value::U64(value);
        let value_type = value.value_type();
        NamedValue::new(name, value_type.unwrap(), value)
    }

    /// A named `bool` literal, typed by its literal.
    pub fn boolean(name: Identifier, value: bool) -> (r: NamedValue)
        ensures
            r.properties@.len() == 0,
            r.visibility is None,
            r.name == name,
            r.documentation is None,
            r.value_type == ValueType::Known(KnownType::Boolean),
            r.value == Value::Boolean(value),
    {
        let value = Value::Boolean(value);
        let value_type = value.value_type();
        NamedValue::new(name, value_type.unwrap(), value)
    }

    /// A named `char` literal, typed by its literal.
    pub fn character(name: Identifier, value: char) -> (r: NamedValue)
        ensures
            r.properties@.len() == 0,
            r.visibility is None,
            r.name == name,
            r.documentation is None,
            r.value_type == ValueType::Known(KnownType::Char),
            r.value == Value::Char(value),
    {
        let value = Value::Char(value);
        let value_type = value.value_type();
        NamedValue::new(name, value_type.unwrap(), value)
    }

    /// A named floating-point literal, given as its decimal text and typed by its literal.
    pub fn float32(name: Identifier, value: &str) -> (r: NamedValue)
        ensures
            r.properties@.len() == 0,
            r.visibility is None,
            r.name == name,
            r.documentation is None,
            r.value_type == ValueType::Known(KnownType::F32),
            r.value matches Value::F32(s) && s@ == value@,
    {
        let value = Value::F32(String::from_str(value));
        let value_type = value.value_type();
        NamedValue::new(name, value_type.unwrap(), value)
    }

    /// A named floating-point literal, given as its decimal text and typed by its literal.
    pub fn float64(name: Identifier, value: &str) -> (r: NamedValue)
        ensures
            r.properties@.len() == 0,
            r.visibility is None,
            r.name == name,
            r.documentation is None,
            r.value_type == ValueType::Known(KnownType::F64),
            r.value matches Value::F64(s) && s@ == value@,
    {
        let value = Value::F64(String::from_str(value));
        let value_type = value.value_type();
        NamedValue::new(name, value_type.unwrap(), value)
    }

    /// A named string literal typed by its literal.
    pub fn string(name: Identifier, value: &str) -> (r: NamedValue)
        ensures
            r.properties@.len() == 0,
            r.visibility is None,
            r.name == name,
            r.documentation is None,
            r.value_type == ValueType::Known(KnownType::String),
            r.value matches Value::String(s) && s@ == value@,
    {
        let value = Value::String(String::from_str(value));
        let value_type = value.value_type();
        NamedValue::new(name, value_type.unwrap(), value)
    }
}

} // verus!
