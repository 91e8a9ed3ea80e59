//! Properties (attributes, annotations) attached to declarations.
use crate::model::identity::{HasName, Identifier};
use crate::model::values::{HasOptionalValue, Value};
use vstd::prelude::*;

verus! {

/// A named attribute of a declaration, optionally with a value.
#[derive(Clone, Debug)]
pub struct Property {
    pub name: Identifier,
    pub value: Option<Value>,
}

/// An entity that carries a list of properties (attributes, annotations).
pub trait HasProperties: Sized {
    /// The properties field.
    spec fn properties_of(&self) -> Vec<Property>;

    /// This value with the properties field replaced.
    spec fn with_properties(self, properties: Vec<Property>) -> Self;

    fn properties(&self) -> (r: &Vec<Property>)
        ensures
            *r == self.properties_of(),
    ;

    fn has_properties(&self) -> (r: bool)
        ensures
            r == (self.properties_of()@.len() > 0),
    {
        self.properties().len() > 0
    }

    fn set_properties(&mut self, properties: Vec<Property>) -> (r: &mut Self)
        ensures
            *r == old(self).with_properties(properties),
            *final(self) == *final(r),
    ;

    /// Appends a property after those already present.
    fn add_property(&mut self, property: Property) -> (r: &mut Self)
        ensures
            r.properties_of()@ == old(self).properties_of()@.push(property),
            *r == old(self).with_properties(r.properties_of()),
            *final(self) == *final(r),
    ;
}

/// An entity that is either required or optional, independently of its type.
pub trait IsOptional: Sized {
    /// The optional flag.
    spec fn optional_of(&self) -> bool;

    /// This value with the optional flag replaced.
    spec fn with_optional(self, optional: bool) -> Self;

    fn is_optional(&self) -> (r: bool)
        ensures
            r == self.optional_of(),
    ;

    fn optional(&mut self) -> (r: &mut Self)
        ensures
            *r == old(self).with_optional(true),
            *final(self) == *final(r),
    ;

    fn is_required(&self) -> (r: bool)
        ensures
            r == !self.optional_of(),
    {
        !self.is_optional()
    }

    fn required(&mut self) -> (r: &mut Self)
        ensures
            *r == old(self).with_optional(false),
            *final(self) == *final(r),
    ;
}

impl HasName for Property {
    open spec fn name_of(&self) -> Identifier {
        self.name
    }

    open spec fn with_name(self, name: Identifier) -> Self {
        Property { name, ..self }
    }

    fn name(&self) -> (r: &Identifier) {
        &self.name
    }

    fn set_name(&mut self, name: Identifier) -> (r: &mut Self) {
        self.name = name;
        self
    }
}

impl HasOptionalValue for Property {
    open spec fn optional_value_of(&self) -> Option<Value> {
        self.value
    }

    open spec fn with_optional_value(self, value: Option<Value>) -> Self {
        Property { value, ..self }
    }

    fn value(&self) -> (r: &Option<Value>) {
        &self.value
    }

    fn set_value(&mut self, value: Value) -> (r: &mut Self) {
        self.value = Some(value);
        self
    }

    fn unset_value(&mut self) -> (r: &mut Self) {
        self.value = None;
        self
    }
}

impl Property {
    pub fn new(name: Identifier) -> (r: Property)
        ensures
            r == (Property { name, value: None }),
    {
        Property { name, value: None }
    }

    pub fn with_value(name: Identifier, value: Value) -> (r: Property)
        ensures
            r == (Property { name, value: Some(value) }),
    {
        Property { name, value: Some(value) }
    }
}

} // verus!
