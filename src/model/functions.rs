//! Function declarations and their parameters.
use crate::model::comments::HasDocumentation;
use crate::model::identity::{HasName, Identifier};
use crate::model::modules::{HasVisibility, Visibility};
use crate::model::properties::{HasProperties, IsOptional, Property};
use crate::model::values::{HasOptionalType, HasOptionalValue, HasType, Value, ValueType};
use vstd::prelude::*;

verus! {

/// A parameter of a function declaration.
#[derive(Clone, Debug)]
pub struct Parameter {
    pub properties: Vec<Property>,
    pub optional: bool,
    pub name: Identifier,
    pub documentation: Option<String>,
    pub value_type: ValueType,
    pub value: Option<Value>,
}

/// A callable signature: declared, never defined.
#[derive(Clone, Debug)]
pub struct FunctionDecl {
    pub properties: Vec<Property>,
    pub visibility: Option<Visibility>,
    pub name: Identifier,
    pub documentation: Option<String>,
    pub parameters: Vec<Parameter>,
    pub value_type: Option<ValueType>,
}

impl HasProperties for Parameter {
    open spec fn properties_of(&self) -> Vec<Property> {
        self.properties
    }

    open spec fn with_properties(self, properties: Vec<Property>) -> Self {
        Parameter { properties, ..self }
    }

    fn properties(&self) -> (r: &Vec<Property>) {
        &self.properties
    }

    fn set_properties(&mut self, properties: Vec<Property>) -> (r: &mut Self) {
        self.properties = properties;
        self
    }

    fn add_property(&mut self, property: Property) -> (r: &mut Self) {
        self.properties.push(property);
        self
    }
}

impl IsOptional for Parameter {
    open spec fn optional_of(&self) -> bool {
        self.optional
    }

    open spec fn with_optional(self, optional: bool) -> Self {
        Parameter { optional, ..self }
    }

    fn is_optional(&self) -> (r: bool) {
        self.optional
    }

    fn optional(&mut self) -> (r: &mut Self) {
        self.optional = true;
        self
    }

    fn required(&mut self) -> (r: &mut Self) {
        self.optional = false;
        self
    }
}

impl HasName for Parameter {
    open spec fn name_of(&self) -> Identifier {
        self.name
    }

    open spec fn with_name(self, name: Identifier) -> Self {
        Parameter { name, ..self }
    }

    fn name(&self) -> (r: &Identifier) {
        &self.name
    }

    fn set_name(&mut self, name: Identifier) -> (r: &mut Self) {
        self.name = name;
        self
    }
}

impl HasDocumentation for Parameter {
    open spec fn doc_of(&self) -> Option<String> {
        self.documentation
    }

    open spec fn with_doc(self, documentation: Option<String>) -> Self {
        Parameter { documentation, ..self }
    }

    fn documentation(&self) -> (r: &Option<String>) {
        &self.documentation
    }

    fn set_documentation(&mut self, documentation: &str) -> (r: &mut Self) {
        self.documentation = Some(String::from_str(documentation));
        self
    }

    fn unset_documentation(&mut self) -> (r: &mut Self) {
        self.documentation = None;
        self
    }
}

impl HasType for Parameter {
    open spec fn type_of(&self) -> ValueType {
        self.value_type
    }

    open spec fn with_type(self, value_type: ValueType) -> Self {
        Parameter { value_type, ..self }
    }

    fn value_type(&self) -> (r: &ValueType) {
        &self.value_type
    }

    fn set_value_type(&mut self, value_type: ValueType) -> (r: &mut Self) {
        self.value_type = value_type;
        self
    }
}

impl HasOptionalValue for Parameter {
    open spec fn optional_value_of(&self) -> Option<Value> {
        self.value
    }

    open spec fn with_optional_value(self, value: Option<Value>) -> Self {
        Parameter { value, ..self }
    }

    fn value(&self) -> (r: &Option<Value>) {
        &self.value
    }

    fn set_value(&mut self, value: Value) -> (r: &mut Self) {
        self.value = Some(value);
        self
    }

    fn unset_value(&mut self) -> (r: &mut Self) {
        self.value = None;
        self
    }
}

impl Parameter {
    /// A required parameter with no default value.
    pub fn new(name: Identifier, value_type: ValueType) -> (r: Parameter)
        ensures
            r.properties@.len() == 0,
            !r.optional,
            r.name == name,
            r.documentation is None,
            r.value_type == value_type,
            r.value is None,
    {
        Parameter {
            properties: Vec::new(),
            optional: false,
            name,
            documentation: None,
            value_type,
            value: None,
        }
    }

    /// A required parameter with a default value.
    pub fn with_value(name: Identifier, value_type: ValueType, value: Value) -> (r: Parameter)
        ensures
            r.properties@.len() == 0,
            !r.optional,
            r.name == name,
            r.documentation is None,
            r.value_type == value_type,
            r.value == Some(value),
    {
        Parameter {
            properties: Vec::new(),
            optional: false,
            name,
            documentation: None,
            value_type,
            value: Some(value),
        }
    }
}

impl HasProperties for FunctionDecl {
    open spec fn properties_of(&self) -> Vec<Property> {
        self.properties
    }

    open spec fn with_properties(self, properties: Vec<Property>) -> Self {
        FunctionDecl { properties, ..self }
    }

    fn properties(&self) -> (r: &Vec<Property>) {
        &self.properties
    }

    fn set_properties(&mut self, properties: Vec<Property>) -> (r: &mut Self) {
        self.properties = properties;
        self
    }

    fn add_property(&mut self, property: Property) -> (r: &mut Self) {
        self.properties.push(property);
        self
    }
}

impl HasVisibility for FunctionDecl {
    open spec fn visibility_of(&self) -> Option<Visibility> {
        self.visibility
    }

    open spec fn with_visibility_of(self, visibility: Option<Visibility>) -> Self {
        FunctionDecl { visibility, ..self }
    }

    fn visibility(&self) -> (r: &Option<Visibility>) {
        &self.visibility
    }

    fn set_visibility(&mut self, visibility: Visibility) -> (r: &mut Self) {
        self.visibility = Some(visibility);
        self
    }

    fn unset_visibility(&mut self) -> (r: &mut Self) {
        self.visibility = None;
        self
    }
}

impl HasName for FunctionDecl {
    open spec fn name_of(&self) -> Identifier {
        self.name
    }

    open spec fn with_name(self, name: Identifier) -> Self {
        FunctionDecl { name, ..self }
    }

    fn name(&self) -> (r: &Identifier) {
        &self.name
    }

    fn set_name(&mut self, name: Identifier) -> (r: &mut Self) {
        self.name = name;
        self
    }
}

impl HasDocumentation for FunctionDecl {
    open spec fn doc_of(&self) -> Option<String> {
        self.documentation
    }

    open spec fn with_doc(self, documentation: Option<String>) -> Self {
        FunctionDecl { documentation, ..self }
    }

    fn documentation(&self) -> (r: &Option<String>) {
        &self.documentation
    }

    fn set_documentation(&mut self, documentation: &str) -> (r: &mut Self) {
        self.documentation = Some(String::from_str(documentation));
        self
    }

    fn unset_documentation(&mut self) -> (r: &mut Self) {
        self.documentation = None;
        self
    }
}

impl HasOptionalType for FunctionDecl {
    open spec fn optional_type_of(&self) -> Option<ValueType> {
        self.value_type
    }

    open spec fn with_optional_type(self, value_type: Option<ValueType>) -> Self {
        FunctionDecl { value_type, ..self }
    }

    fn value_type(&self) -> (r: &Option<ValueType>) {
        &self.value_type
    }

    fn set_value_type(&mut self, value_type: ValueType) -> (r: &mut Self) {
        self.value_type = Some(value_type);
        self
    }

    fn unset_value_type(&mut self) -> (r: &mut Self) {
        self.value_type = None;
        self
    }
}

impl FunctionDecl {
    pub fn new(name: Identifier) -> (r: FunctionDecl)
        ensures
            r.properties@.len() == 0,
            r.visibility is None,
            r.name == name,
            r.documentation is None,
            r.parameters@.len() == 0,
            r.value_type is None,
    {
        FunctionDecl {
            properties: Vec::new(),
            visibility: None,
            name,
            documentation: None,
            parameters: Vec::new(),
            value_type: None,
        }
    }

    pub fn with_visibility(visibility: Visibility, name: Identifier) -> (r: FunctionDecl)
        ensures
            r.properties@.len() == 0,
            r.visibility == Some(visibility),
            r.name == name,
            r.documentation is None,
            r.parameters@.len() == 0,
            r.value_type is None,
    {
        FunctionDecl {
            properties: Vec::new(),
            visibility: Some(visibility),
            name,
            documentation: None,
            parameters: Vec::new(),
            value_type: None,
        }
    }

    /// The parameters, in order.
    pub fn parameters(&self) -> (r: &Vec<Parameter>)
        ensures
            *r == self.parameters,
    {
        &self.parameters
    }

    /// Replaces the parameters.
    pub fn set_parameters(&mut self, parameters: Vec<Parameter>) -> (r: &mut Self)
        ensures
            *r == (FunctionDecl { parameters, ..*old(self) }),
            *final(self) == *final(r),
    {
        self.parameters = parameters;
        self
    }

    /// Appends a parameter after those already present.
    pub fn add_parameter(&mut self, parameter: Parameter) -> (r: &mut Self)
        ensures
            r.parameters@ == old(self).parameters@.push(parameter),
            *r == (FunctionDecl { parameters: r.parameters, ..*old(self) }),
            *final(self) == *final(r),
    {
        self.parameters.push(parameter);
        self
    }
}

} // verus!
