//! Structured types (structures, unions, exceptions, classes, interfaces, services) and
//! enumerations.
use crate::model::comments::HasDocumentation;
use crate::model::functions::FunctionDecl;
use crate::model::identity::{HasName, Identifier};
use crate::model::modules::{HasVisibility, Visibility};
use crate::model::properties::{HasProperties, IsOptional, Property};
use crate::model::values::{HasOptionalType, HasOptionalValue, HasType, Value, ValueType};
use vstd::prelude::*;

verus! {

/// A field of a structured type. Whether it is required or optional is a flag of its
/// own, apart from its type.
#[derive(Clone, Debug)]
pub struct Field {
    pub properties: Vec<Property>,
    pub visibility: Option<Visibility>,
    pub optional: bool,
    pub name: Identifier,
    pub documentation: Option<String>,
    pub value_type: ValueType,
    pub value: Option<Value>,
}

/// The kind of a structured type, fixed when it is constructed.
#[derive(Clone, Copy, Debug, PartialEq, Eq, Structural)]
pub enum StructuredTypeKind {
    Exception,
    Structure,
    Union,
    Class,
    Interface,
    Service,
}

/// A structured type. Fields and methods keep the order in which they were added.
#[derive(Clone, Debug)]
pub struct StructuredType {
    properties: Vec<Property>,
    visibility: Option<Visibility>,
    kind: StructuredTypeKind,
    name: Identifier,
    documentation: Option<String>,
    extends: Vec<ValueType>,
    fields: Vec<Field>,
    methods: Vec<FunctionDecl>,
}

/// A variant of an enumeration, optionally with a payload type or value.
#[derive(Clone, Debug)]
pub struct EnumerationVariant {
    pub properties: Vec<Property>,
    pub name: Identifier,
    pub documentation: Option<String>,
    pub value_type: Option<ValueType>,
    pub value: Option<Value>,
}

/// A closed set of named variants, in order.
#[derive(Clone, Debug)]
pub struct Enumeration {
    pub properties: Vec<Property>,
    pub visibility: Option<Visibility>,
    pub name: Identifier,
    pub documentation: Option<String>,
    pub variants: Vec<EnumerationVariant>,
}

impl HasProperties for Field {
    open spec fn properties_of(&self) -> Vec<Property> {
        self.properties
    }

    open spec fn with_properties(self, properties: Vec<Property>) -> Self {
        Field { properties, ..self }
    }

    fn properties(&self) -> (r: &Vec<Property>) {
        &self.properties
    }

    fn set_properties(&mut self, properties: Vec<Property>) -> (r: &mut Self) {
        self.properties = properties;
        self
    }

    fn add_property(&mut self, property: Property) -> (r: &mut Self) {
        self.properties.push(property);
        self
    }
}

impl HasVisibility for Field {
    open spec fn visibility_of(&self) -> Option<Visibility> {
        self.visibility
    }

    open spec fn with_visibility_of(self, visibility: Option<Visibility>) -> Self {
        Field { visibility, ..self }
    }

    fn visibility(&self) -> (r: &Option<Visibility>) {
        &self.visibility
    }

    fn set_visibility(&mut self, visibility: Visibility) -> (r: &mut Self) {
        self.visibility = Some(visibility);
        self
    }

    fn unset_visibility(&mut self) -> (r: &mut Self) {
        self.visibility = None;
        self
    }
}

impl IsOptional for Field {
    open spec fn optional_of(&self) -> bool {
        self.optional
    }

    open spec fn with_optional(self, optional: bool) -> Self {
        Field { optional, ..self }
    }

    fn is_optional(&self) -> (r: bool) {
        self.optional
    }

    fn optional(&mut self) -> (r: &mut Self) {
        self.optional = true;
        self
    }

    fn required(&mut self) -> (r: &mut Self) {
        self.optional = false;
        self
    }
}

impl HasName for Field {
    open spec fn name_of(&self) -> Identifier {
        self.name
    }

    open spec fn with_name(self, name: Identifier) -> Self {
        Field { name, ..self }
    }

    fn name(&self) -> (r: &Identifier) {
        &self.name
    }

    fn set_name(&mut self, name: Identifier) -> (r: &mut Self) {
        self.name = name;
        self
    }
}

impl HasDocumentation for Field {
    open spec fn doc_of(&self) -> Option<String> {
        self.documentation
    }

    open spec fn with_doc(self, documentation: Option<String>) -> Self {
        Field { documentation, ..self }
    }

    fn documentation(&self) -> (r: &Option<String>) {
        &self.documentation
    }

    fn set_documentation(&mut self, documentation: &str) -> (r: &mut Self) {
        self.documentation = Some(String::from_str(documentation));
        self
    }

    fn unset_documentation(&mut self) -> (r: &mut Self) {
        self.documentation = None;
        self
    }
}

impl HasType for Field {
    open spec fn type_of(&self) -> ValueType {
        self.value_type
    }

    open spec fn with_type(self, value_type: ValueType) -> Self {
        Field { value_type, ..self }
    }

    fn value_type(&self) -> (r: &ValueType) {
        &self.value_type
    }

    fn set_value_type(&mut self, value_type: ValueType) -> (r: &mut Self) {
        self.value_type = value_type;
        self
    }
}

impl HasOptionalValue for Field {
    open spec fn optional_value_of(&self) -> Option<Value> {
        self.value
    }

    open spec fn with_optional_value(self, value: Option<Value>) -> Self {
        Field { value, ..self }
    }

    fn value(&self) -> (r: &Option<Value>) {
        &self.value
    }

    fn set_value(&mut self, value: Value) -> (r: &mut Self) {
        self.value = Some(value);
        self
    }

    fn unset_value(&mut self) -> (r: &mut Self) {
        self.value = None;
        self
    }
}

impl Field {
    /// A required field with no default value.
    pub fn new(name: Identifier, value_type: ValueType) -> (r: Field)
        ensures
            r.properties@.len() == 0,
            r.visibility is None,
            !r.optional,
            r.name == name,
            r.documentation is None,
            r.value_type == value_type,
            r.value is None,
    {
        Field {
            properties: Vec::new(),
            visibility: None,
            optional: false,
            name,
            documentation: None,
            value_type,
            value: None,
        }
    }

    /// A required field with a default value.
    pub fn with_value(name: Identifier, value_type: ValueType, value: Value) -> (r: Field)
        ensures
            r.properties@.len() == 0,
            r.visibility is None,
            !r.optional,
            r.name == name,
            r.documentation is None,
            r.value_type == value_type,
            r.value == Some(value),
    {
        Field {
            properties: Vec::new(),
            visibility: None,
            optional: false,
            name,
            documentation: None,
            value_type,
            value: Some(value),
        }
    }
}

impl HasProperties for StructuredType {
    closed spec fn properties_of(&self) -> Vec<Property> {
        self.properties
    }

    closed spec fn with_properties(self, properties: Vec<Property>) -> Self {
        StructuredType { properties, ..self }
    }

    fn properties(&self) -> (r: &Vec<Property>) {
        &self.properties
    }

    fn set_properties(&mut self, properties: Vec<Property>) -> (r: &mut Self) {
        self.properties = properties;
        self
    }

    fn add_property(&mut self, property: Property) -> (r: &mut Self) {
        self.properties.push(property);
        self
    }
}

impl HasVisibility for StructuredType {
    closed spec fn visibility_of(&self) -> Option<Visibility> {
        self.visibility
    }

    closed spec fn with_visibility_of(self, visibility: Option<Visibility>) -> Self {
        StructuredType { visibility, ..self }
    }

    fn visibility(&self) -> (r: &Option<Visibility>) {
        &self.visibility
    }

    fn set_visibility(&mut self, visibility: Visibility) -> (r: &mut Self) {
        self.visibility = Some(visibility);
        self
    }

    fn unset_visibility(&mut self) -> (r: &mut Self) {
        self.visibility = None;
        self
    }
}

impl HasName for StructuredType {
    closed spec fn name_of(&self) -> Identifier {
        self.name
    }

    closed spec fn with_name(self, name: Identifier) -> Self {
        StructuredType { name, ..self }
    }

    fn name(&self) -> (r: &Identifier) {
        &self.name
    }

    fn set_name(&mut self, name: Identifier) -> (r: &mut Self) {
        self.name = name;
        self
    }
}

impl HasDocumentation for StructuredType {
    closed spec fn doc_of(&self) -> Option<String> {
        self.documentation
    }

    closed spec fn with_doc(self, documentation: Option<String>) -> Self {
        StructuredType { documentation, ..self }
    }

    fn documentation(&self) -> (r: &Option<String>) {
        &self.documentation
    }

    fn set_documentation(&mut self, documentation: &str) -> (r: &mut Self) {
        self.documentation = Some(String::from_str(documentation));
        self
    }

    fn unset_documentation(&mut self) -> (r: &mut Self) {
        self.documentation = None;
        self
    }
}

impl StructuredType {
    /// This is a structured type of `kind` named `name` with nothing in it.
    pub open spec fn is_new(self, name: Identifier, kind: StructuredTypeKind) -> bool {
        &&& self.properties_of()@.len() == 0
        &&& self.visibility_of() is None
        &&& self.kind_of() == kind
        &&& self.name_of() == name
        &&& self.doc_of() is None
        &&& self.extends_of()@.len() == 0
        &&& self.fields_of()@.len() == 0
        &&& self.methods_of()@.len() == 0
    }

    pub fn new(name: Identifier, kind: StructuredTypeKind) -> (r: StructuredType)
        ensures
            r.is_new(name, kind),
    {
        StructuredType {
            properties: Vec::new(),
            visibility: None,
            kind,
            name,
            documentation: None,
            extends: Vec::new(),
            fields: Vec::new(),
            methods: Vec::new(),
        }
    }

    pub fn exception(name: Identifier) -> (r: StructuredType)
        ensures
            r.is_new(name, StructuredTypeKind::Exception),
    {
        StructuredType::new(name, StructuredTypeKind::Exception)
    }

    pub fn structure(name: Identifier) -> (r: StructuredType)
        ensures
            r.is_new(name, StructuredTypeKind::Structure),
    {
        StructuredType::new(name, StructuredTypeKind::Structure)
    }

    pub fn union(name: Identifier) -> (r: StructuredType)
        ensures
            r.is_new(name, StructuredTypeKind::Union),
    {
        StructuredType::new(name, StructuredTypeKind::Union)
    }

    pub fn class(name: Identifier) -> (r: StructuredType)
        ensures
            r.is_new(name, StructuredTypeKind::Class),
    {
        StructuredType::new(name, StructuredTypeKind::Class)
    }

    pub fn interface(name: Identifier) -> (r: StructuredType)
        ensures
            r.is_new(name, StructuredTypeKind::Interface),
    {
        StructuredType::new(name, StructuredTypeKind::Interface)
    }

    pub fn service(name: Identifier) -> (r: StructuredType)
        ensures
            r.is_new(name, StructuredTypeKind::Service),
    {
        StructuredType::new(name, StructuredTypeKind::Service)
    }

    /// The kind of this type, fixed when it was constructed.
    pub closed spec fn kind_of(&self) -> StructuredTypeKind {
        self.kind
    }

    /// The types this one extends.
    pub closed spec fn extends_of(&self) -> Vec<ValueType> {
        self.extends
    }

    /// The fields.
    pub closed spec fn fields_of(&self) -> Vec<Field> {
        self.fields
    }

    /// The methods.
    pub closed spec fn methods_of(&self) -> Vec<FunctionDecl> {
        self.methods
    }

    /// This value with the extended types replaced.
    pub closed spec fn with_extends(self, extends: Vec<ValueType>) -> Self {
        StructuredType { extends, ..self }
    }

    /// This value with the fields replaced.
    pub closed spec fn with_fields(self, fields: Vec<Field>) -> Self {
        StructuredType { fields, ..self }
    }

    /// This value with the methods replaced.
    pub closed spec fn with_methods(self, methods: Vec<FunctionDecl>) -> Self {
        StructuredType { methods, ..self }
    }

    /// The kind is fixed: no update of a structured type changes it.
    pub proof fn lemma_kind_fixed()
        ensures
            forall|s: StructuredType, v: Vec<Property>| #[trigger]
                s.with_properties(v).kind_of() == s.kind_of(),
            forall|s: StructuredType, v: Option<Visibility>| #[trigger]
                s.with_visibility_of(v).kind_of() == s.kind_of(),
            forall|s: StructuredType, n: Identifier| #[trigger]
                s.with_name(n).kind_of() == s.kind_of(),
            forall|s: StructuredType, d: Option<String>| #[trigger]
                s.with_doc(d).kind_of() == s.kind_of(),
            forall|s: StructuredType, v: Vec<ValueType>| #[trigger]
                s.with_extends(v).kind_of() == s.kind_of(),
            forall|s: StructuredType, v: Vec<Field>| #[trigger]
                s.with_fields(v).kind_of() == s.kind_of(),
            forall|s: StructuredType, v: Vec<FunctionDecl>| #[trigger]
                s.with_methods(v).kind_of() == s.kind_of(),
    {
    }

    /// The kind of this type, fixed when it was constructed.
    pub fn kind(&self) -> (r: &StructuredTypeKind)
        ensures
            *r == self.kind_of(),
    {
        &self.kind
    }

    /// The types this one extends, in order.
    pub fn extends(&self) -> (r: &Vec<ValueType>)
        ensures
            *r == self.extends_of(),
    {
        &self.extends
    }

    /// Replaces the extended types.
    pub fn set_extends(&mut self, extends: Vec<ValueType>) -> (r: &mut Self)
        ensures
            *r == old(self).with_extends(extends),
            *final(self) == *final(r),
    {
        self.extends = extends;
        self
    }

    /// Appends an extended type.
    pub fn add_extend(&mut self, extend: ValueType) -> (r: &mut Self)
        ensures
            r.extends_of()@ == old(self).extends_of()@.push(extend),
            *r == old(self).with_extends(r.extends_of()),
            *final(self) == *final(r),
    {
        self.extends.push(extend);
        self
    }

    /// The fields, in order.
    pub fn fields(&self) -> (r: &Vec<Field>)
        ensures
            *r == self.fields_of(),
    {
        &self.fields
    }

    /// Replaces the fields.
    pub fn set_fields(&mut self, fields: Vec<Field>) -> (r: &mut Self)
        ensures
            *r == old(self).with_fields(fields),
            *final(self) == *final(r),
    {
        self.fields = fields;
        self
    }

    /// Appends a field after those already present.
    pub fn add_field(&mut self, field: Field) -> (r: &mut Self)
        ensures
            r.fields_of()@ == old(self).fields_of()@.push(field),
            *r == old(self).with_fields(r.fields_of()),
            *final(self) == *final(r),
    {
        self.fields.push(field);
        self
    }

    /// The methods, in order.
    pub fn methods(&self) -> (r: &Vec<FunctionDecl>)
        ensures
            *r == self.methods_of(),
    {
        &self.methods
    }

    /// Replaces the methods.
    pub fn set_methods(&mut self, methods: Vec<FunctionDecl>) -> (r: &mut Self)
        ensures
            *r == old(self).with_methods(methods),
            *final(self) == *final(r),
    {
        self.methods = methods;
        self
    }

    /// Appends a method after those already present.
    pub fn add_method(&mut self, method: FunctionDecl) -> (r: &mut Self)
        ensures
            r.methods_of()@ == old(self).methods_of()@.push(method),
            *r == old(self).with_methods(r.methods_of()),
            *final(self) == *final(r),
    {
        self.methods.push(method);
        self
    }
}

impl HasProperties for EnumerationVariant {
    open spec fn properties_of(&self) -> Vec<Property> {
        self.properties
    }

    open spec fn with_properties(self, properties: Vec<Property>) -> Self {
        EnumerationVariant { properties, ..self }
    }

    fn properties(&self) -> (r: &Vec<Property>) {
        &self.properties
    }

    fn set_properties(&mut self, properties: Vec<Property>) -> (r: &mut Self) {
        self.properties = properties;
        self
    }

    fn add_property(&mut self, property: Property) -> (r: &mut Self) {
        self.properties.push(property);
        self
    }
}

impl HasName for EnumerationVariant {
    open spec fn name_of(&self) -> Identifier {
        self.name
    }

    open spec fn with_name(self, name: Identifier) -> Self {
        EnumerationVariant { name, ..self }
    }

    fn name(&self) -> (r: &Identifier) {
        &self.name
    }

    fn set_name(&mut self, name: Identifier) -> (r: &mut Self) {
        self.name = name;
        self
    }
}

impl HasDocumentation for EnumerationVariant {
    open spec fn doc_of(&self) -> Option<String> {
        self.documentation
    }

    open spec fn with_doc(self, documentation: Option<String>) -> Self {
        EnumerationVariant { documentation, ..self }
    }

    fn documentation(&self) -> (r: &Option<String>) {
        &self.documentation
    }

    fn set_documentation(&mut self, documentation: &str) -> (r: &mut Self) {
        self.documentation = Some(String::from_str(documentation));
        self
    }

    fn unset_documentation(&mut self) -> (r: &mut Self) {
        self.documentation = None;
        self
    }
}

impl HasOptionalType for EnumerationVariant {
    open spec fn optional_type_of(&self) -> Option<ValueType> {
        self.value_type
    }

    open spec fn with_optional_type(self, value_type: Option<ValueType>) -> Self {
        EnumerationVariant { value_type, ..self }
    }

    fn value_type(&self) -> (r: &Option<ValueType>) {
        &self.value_type
    }

    fn set_value_type(&mut self, value_type: ValueType) -> (r: &mut Self) {
        self.value_type = Some(value_type);
        self
    }

    fn unset_value_type(&mut self) -> (r: &mut Self) {
        self.value_type = None;
        self
    }
}

impl HasOptionalValue for EnumerationVariant {
    open spec fn optional_value_of(&self) -> Option<Value> {
        self.value
    }

    open spec fn with_optional_value(self, value: Option<Value>) -> Self {
        EnumerationVariant { value, ..self }
    }

    fn value(&self) -> (r: &Option<Value>) {
        &self.value
    }

    fn set_value(&mut self, value: Value) -> (r: &mut Self) {
        self.value = Some(value);
        self
    }

    fn unset_value(&mut self) -> (r: &mut Self) {
        self.value = None;
        self
    }
}

impl EnumerationVariant {
    /// A bare variant.
    pub fn new(name: Identifier) -> (r: EnumerationVariant)
        ensures
            r.properties@.len() == 0,
            r.name == name,
            r.documentation is None,
            r.value_type is None,
            r.value is None,
    {
        EnumerationVariant {
            properties: Vec::new(),
            name,
            documentation: None,
            value_type: None,
            value: None,
        }
    }
}

impl HasProperties for Enumeration {
    open spec fn properties_of(&self) -> Vec<Property> {
        self.properties
    }

    open spec fn with_properties(self, properties: Vec<Property>) -> Self {
        Enumeration { properties, ..self }
    }

    fn properties(&self) -> (r: &Vec<Property>) {
        &self.properties
    }

    fn set_properties(&mut self, properties: Vec<Property>) -> (r: &mut Self) {
        self.properties = properties;
        self
    }

    fn add_property(&mut self, property: Property) -> (r: &mut Self) {
        self.properties.push(property);
        self
    }
}

impl HasVisibility for Enumeration {
    open spec fn visibility_of(&self) -> Option<Visibility> {
        self.visibility
    }

    open spec fn with_visibility_of(self, visibility: Option<Visibility>) -> Self {
        Enumeration { visibility, ..self }
    }

    fn visibility(&self) -> (r: &Option<Visibility>) {
        &self.visibility
    }

    fn set_visibility(&mut self, visibility: Visibility) -> (r: &mut Self) {
        self.visibility = Some(visibility);
        self
    }

    fn unset_visibility(&mut self) -> (r: &mut Self) {
        self.visibility = None;
        self
    }
}

impl HasName for Enumeration {
    open spec fn name_of(&self) -> Identifier {
        self.name
    }

    open spec fn with_name(self, name: Identifier) -> Self {
        Enumeration { name, ..self }
    }

    fn name(&self) -> (r: &Identifier) {
        &self.name
    }

    fn set_name(&mut self, name: Identifier) -> (r: &mut Self) {
        self.name = name;
        self
    }
}

impl HasDocumentation for Enumeration {
    open spec fn doc_of(&self) -> Option<String> {
        self.documentation
    }

    open spec fn with_doc(self, documentation: Option<String>) -> Self {
        Enumeration { documentation, ..self }
    }

    fn documentation(&self) -> (r: &Option<String>) {
        &self.documentation
    }

    fn set_documentation(&mut self, documentation: &str) -> (r: &mut Self) {
        self.documentation = Some(String::from_str(documentation));
        self
    }

    fn unset_documentation(&mut self) -> (r: &mut Self) {
        self.documentation = None;
        self
    }
}

impl Enumeration {
    pub fn new(name: Identifier) -> (r: Enumeration)
        ensures
            r.properties@.len() == 0,
            r.visibility is None,
            r.name == name,
            r.documentation is None,
            r.variants@.len() == 0,
    {
        Enumeration {
            properties: Vec::new(),
            visibility: None,
            name,
            documentation: None,
            variants: Vec::new(),
        }
    }

    pub fn with_visibility(visibility: Visibility, name: Identifier) -> (r: Enumeration)
        ensures
            r.properties@.len() == 0,
            r.visibility == Some(visibility),
            r.name == name,
            r.documentation is None,
            r.variants@.len() == 0,
    {
        Enumeration {
            properties: Vec::new(),
            visibility: Some(visibility),
            name,
            documentation: None,
            variants: Vec::new(),
        }
    }

    /// The variants, in order.
    pub fn variants(&self) -> (r: &Vec<EnumerationVariant>)
        ensures
            *r == self.variants,
    {
        &self.variants
    }

    /// Replaces the variants.
    pub fn set_variants(&mut self, variants: Vec<EnumerationVariant>) -> (r: &mut Self)
        ensures
            *r == (Enumeration { variants, ..*old(self) }),
            *final(self) == *final(r),
    {
        self.variants = variants;
        self
    }

    /// Appends a variant after those already present.
    pub fn add_variant(&mut self, variant: EnumerationVariant) -> (r: &mut Self)
        ensures
            r.variants@ == old(self).variants@.push(variant),
            *r == (Enumeration { variants: r.variants, ..*old(self) }),
            *final(self) == *final(r),
    {
        self.variants.push(variant);
        self
    }

    /// Appends a bare variant named `variant`.
    pub fn add_named_variant(&mut self, variant: Identifier) -> (r: &mut Self)
        ensures
            r.variants@.len() == old(self).variants@.len() + 1,
            r.variants@.drop_last() == old(self).variants@,
            r.variants@.last().name == variant,
            r.variants@.last().value_type is None,
            r.variants@.last().value is None,
            r.variants@.last().documentation is None,
            r.variants@.last().properties@.len() == 0,
            *r == (Enumeration { variants: r.variants, ..*old(self) }),
            *final(self) == *final(r),
    {
        self.variants.push(EnumerationVariant::new(variant));
        proof {
            assert(self.variants@.drop_last() =~= old(self).variants@);
        }
        self
    }
}

} // verus!
