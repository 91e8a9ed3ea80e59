//! Modules and what they contain: imports, type aliases and the other declarations.
use crate::model::comments::{Comment, HasDocumentation};
use crate::model::functions::FunctionDecl;
use crate::model::identity::{HasName, Identifier, Namespace};
use crate::model::properties::{HasProperties, Property};
use crate::model::structured_types::{Enumeration, StructuredType};
use crate::model::values::{HasType, NamedValue, ValueType};
use vstd::prelude::*;

verus! {

/// The visibility of a declaration.
#[derive(Clone, Copy, Debug, PartialEq, Eq, Structural)]
pub enum Visibility {
    Private,
    Local,
    Package,
    Public,
}

/// An entity that may carry a visibility.
pub trait HasVisibility: Sized {
    /// The visibility field.
    spec fn visibility_of(&self) -> Option<Visibility>;

    /// This value with the visibility field replaced.
    spec fn with_visibility_of(self, visibility: Option<Visibility>) -> Self;

    fn visibility(&self) -> (r: &Option<Visibility>)
        ensures
            *r == self.visibility_of(),
    ;

    fn has_visibility(&self) -> (r: bool)
        ensures
            r == self.visibility_of() is Some,
    {
        self.visibility().is_some()
    }

    fn set_visibility(&mut self, visibility: Visibility) -> (r: &mut Self)
        ensures
            *r == old(self).with_visibility_of(Some(visibility)),
            *final(self) == *final(r),
    ;

    fn unset_visibility(&mut self) -> (r: &mut Self)
        ensures
            *r == old(self).with_visibility_of(None),
            *final(self) == *final(r),
    ;

    fn is_private(&self) -> (r: bool)
        ensures
            r == (self.visibility_of() == Some(Visibility::Private)),
    {
        is_visibility(self.visibility(), Visibility::Private)
    }

    fn make_private(&mut self) -> (r: &mut Self)
        ensures
            *r == old(self).with_visibility_of(Some(Visibility::Private)),
            *final(self) == *final(r),
    {
        self.set_visibility(Visibility::Private)
    }

    fn is_local(&self) -> (r: bool)
        ensures
            r == (self.visibility_of() == Some(Visibility::Local)),
    {
        is_visibility(self.visibility(), Visibility::Local)
    }

    fn make_local(&mut self) -> (r: &mut Self)
        ensures
            *r == old(self).with_visibility_of(Some(Visibility::Local)),
            *final(self) == *final(r),
    {
        self.set_visibility(Visibility::Local)
    }

    fn is_package(&self) -> (r: bool)
        ensures
            r == (self.visibility_of() == Some(Visibility::Package)),
    {
        is_visibility(self.visibility(), Visibility::Package)
    }

    fn make_package(&mut self) -> (r: &mut Self)
        ensures
            *r == old(self).with_visibility_of(Some(Visibility::Package)),
            *final(self) == *final(r),
    {
        self.set_visibility(Visibility::Package)
    }

    fn is_public(&self) -> (r: bool)
        ensures
            r == (self.visibility_of() == Some(Visibility::Public)),
    {
        is_visibility(self.visibility(), Visibility::Public)
    }

    fn make_public(&mut self) -> (r: &mut Self)
        ensures
            *r == old(self).with_visibility_of(Some(Visibility::Public)),
            *final(self) == *final(r),
    {
        self.set_visibility(Visibility::Public)
    }
}

fn is_visibility(v: &Option<Visibility>, w: Visibility) -> (r: bool)
    ensures
        r == (*v == Some(w)),
{
    match v {
        Some(x) => *x == w,
        None => false,
    }
}

/// A named synonym for a type expression.
#[derive(Clone, Debug)]
pub struct TypeAlias {
    pub visibility: Option<Visibility>,
    pub name: Identifier,
    pub value_type: ValueType,
}

/// A reference to another namespace, with the items it brings into scope.
#[derive(Clone, Debug)]
pub struct Import {
    pub visibility: Option<Visibility>,
    pub namespace: Namespace,
    pub items: Vec<ImportItem>,
}

/// An item brought in by an import, optionally under an alias.
#[derive(Debug)]
pub struct ImportItem {
    pub name: Identifier,
    pub alias: Option<Identifier>,
}

impl Clone for ImportItem {
    fn clone(&self) -> (r: Self)
        ensures
            r == *self,
    {
        ImportItem {
            name: self.name.clone(),
            alias: match &self.alias {
                Some(a) => Some(a.clone()),
                None => None,
            },
        }
    }
}

/// One declaration of a module.
#[derive(Debug)]
pub enum ModuleContent {
    Import(Import),
    Comment(Comment),
    Structure(StructuredType),
    Enumeration(Enumeration),
    Constant(NamedValue),
    Variable(NamedValue),
    Function(FunctionDecl),
    Alias(TypeAlias),
    Module(Module),
}

/// An ordered sequence of declarations; modules nest and form a tree. An inline module
/// is meant to be rendered into its parent's output rather than into its own.
#[derive(Debug)]
pub struct Module {
    pub properties: Vec<Property>,
    pub visibility: Option<Visibility>,
    pub name: Identifier,
    pub documentation: Option<String>,
    pub inline: bool,
    pub content: Vec<ModuleContent>,
}

impl Clone for Module {
    fn clone(&self) -> Self {
        copy_module(self)
    }
}

impl Clone for ModuleContent {
    fn clone(&self) -> Self {
        copy_content(self)
    }
}

fn copy_module(m: &Module) -> Module
    decreases m,
{
    Module {
        properties: m.properties.clone(),
        visibility: m.visibility,
        name: m.name.clone(),
        documentation: m.documentation.clone(),
        inline: m.inline,
        content: copy_contents(&m.content),
    }
}

fn copy_content(c: &ModuleContent) -> ModuleContent
    decreases c,
{
    match c {
        ModuleContent::Import(v) => ModuleContent::Import(v.clone()),
        ModuleContent::Comment(v) => ModuleContent::Comment(v.clone()),
        ModuleContent::Structure(v) => ModuleContent::Structure(v.clone()),
        ModuleContent::Enumeration(v) => ModuleContent::Enumeration(v.clone()),
        ModuleContent::Constant(v) => ModuleContent::Constant(v.clone()),
        ModuleContent::Variable(v) => ModuleContent::Variable(v.clone()),
        ModuleContent::Function(v) => ModuleContent::Function(v.clone()),
        ModuleContent::Alias(v) => ModuleContent::Alias(v.clone()),
        ModuleContent::Module(v) => ModuleContent::Module(copy_module(v)),
    }
}

fn copy_contents(cs: &Vec<ModuleContent>) -> Vec<ModuleContent>
    decreases cs,
{
    broadcast use vstd::std_specs::vec::group_vec_axioms;

    let mut r: Vec<ModuleContent> = Vec::new();
    let n = cs.len();
    let mut i: usize = 0;
    while i < n
        invariant
            n == cs@.len(),
        decreases n - i,
    {
        r.push(copy_content(&cs[i]));
        i += 1;
    }
    r
}

impl HasVisibility for TypeAlias {
    open spec fn visibility_of(&self) -> Option<Visibility> {
        self.visibility
    }

    open spec fn with_visibility_of(self, visibility: Option<Visibility>) -> Self {
        TypeAlias { visibility, ..self }
    }

    fn visibility(&self) -> (r: &Option<Visibility>) {
        &self.visibility
    }

    fn set_visibility(&mut self, visibility: Visibility) -> (r: &mut Self) {
        self.visibility = Some(visibility);
        self
    }

    fn unset_visibility(&mut self) -> (r: &mut Self) {
        self.visibility = None;
        self
    }
}

impl HasName for TypeAlias {
    open spec fn name_of(&self) -> Identifier {
        self.name
    }

    open spec fn with_name(self, name: Identifier) -> Self {
        TypeAlias { name, ..self }
    }

    fn name(&self) -> (r: &Identifier) {
        &self.name
    }

    fn set_name(&mut self, name: Identifier) -> (r: &mut Self) {
        self.name = name;
        self
    }
}

impl HasType for TypeAlias {
    open spec fn type_of(&self) -> ValueType {
        self.value_type
    }

    open spec fn with_type(self, value_type: ValueType) -> Self {
        TypeAlias { value_type, ..self }
    }

    fn value_type(&self) -> (r: &ValueType) {
        &self.value_type
    }

    fn set_value_type(&mut self, value_type: ValueType) -> (r: &mut Self) {
        self.value_type = value_type;
        self
    }
}

impl TypeAlias {
    pub fn new(name: Identifier, target_type: ValueType) -> (r: TypeAlias)
        ensures
            r == (TypeAlias { visibility: None, name, value_type: target_type }),
    {
        TypeAlias { visibility: None, name, value_type: target_type }
    }

    pub fn with_visibility(visibility: Visibility, name: Identifier, target_type: ValueType) -> (r:
        TypeAlias)
        ensures
            r == (TypeAlias { visibility: Some(visibility), name, value_type: target_type }),
    {
        TypeAlias { visibility: Some(visibility), name, value_type: target_type }
    }
}

impl HasVisibility for Import {
    open spec fn visibility_of(&self) -> Option<Visibility> {
        self.visibility
    }

    open spec fn with_visibility_of(self, visibility: Option<Visibility>) -> Self {
        Import { visibility, ..self }
    }

    fn visibility(&self) -> (r: &Option<Visibility>) {
        &self.visibility
    }

    fn set_visibility(&mut self, visibility: Visibility) -> (r: &mut Self) {
        self.visibility = Some(visibility);
        self
    }

    fn unset_visibility(&mut self) -> (r: &mut Self) {
        self.visibility = None;
        self
    }
}

impl Import {
    /// An import of a whole namespace, with no items.
    pub fn new(namespace: Namespace) -> (r: Import)
        ensures
            r.visibility is None,
            r.namespace == namespace,
            r.items@.len() == 0,
    {
        Import { visibility: None, namespace, items: Vec::new() }
    }

    pub fn with_items(namespace: Namespace, items: Vec<ImportItem>) -> (r: Import)
        ensures
            r == (Import { visibility: None, namespace, items }),
    {
        Import { visibility: None, namespace, items }
    }

    pub fn with_visibility(visibility: Visibility, namespace: Namespace) -> (r: Import)
        ensures
            r.visibility == Some(visibility),
            r.namespace == namespace,
            r.items@.len() == 0,
    {
        Import { visibility: Some(visibility), namespace, items: Vec::new() }
    }

    /// The imported namespace.
    pub fn namespace(&self) -> (r: &Namespace)
        ensures
            *r == self.namespace,
    {
        &self.namespace
    }

    /// Replaces the imported namespace.
    pub fn set_namespace(&mut self, namespace: Namespace) -> (r: &mut Self)
        ensures
            *r == (Import { namespace, ..*old(self) }),
            *final(self) == *final(r),
    {
        self.namespace = namespace;
        self
    }

    /// The imported items, in order.
    pub fn items(&self) -> (r: &Vec<ImportItem>)
        ensures
            *r == self.items,
    {
        &self.items
    }

    /// Replaces the imported items.
    pub fn set_items(&mut self, items: Vec<ImportItem>) -> (r: &mut Self)
        ensures
            *r == (Import { items, ..*old(self) }),
            *final(self) == *final(r),
    {
        self.items = items;
        self
    }

    /// Appends an item after those already present.
    pub fn add_item(&mut self, item: ImportItem) -> (r: &mut Self)
        ensures
            r.items@ == old(self).items@.push(item),
            *r == (Import { items: r.items, ..*old(self) }),
            *final(self) == *final(r),
    {
        self.items.push(item);
        self
    }

    /// Appends an item named `item_name`, with no alias.
    pub fn item(&mut self, item_name: Identifier) -> (r: &mut Self)
        ensures
            r.items@ == old(self).items@.push(ImportItem { name: item_name, alias: None }),
            *r == (Import { items: r.items, ..*old(self) }),
            *final(self) == *final(r),
    {
        self.add_item(ImportItem::new(item_name))
    }

    /// Appends an item named `item_name`, under `alias_name`.
    pub fn item_with_alias(&mut self, item_name: Identifier, alias_name: Identifier) -> (r:
        &mut Self)
        ensures
            r.items@ == old(self).items@.push(
                ImportItem { name: item_name, alias: Some(alias_name) },
            ),
            *r == (Import { items: r.items, ..*old(self) }),
            *final(self) == *final(r),
    {
        self.add_item(ImportItem::with_alias(item_name, alias_name))
    }
}

impl HasName for ImportItem {
    open spec fn name_of(&self) -> Identifier {
        self.name
    }

    open spec fn with_name(self, name: Identifier) -> Self {
        ImportItem { name, ..self }
    }

    fn name(&self) -> (r: &Identifier) {
        &self.name
    }

    fn set_name(&mut self, name: Identifier) -> (r: &mut Self) {
        self.name = name;
        self
    }
}

impl ImportItem {
    pub fn new(name: Identifier) -> (r: ImportItem)
        ensures
            r == (ImportItem { name, alias: None }),
    {
        ImportItem { name, alias: None }
    }

    pub fn with_alias(name: Identifier, alias: Identifier) -> (r: ImportItem)
        ensures
            r == (ImportItem { name, alias: Some(alias) }),
    {
        ImportItem { name, alias: Some(alias) }
    }

    /// The alias, if any.
    pub fn alias(&self) -> (r: &Option<Identifier>)
        ensures
            *r == self.alias,
    {
        &self.alias
    }

    pub fn set_alias(&mut self, alias: Identifier) -> (r: &mut Self)
        ensures
            *r == (ImportItem { alias: Some(alias), ..*old(self) }),
            *final(self) == *final(r),
    {
        self.alias = Some(alias);
        self
    }

    pub fn unset_alias(&mut self) -> (r: &mut Self)
        ensures
            *r == (ImportItem { alias: None, ..*old(self) }),
            *final(self) == *final(r),
    {
        self.alias = None;
        self
    }
}

impl HasProperties for Module {
    open spec fn properties_of(&self) -> Vec<Property> {
        self.properties
    }

    open spec fn with_properties(self, properties: Vec<Property>) -> Self {
        Module { properties, ..self }
    }

    fn properties(&self) -> (r: &Vec<Property>) {
        &self.properties
    }

    fn set_properties(&mut self, properties: Vec<Property>) -> (r: &mut Self) {
        self.properties = properties;
        self
    }

    fn add_property(&mut self, property: Property) -> (r: &mut Self) {
        self.properties.push(property);
        self
    }
}

impl HasVisibility for Module {
    open spec fn visibility_of(&self) -> Option<Visibility> {
        self.visibility
    }

    open spec fn with_visibility_of(self, visibility: Option<Visibility>) -> Self {
        Module { visibility, ..self }
    }

    fn visibility(&self) -> (r: &Option<Visibility>) {
        &self.visibility
    }

    fn set_visibility(&mut self, visibility: Visibility) -> (r: &mut Self) {
        self.visibility = Some(visibility);
        self
    }

    fn unset_visibility(&mut self) -> (r: &mut Self) {
        self.visibility = None;
        self
    }
}

impl HasName for Module {
    open spec fn name_of(&self) -> Identifier {
        self.name
    }

    open spec fn with_name(self, name: Identifier) -> Self {
        Module { name, ..self }
    }

    fn name(&self) -> (r: &Identifier) {
        &self.name
    }

    fn set_name(&mut self, name: Identifier) -> (r: &mut Self) {
        self.name = name;
        self
    }
}

impl HasDocumentation for Module {
    open spec fn doc_of(&self) -> Option<String> {
        self.documentation
    }

    open spec fn with_doc(self, documentation: Option<String>) -> Self {
        Module { documentation, ..self }
    }

    fn documentation(&self) -> (r: &Option<String>) {
        &self.documentation
    }

    fn set_documentation(&mut self, documentation: &str) -> (r: &mut Self) {
        self.documentation = Some(String::from_str(documentation));
        self
    }

    fn unset_documentation(&mut self) -> (r: &mut Self) {
        self.documentation = None;
        self
    }
}

impl Module {
    /// A module with no content, rendered into its own output.
    pub fn new(name: Identifier) -> (r: Module)
        ensures
            r.properties@.len() == 0,
            r.visibility is None,
            r.name == name,
            r.documentation is None,
            !r.inline,
            r.content@.len() == 0,
    {
        Module {
            properties: Vec::new(),
            visibility: None,
            name,
            documentation: None,
            inline: false,
            content: Vec::new(),
        }
    }

    /// A module with no content, rendered into its parent's output.
    pub fn new_inline(name: Identifier) -> (r: Module)
        ensures
            r.properties@.len() == 0,
            r.visibility is None,
            r.name == name,
            r.documentation is None,
            r.inline,
            r.content@.len() == 0,
    {
        Module {
            properties: Vec::new(),
            visibility: None,
            name,
            documentation: None,
            inline: true,
            content: Vec::new(),
        }
    }

    pub fn is_inline(&self) -> (r: bool)
        ensures
            r == self.inline,
    {
        self.inline
    }

    /// Sets whether this module is rendered into its parent's output.
    pub fn set_inline(&mut self, inline: bool) -> (r: &mut Self)
        ensures
            *r == (Module { inline, ..*old(self) }),
            *final(self) == *final(r),
    {
        self.inline = inline;
        self
    }

    /// The declarations, in order.
    pub fn content(&self) -> (r: &Vec<ModuleContent>)
        ensures
            *r == self.content,
    {
        &self.content
    }

    /// Replaces the declarations.
    pub fn set_content(&mut self, content: Vec<ModuleContent>) -> (r: &mut Self)
        ensures
            *r == (Module { content, ..*old(self) }),
            *final(self) == *final(r),
    {
        self.content = content;
        self
    }

    /// Appends a declaration after those already present.
    pub fn add_content_item(&mut self, content: ModuleContent) -> (r: &mut Self)
        ensures
            r.content@ == old(self).content@.push(content),
            *r == (Module { content: r.content, ..*old(self) }),
            *final(self) == *final(r),
    {
        self.content.push(content);
        self
    }

    pub fn add_import(&mut self, content: Import) -> (r: &mut Self)
        ensures
            r.content@ == old(self).content@.push(ModuleContent::Import(content)),
            *r == (Module { content: r.content, ..*old(self) }),
            *final(self) == *final(r),
    {
        self.add_content_item(ModuleContent::Import(content))
    }

    pub fn add_comment(&mut self, content: Comment) -> (r: &mut Self)
        ensures
            r.content@ == old(self).content@.push(ModuleContent::Comment(content)),
            *r == (Module { content: r.content, ..*old(self) }),
            *final(self) == *final(r),
    {
        self.add_content_item(ModuleContent::Comment(content))
    }

    pub fn add_structure(&mut self, content: StructuredType) -> (r: &mut Self)
        ensures
            r.content@ == old(self).content@.push(ModuleContent::Structure(content)),
            *r == (Module { content: r.content, ..*old(self) }),
            *final(self) == *final(r),
    {
        self.add_content_item(ModuleContent::Structure(content))
    }

    pub fn add_enumeration(&mut self, content: Enumeration) -> (r: &mut Self)
        ensures
            r.content@ == old(self).content@.push(ModuleContent::Enumeration(content)),
            *r == (Module { content: r.content, ..*old(self) }),
            *final(self) == *final(r),
    {
        self.add_content_item(ModuleContent::Enumeration(content))
    }

    pub fn add_constant(&mut self, content: NamedValue) -> (r: &mut Self)
        ensures
            r.content@ == old(self).content@.push(ModuleContent::Constant(content)),
            *r == (Module { content: r.content, ..*old(self) }),
            *final(self) == *final(r),
    {
        self.add_content_item(ModuleContent::Constant(content))
    }

    pub fn add_variable(&mut self, content: NamedValue) -> (r: &mut Self)
        ensures
            r.content@ == old(self).content@.push(ModuleContent::Variable(content)),
            *r == (Module { content: r.content, ..*old(self) }),
            *final(self) == *final(r),
    {
        self.add_content_item(ModuleContent::Variable(content))
    }

    pub fn add_function(&mut self, content: FunctionDecl) -> (r: &mut Self)
        ensures
            r.content@ == old(self).content@.push(ModuleContent::Function(content)),
            *r == (Module { content: r.content, ..*old(self) }),
            *final(self) == *final(r),
    {
        self.add_content_item(ModuleContent::Function(content))
    }

    pub fn add_alias(&mut self, content: TypeAlias) -> (r: &mut Self)
        ensures
            r.content@ == old(self).content@.push(ModuleContent::Alias(content)),
            *r == (Module { content: r.content, ..*old(self) }),
            *final(self) == *final(r),
    {
        self.add_content_item(ModuleContent::Alias(content))
    }

    pub fn add_sub_module(&mut self, content: Module) -> (r: &mut Self)
        ensures
            r.content@ == old(self).content@.push(ModuleContent::Module(content)),
            *r == (Module { content: r.content, ..*old(self) }),
            *final(self) == *final(r),
    {
        self.add_content_item(ModuleContent::Module(content))
    }
}

} // verus!
