//! The entities of the model and the builder discipline that constructs them.
//!
//! Every entity is built by a constructor that takes its mandatory parts, refined by
//! chained setters that each return the entity itself, and finalized by `build`, which
//! hands out an independent copy.
pub mod comments;
pub mod functions;
pub mod identity;
pub mod modules;
pub mod properties;
pub mod structured_types;
pub mod values;

pub use comments::{Comment, HasDocumentation};
pub use functions::{FunctionDecl, Parameter};
pub use identity::{HasName, Identifier, Namespace};
pub use modules::{HasVisibility, Import, ImportItem, Module, ModuleContent, TypeAlias, Visibility};
pub use properties::{HasProperties, IsOptional, Property};
pub use structured_types::{
    Enumeration, EnumerationVariant, Field, StructuredType, StructuredTypeKind,
};
pub use values::{
    HasOptionalType, HasOptionalValue, HasType, HasValue, KnownType, NamedValue, Value, ValueType,
};
use vstd::prelude::*;

verus! {

/// Finalizes a builder: hands out a copy of it, leaving the builder as it was, so that
/// later changes to the builder never reach the copy.
pub trait Builder: Clone + Sized {
    /// Hands out the value that the builder holds; the builder goes on with a clone of it.
    fn build(&mut self) -> (r: Self)
        ensures
            r == *old(self),
            vstd::pervasive::cloned::<Self>(*old(self), *final(self)),
    {
        let mut copy = self.clone();
        core::mem::swap(self, &mut copy);
        copy
    }
}

impl Builder for Comment {

}

impl Builder for Parameter {

}

impl Builder for FunctionDecl {

}

impl Builder for Import {

}

impl Builder for ImportItem {

}

impl Builder for Module {

}

impl Builder for Field {

}

impl Builder for StructuredType {

}

impl Builder for EnumerationVariant {

}

impl Builder for Enumeration {

}

impl Builder for NamedValue {

}

} // verus!
