//! Comments and documentation.
use vstd::prelude::*;

verus! {

/// A remark in the output: a line comment or a block comment.
#[derive(Debug)]
pub struct Comment {
    pub text: String,
    pub is_block: bool,
}

impl Clone for Comment {
    fn clone(&self) -> (r: Self)
        ensures
            r == *self,
    {
        Comment { text: self.text.clone(), is_block: self.is_block }
    }
}

/// An entity that may carry documentation text.
pub trait HasDocumentation: Sized {
    /// The documentation field.
    spec fn doc_of(&self) -> Option<String>;

    /// This value with the documentation field replaced.
    spec fn with_doc(self, documentation: Option<String>) -> Self;

    fn documentation(&self) -> (r: &Option<String>)
        ensures
            *r == self.doc_of(),
    ;

    fn has_documentation(&self) -> (r: bool)
        ensures
            r == self.doc_of() is Some,
    {
        self.documentation().is_some()
    }

    fn set_documentation(&mut self, documentation: &str) -> (r: &mut Self)
        ensures
            r.doc_of() matches Some(d) && d@ == documentation@,
            *r == old(self).with_doc(r.doc_of()),
            *final(self) == *final(r),
    ;

    fn unset_documentation(&mut self) -> (r: &mut Self)
        ensures
            *r == old(self).with_doc(None),
            *final(self) == *final(r),
    ;
}

impl Comment {
    /// A block comment.
    pub fn new(text: &str) -> (r: Comment)
        ensures
            r.text@ == text@,
            r.is_block,
    {
        Comment { text: String::from_str(text), is_block: true }
    }

    /// A line comment.
    pub fn line(text: &str) -> (r: Comment)
        ensures
            r.text@ == text@,
            !r.is_block,
    {
        Comment { text: String::from_str(text), is_block: false }
    }

    /// A block comment.
    pub fn block(text: &str) -> (r: Comment)
        ensures
            r.text@ == text@,
            r.is_block,
    {
        Comment { text: String::from_str(text), is_block: true }
    }

    pub fn text(&self) -> (r: &String)
        ensures
            *r == self.text,
    {
        &self.text
    }

    pub fn set_text(&mut self, text: &str) -> (r: &mut Self)
        ensures
            r.text@ == text@,
            r.is_block == old(self).is_block,
            *final(self) == *final(r),
    {
        self.text = String::from_str(text);
        self
    }

    pub fn is_line(&self) -> (r: bool)
        ensures
            r == !self.is_block,
    {
        !self.is_block()
    }

    pub fn is_block(&self) -> (r: bool)
        ensures
            r == self.is_block,
    {
        self.is_block
    }
}

} // verus!
