//! Validated names and namespace paths.
use crate::error::Error;
use crate::text::{join, join_strings, views};
use vstd::prelude::*;

verus! {

/// A validated, non-empty name token; identifiers compare by their exact text.
#[derive(Debug, PartialEq, Eq, PartialOrd, Ord, Hash)]
pub struct Identifier {
    text: String,
}

impl View for Identifier {
    type V = Seq<char>;

    closed spec fn view(&self) -> Seq<char> {
        self.text@
    }
}

impl Identifier {
    #[verifier::type_invariant]
    spec fn inv(&self) -> bool {
        self.text@.len() > 0
    }

    /// Builds an identifier from non-empty text.
    pub fn new(id: &str) -> (r: Identifier)
        requires
            id@.len() > 0,
        ensures
            r@ == id@,
    {
        Identifier { text: id.to_string() }
    }

    /// Builds an identifier, failing with `InvalidIdentifierValue` on empty text.
    pub fn parse(id: &str) -> (r: Result<Identifier, Error>)
        ensures
            id@.len() > 0 <==> r is Ok,
            r matches Ok(i) ==> i@ == id@,
            r matches Err(e) ==> e matches Error::InvalidIdentifierValue(t) && t@ == id@,
    {
        if id.is_empty() {
            Err(Error::InvalidIdentifierValue(id.to_string()))
        } else {
            Ok(Identifier { text: id.to_string() })
        }
    }

    /// Whether the two identifiers have the same text.
    pub fn same_text(&self, other: &Identifier) -> (r: bool)
        ensures
            r == (self@ == other@),
    {
        self.text == other.text
    }

    /// The text of this identifier.
    pub fn as_str(&self) -> (r: &str)
        ensures
            r@ == self@,
            r@.len() > 0,
    {
        proof {
            use_type_invariant(self);
        }
        self.text.as_str()
    }
}

impl Clone for Identifier {
    fn clone(&self) -> (r: Self)
        ensures
            r == *self,
    {
        proof {
            use_type_invariant(self);
        }
        Identifier { text: self.text.clone() }
    }
}


impl std::str::FromStr for Identifier {
    type Err = Error;

    fn from_str(s: &str) -> Result<Identifier, Error> {
        Identifier::parse(s)
    }
}

/// The views of a sequence of identifiers.
pub open spec fn names(ids: Seq<Identifier>) -> Seq<Seq<char>> {
    ids.map_values(|i: Identifier| i@)
}

/// A non-empty path of identifiers, such as `std::io` or `a/b/c`.
#[derive(Debug, PartialEq, Eq, PartialOrd, Ord, Hash)]
pub struct Namespace {
    path: Vec<Identifier>,
}

impl View for Namespace {
    type V = Seq<Identifier>;

    closed spec fn view(&self) -> Seq<Identifier> {
        self.path@
    }
}

impl Clone for Namespace {
    fn clone(&self) -> (r: Self)
        ensures
            r@ == self@,
    {
        proof {
            use_type_invariant(self);
        }
        let mut path: Vec<Identifier> = Vec::new();
        let n = self.path.len();
        let mut i: usize = 0;
        while i < n
            invariant
                n == self.path@.len(),
                n > 0,
                i <= n,
                path@ == self.path@.take(i as int),
            decreases n - i,
        {
            path.push(self.path[i].clone());
            proof {
                assert(path@ =~= self.path@.take(i as int + 1));
            }
            i += 1;
        }
        proof {
            assert(path@ =~= self.path@);
        }
        Namespace { path }
    }
}

impl Namespace {
    #[verifier::type_invariant]
    spec fn inv(&self) -> bool {
        self.path@.len() > 0
    }

    /// Builds a namespace from a non-empty path.
    pub fn new(path: Vec<Identifier>) -> (r: Namespace)
        requires
            path@.len() > 0,
        ensures
            r@ == path@,
    {
        Namespace { path }
    }

    /// A namespace of one segment.
    pub fn from_identifier(name: Identifier) -> (r: Namespace)
        ensures
            r@ == seq![name],
    {
        let mut path = Vec::new();
        path.push(name);
        proof {
            assert(path@ =~= seq![name]);
        }
        Namespace { path }
    }

    /// This namespace with `name` appended as a new last segment.
    pub fn with(&self, name: Identifier) -> (r: Namespace)
        ensures
            r@ == self@.push(name),
    {
        let mut r = self.clone();
        r.push(name);
        r
    }

    /// The segments of this namespace.
    pub fn path(&self) -> (r: &Vec<Identifier>)
        ensures
            r@ == self@,
            r@.len() > 0,
    {
        proof {
            use_type_invariant(self);
        }
        &self.path
    }

    /// Removes and returns the last segment, unless it is the only one: a namespace
    /// never becomes empty.
    pub fn pop(&mut self) -> (r: Option<Identifier>)
        ensures
            old(self)@.len() > 1 ==> r == Some(old(self)@.last()) && final(self)@
                == old(self)@.drop_last(),
            old(self)@.len() <= 1 ==> r is None && final(self)@ == old(self)@,
    {
        proof {
            use_type_invariant(&*self);
        }
        if self.path.len() > 1 {
            let mut path = self.path.clone();
            assert(path@ =~= self.path@);
            let r = path.pop();
            *self = Namespace { path };
            r
        } else {
            None
        }
    }

    /// Appends `name` as a new last segment.
    pub fn push(&mut self, name: Identifier)
        ensures
            final(self)@ == old(self)@.push(name),
    {
        proof {
            use_type_invariant(&*self);
        }
        let mut path = self.path.clone();
        assert(path@ =~= self.path@);
        path.push(name);
        *self = Namespace { path };
    }

    /// Whether some segment has the same text as `name`.
    pub fn contains(&self, name: &Identifier) -> (r: bool)
        ensures
            r == names(self@).contains(name@),
    {
        let n = self.path.len();
        let mut i: usize = 0;
        while i < n
            invariant
                n == self.path@.len(),
                i <= n,
                forall|j: int| 0 <= j < i ==> self.path@[j]@ != name@,
            decreases n - i,
        {
            if self.path[i].same_text(name) {
                proof {
                    assert(names(self@)[i as int] == name@);
                }
                return true;
            }
            i += 1;
        }
        proof {
            if names(self@).contains(name@) {
                let k = choose|k: int| 0 <= k < names(self@).len() && names(self@)[k] == name@;
                assert(self.path@[k]@ == name@);
            }
        }
        false
    }

    /// The segments' text joined by `separator`.
    pub fn join(&self, separator: &str) -> (r: String)
        ensures
            r@ == join(names(self@), separator@),
    {
        let mut parts: Vec<String> = Vec::new();
        let n = self.path.len();
        let mut i: usize = 0;
        while i < n
            invariant
                n == self.path@.len(),
                i <= n,
                views(parts@) == names(self.path@).take(i as int),
            decreases n - i,
        {
            let ghost before = parts@;
            parts.push(String::from_str(self.path[i].as_str()));
            proof {
                assert(parts@ == before.push(parts@.last()));
                assert(views(parts@) =~= views(before).push(self.path@[i as int]@));
                assert(views(parts@) =~= names(self.path@).take(i as int + 1));
            }
            i += 1;
        }
        proof {
            assert(names(self.path@).take(n as int) =~= names(self.path@));
        }
        join_strings(&parts, separator)
    }
}

/// An entity with a name.
pub trait HasName: Sized {
    /// The name field.
    spec fn name_of(&self) -> Identifier;

    /// This value with the name field replaced.
    spec fn with_name(self, name: Identifier) -> Self;

    fn name(&self) -> (r: &Identifier)
        ensures
            *r == self.name_of(),
    ;

    fn set_name(&mut self, name: Identifier) -> (r: &mut Self)
        ensures
            *r == old(self).with_name(name),
            *final(self) == *final(r),
    ;

    /// Whether the two names have the same text.
    fn same_name_as(&self, other: &Self) -> (r: bool)
        ensures
            r == (self.name_of()@ == other.name_of()@),
    {
        self.name().same_text(other.name())
    }
}

} // verus!
