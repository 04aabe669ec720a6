//! Visitors and what they visit: an inspector calls on firms and
//! foundations, and each visit is put in words.

use vstd::prelude::*;
use vstd::string::*;

verus! {

/// Something with a name.
pub trait HasName {
    /// The name.
    spec fn spec_name(&self) -> Seq<char>;

    /// The name.
    fn name(&self) -> (name: String)
        ensures
            name@ == self.spec_name(),
    ;
}

/// Someone who visits things of type `T`.
pub trait Visitor<T> {
    /// The words for a visit to `visitable`.
    spec fn spec_visit(&self, visitable: &T) -> Seq<char>;

    /// Visits `visitable` and puts the visit in words.
    fn visit(&self, visitable: &T) -> (said: String)
        ensures
            said@ == self.spec_visit(visitable),
    ;
}

/// Something that lets visitors of type `T` in.
pub trait Visitable<T> {
    /// The words for the visit of `visitor`.
    spec fn spec_accept(&self, visitor: &T) -> Seq<char>;

    /// Lets `visitor` in.
    fn accept(&self, visitor: &T) -> (said: String)
        ensures
            said@ == self.spec_accept(visitor),
    ;
}

/// The words for a visit: who, the word "visits", whom.
pub open spec fn visit_words(visitor: Seq<char>, visited: Seq<char>) -> Seq<char> {
    visitor + " visits "@ + visited
}

/// An inspector.
pub struct Inspector {
    name: String,
}

impl Inspector {
    /// An inspector called `name`.
    pub fn new(name: &str) -> (inspector: Inspector)
        ensures
            inspector.spec_name() == name@,
    {
        Inspector { name: name.to_owned() }
    }
}

impl HasName for Inspector {
    closed spec fn spec_name(&self) -> Seq<char> {
        self.name@
    }

    fn name(&self) -> (name: String) {
        self.name.clone()
    }
}

impl<T> Visitor<T> for Inspector where T: HasName {
    open spec fn spec_visit(&self, visitable: &T) -> Seq<char> {
        visit_words(self.spec_name(), visitable.spec_name())
    }

    fn visit(&self, visitable: &T) -> (said: String) {
        let mut said = self.name.clone();
        said.append(" visits ");
        let visited = visitable.name();
        said.append(visited.as_str());
        said
    }
}

/// A firm.
pub struct Firm {
    name: String,
}

impl Firm {
    /// A firm called `name`.
    pub fn new(name: &str) -> (firm: Firm)
        ensures
            firm.spec_name() == name@,
    {
        Firm { name: name.to_owned() }
    }
}

impl HasName for Firm {
    closed spec fn spec_name(&self) -> Seq<char> {
        self.name@
    }

    fn name(&self) -> (name: String) {
        self.name.clone()
    }
}

impl Visitable<Inspector> for Firm {
    open spec fn spec_accept(&self, visitor: &Inspector) -> Seq<char> {
        visit_words(visitor.spec_name(), self.spec_name())
    }

    fn accept(&self, visitor: &Inspector) -> (said: String) {
        visitor.visit(self)
    }
}

/// A foundation.
pub struct Foundation {
    name: String,
}

impl Foundation {
    /// A foundation called `name`.
    pub fn new(name: &str) -> (foundation: Foundation)
        ensures
            foundation.spec_name() == name@,
    {
        Foundation { name: name.to_owned() }
    }
}

impl HasName for Foundation {
    closed spec fn spec_name(&self) -> Seq<char> {
        self.name@
    }

    fn name(&self) -> (name: String) {
        self.name.clone()
    }
}

impl Visitable<Inspector> for Foundation {
    open spec fn spec_accept(&self, visitor: &Inspector) -> Seq<char> {
        visit_words(visitor.spec_name(), self.spec_name())
    }

    fn accept(&self, visitor: &Inspector) -> (said: String) {
        visitor.visit(self)
    }
}

} // verus!
