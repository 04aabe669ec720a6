//! Decorators: a printer that is wrapped says how the wrapped one looks
//! before it lets it speak.
//!
//! Nothing is written out here. Each printer gives the text that it
//! prints, and whoever holds the output writes it.

use crate::text::{debug_quoted, quoted};
use vstd::prelude::*;
use vstd::string::*;

verus! {

/// Something that can say how it looks.
pub trait Inspect {
    /// How it looks.
    spec fn spec_inspect(&self) -> Seq<char>;

    /// How it looks.
    fn inspect(&self) -> (look: String)
        ensures
            look@ == self.spec_inspect(),
    ;
}

/// Something that prints a line.
pub trait Print {
    /// What it prints.
    spec fn spec_print(&self) -> Seq<char>;

    /// Gives what it prints, the end of the line included.
    fn print(&self) -> (output: String)
        ensures
            output@ == self.spec_print(),
    ;
}

/// Something that prints without ending the line, and can say how it looks.
pub trait DynPrint {
    /// How it looks.
    spec fn spec_look(&self) -> Seq<char>;

    /// How it looks.
    fn look(&self) -> (look: String)
        ensures
            look@ == self.spec_look(),
    ;

    /// What it prints.
    spec fn spec_dynprint(&self) -> Seq<char>;

    /// Gives what it prints.
    fn dynprint(&self) -> (output: String)
        ensures
            output@ == self.spec_dynprint(),
    ;
}

/// A text to print.
pub struct Base {
    /// The text.
    pub text: String,
}

impl Base {
    /// A copy.
    pub fn duplicate(&self) -> (copy: Base)
        ensures
            copy.text@ == self.text@,
    {
        Base { text: self.text.clone() }
    }
}

/// How a `Base` looks whose text, quoted, is `quoted_text`.
pub open spec fn spec_base_look(quoted_text: Seq<char>) -> Seq<char> {
    "Base { text: "@ + quoted_text + " }"@
}

/// How a `Base` looks whose text, quoted, is `quoted_text`.
pub fn base_look(quoted_text: &str) -> (look: String)
    ensures
        look@ == spec_base_look(quoted_text@),
{
    let mut look = "Base { text: ".to_owned();
    look.append(quoted_text);
    look.append(" }");
    look
}

impl Inspect for Base {
    open spec fn spec_inspect(&self) -> Seq<char> {
        spec_base_look(debug_quoted(self.text@))
    }

    fn inspect(&self) -> (look: String) {
        let inner = quoted(self.text.as_str());
        base_look(inner.as_str())
    }
}

impl Print for Base {
    open spec fn spec_print(&self) -> Seq<char> {
        self.text@ + "\n"@
    }

    fn print(&self) -> (output: String) {
        let mut output = self.text.clone();
        output.append("\n");
        output
    }
}

impl DynPrint for Base {
    open spec fn spec_look(&self) -> Seq<char> {
        self.spec_inspect()
    }

    fn look(&self) -> (look: String) {
        self.inspect()
    }

    open spec fn spec_dynprint(&self) -> Seq<char> {
        self.text@
    }

    fn dynprint(&self) -> (output: String) {
        self.text.clone()
    }
}

/// A decorator over a printer whose type is known.
pub struct GenDebugDecorator<T: Inspect + Print>(pub T);

impl<T: Inspect + Print> GenDebugDecorator<T> {
    /// Wraps `base`.
    pub fn new(base: T) -> (decorator: Self)
        ensures
            decorator.0 == base,
    {
        GenDebugDecorator(base)
    }
}

impl<T: Inspect + Print> Print for GenDebugDecorator<T> {
    /// A line with the look of the wrapped printer, then what that prints.
    open spec fn spec_print(&self) -> Seq<char> {
        self.0.spec_inspect() + "\n"@ + self.0.spec_print()
    }

    fn print(&self) -> (output: String) {
        let mut output = self.0.inspect();
        output.append("\n");
        let inner = self.0.print();
        output.append(inner.as_str());
        output
    }
}

/// A decorator over a printer whose type is not known.
pub struct DynDebugDecorator(Box<dyn DynPrint>);

impl DynDebugDecorator {
    /// How the wrapped printer looks.
    pub closed spec fn spec_inner_look(&self) -> Seq<char> {
        (*self.0).spec_look()
    }

    /// What the wrapped printer prints.
    pub closed spec fn spec_inner_output(&self) -> Seq<char> {
        (*self.0).spec_dynprint()
    }

    /// What the decorator prints: a line with the look of the wrapped
    /// printer, then what that prints.
    pub open spec fn spec_dynprint(&self) -> Seq<char> {
        self.spec_inner_look() + "\n"@ + self.spec_inner_output()
    }

    /// Wraps `base`.
    pub fn new(mut base: Box<dyn DynPrint>) -> (decorator: Self)
        ensures
            decorator.spec_inner_look() == (*base).spec_look(),
            decorator.spec_inner_output() == (*base).spec_dynprint(),
    {
        let mut decorator = DynDebugDecorator(Box::new(Base { text: String::new() }));
        std::mem::swap(&mut decorator.0, &mut base);
        decorator
    }

    /// Gives what the decorator prints.
    pub fn dynprint(&self) -> (output: String)
        ensures
            output@ == self.spec_dynprint(),
    {
        let mut output = self.0.look();
        output.append("\n");
        let inner = self.0.dynprint();
        output.append(inner.as_str());
        output
    }
}

} // verus!
