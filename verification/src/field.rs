//! The types of fields, parameters and results.

use crate::access::AccessFlags;
use crate::text::{name_text, quote, quoted, same_text, share, text};
use std::sync::Arc;
use vstd::prelude::*;
use vstd::std_specs::cmp::PartialEqSpecImpl;

verus! {

/// The type of a field, of a parameter or of a result: one of the eight
/// primitive types, an object of a class given by name, or an array.
#[derive(Debug, Eq, Hash)]
pub enum FieldType {
    Byte,
    Char,
    Double,
    Float,
    Int,
    Long,
    Object(Arc<str>),
    Short,
    Boolean,
    Array(Box<FieldType>),
}

/// What a `FieldType` stands for: the same shape, with a class name as the
/// sequence of its characters.
pub enum FieldTypeView {
    Byte,
    Char,
    Double,
    Float,
    Int,
    Long,
    Object(Seq<char>),
    Short,
    Boolean,
    Array(Box<FieldTypeView>),
}

impl FieldType {
    /// What the type stands for. `@` gives the same.
    pub open spec fn model(&self) -> FieldTypeView
        decreases self,
    {
        match self {
            FieldType::Byte => FieldTypeView::Byte,
            FieldType::Char => FieldTypeView::Char,
            FieldType::Double => FieldTypeView::Double,
            FieldType::Float => FieldTypeView::Float,
            FieldType::Int => FieldTypeView::Int,
            FieldType::Long => FieldTypeView::Long,
            FieldType::Object(class) => FieldTypeView::Object(text(class)),
            FieldType::Short => FieldTypeView::Short,
            FieldType::Boolean => FieldTypeView::Boolean,
            FieldType::Array(inner) => FieldTypeView::Array(Box::new(inner.model())),
        }
    }
}

impl View for FieldType {
    type V = FieldTypeView;

    open spec fn view(&self) -> FieldTypeView {
        self.model()
    }
}

impl FieldTypeView {
    /// The number of stack slots that a value of the type takes: two for the
    /// 64-bit types, one for every other.
    pub open spec fn size(self) -> nat {
        if self is Double || self is Long {
            2
        } else {
            1
        }
    }

    /// Whether a value of the type is a reference.
    pub open spec fn is_reference(self) -> bool {
        self is Object || self is Array
    }

    /// Whether the type is one of the eight primitive types.
    pub open spec fn is_primitive(self) -> bool {
        !self.is_reference()
    }

    /// The place of the variant in a table with one entry for each.
    pub open spec fn idx(self) -> nat {
        match self {
            FieldTypeView::Byte => 0,
            FieldTypeView::Char => 1,
            FieldTypeView::Double => 2,
            FieldTypeView::Float => 3,
            FieldTypeView::Int => 4,
            FieldTypeView::Long => 5,
            FieldTypeView::Object(_) => 6,
            FieldTypeView::Short => 7,
            FieldTypeView::Boolean => 8,
            FieldTypeView::Array(_) => 9,
        }
    }

    /// The type as source text writes it: the keyword of a primitive type,
    /// the bare name of a class, the element type and then `[]` for an array.
    pub open spec fn rendered(self) -> Seq<char>
        decreases self,
    {
        match self {
            FieldTypeView::Byte => "byte"@,
            FieldTypeView::Char => "char"@,
            FieldTypeView::Double => "double"@,
            FieldTypeView::Float => "float"@,
            FieldTypeView::Int => "int"@,
            FieldTypeView::Long => "long"@,
            FieldTypeView::Object(class) => class,
            FieldTypeView::Short => "short"@,
            FieldTypeView::Boolean => "boolean"@,
            FieldTypeView::Array(inner) => inner.rendered() + "[]"@,
        }
    }

    /// The type by the names of its variants: `Int`, `Object("a/B")` with the
    /// class name quoted, `Array(Int)`.
    pub open spec fn debug_rendered(self) -> Seq<char>
        decreases self,
    {
        match self {
            FieldTypeView::Byte => "Byte"@,
            FieldTypeView::Char => "Char"@,
            FieldTypeView::Double => "Double"@,
            FieldTypeView::Float => "Float"@,
            FieldTypeView::Int => "Int"@,
            FieldTypeView::Long => "Long"@,
            FieldTypeView::Object(class) => "Object("@ + quoted(class) + ")"@,
            FieldTypeView::Short => "Short"@,
            FieldTypeView::Boolean => "Boolean"@,
            FieldTypeView::Array(inner) => "Array("@ + inner.debug_rendered() + ")"@,
        }
    }

    /// The primitive type that a keyword names, if it names one: what a reader
    /// of the keywords has to return.
    pub open spec fn of_keyword(word: Seq<char>) -> Option<FieldTypeView> {
        if word == "byte"@ {
            Some(FieldTypeView::Byte)
        } else if word == "char"@ {
            Some(FieldTypeView::Char)
        } else if word == "double"@ {
            Some(FieldTypeView::Double)
        } else if word == "float"@ {
            Some(FieldTypeView::Float)
        } else if word == "int"@ {
            Some(FieldTypeView::Int)
        } else if word == "long"@ {
            Some(FieldTypeView::Long)
        } else if word == "short"@ {
            Some(FieldTypeView::Short)
        } else if word == "boolean"@ {
            Some(FieldTypeView::Boolean)
        } else {
            None
        }
    }

    /// Rendering a primitive type and reading the keyword again gives the
    /// type back.
    pub proof fn lemma_keyword_round_trip(self)
        requires
            self.is_primitive(),
        ensures
            Self::of_keyword(self.rendered()) == Some(self),
    {
        reveal_strlit("byte");
        reveal_strlit("char");
        reveal_strlit("double");
        reveal_strlit("float");
        reveal_strlit("int");
        reveal_strlit("long");
        reveal_strlit("short");
        reveal_strlit("boolean");
        assert("byte"@.len() == 4 && "byte"@[0] == 'b');
        assert("char"@.len() == 4 && "char"@[0] == 'c');
        assert("double"@.len() == 6);
        assert("float"@.len() == 5 && "float"@[0] == 'f');
        assert("int"@.len() == 3);
        assert("long"@.len() == 4 && "long"@[0] == 'l');
        assert("short"@.len() == 5 && "short"@[0] == 's');
        assert("boolean"@.len() == 7);
    }
}

impl FieldType {
    /// The number of stack slots that a value of the type takes.
    #[must_use]
    pub fn get_size(&self) -> (r: usize)
        ensures
            r == self@.size(),
            r == 2 <==> (self is Double || self is Long),
            r == 1 <==> !(self is Double || self is Long),
    {
        match self {
            FieldType::Double | FieldType::Long => 2,
            _ => 1,
        }
    }

    /// Whether a value of the type is a reference.
    #[must_use]
    pub fn is_reference(&self) -> (r: bool)
        ensures
            r == self@.is_reference(),
            r <==> (self is Object || self is Array),
    {
        matches!(self, FieldType::Array(_) | FieldType::Object(_))
    }

    /// The place of the variant in a table with one entry for each.
    #[must_use]
    pub fn idx(&self) -> (r: u64)
        ensures
            r == self@.idx(),
            r < 10,
    {
        match self {
            FieldType::Byte => 0,
            FieldType::Char => 1,
            FieldType::Double => 2,
            FieldType::Float => 3,
            FieldType::Int => 4,
            FieldType::Long => 5,
            FieldType::Object(_) => 6,
            FieldType::Short => 7,
            FieldType::Boolean => 8,
            FieldType::Array(_) => 9,
        }
    }

    /// Appends the type as source text writes it to `out`.
    pub fn render_into(&self, out: &mut String)
        ensures
            final(out)@ == old(out)@ + self@.rendered(),
        decreases self,
    {
        match self {
            FieldType::Byte => out.append("byte"),
            FieldType::Char => out.append("char"),
            FieldType::Double => out.append("double"),
            FieldType::Float => out.append("float"),
            FieldType::Int => out.append("int"),
            FieldType::Long => out.append("long"),
            FieldType::Object(class) => out.append(name_text(class)),
            FieldType::Short => out.append("short"),
            FieldType::Boolean => out.append("boolean"),
            FieldType::Array(inner) => {
                inner.render_into(out);
                out.append("[]");
                assert(out@ =~= old(out)@ + self@.rendered());
            },
        }
    }

    /// The type as source text writes it: `int[][]` for an array of arrays
    /// of `int`.
    pub fn render(&self) -> (r: String)
        ensures
            r@ == self@.rendered(),
    {
        let mut out = String::new();
        self.render_into(&mut out);
        assert(out@ =~= self@.rendered());
        out
    }

    /// Appends the type by the names of its variants to `out`.
    pub fn render_debug_into(&self, out: &mut String)
        ensures
            final(out)@ == old(out)@ + self@.debug_rendered(),
        decreases self,
    {
        match self {
            FieldType::Byte => out.append("Byte"),
            FieldType::Char => out.append("Char"),
            FieldType::Double => out.append("Double"),
            FieldType::Float => out.append("Float"),
            FieldType::Int => out.append("Int"),
            FieldType::Long => out.append("Long"),
            FieldType::Object(class) => {
                let class_quoted = quote(name_text(class));
                out.append("Object(");
                out.append(class_quoted.as_str());
                out.append(")");
                assert(out@ =~= old(out)@ + self@.debug_rendered());
            },
            FieldType::Short => out.append("Short"),
            FieldType::Boolean => out.append("Boolean"),
            FieldType::Array(inner) => {
                out.append("Array(");
                inner.render_debug_into(out);
                out.append(")");
                assert(out@ =~= old(out)@ + self@.debug_rendered());
            },
        }
    }

    /// The type by the names of its variants: `Array(Int)`.
    pub fn render_debug(&self) -> (r: String)
        ensures
            r@ == self@.debug_rendered(),
    {
        let mut out = String::new();
        self.render_debug_into(&mut out);
        assert(out@ =~= self@.debug_rendered());
        out
    }
}

impl Clone for FieldType {
    fn clone(&self) -> (r: Self)
        ensures
            r@ == self@,
        decreases self,
    {
        match self {
            FieldType::Byte => FieldType::Byte,
            FieldType::Char => FieldType::Char,
            FieldType::Double => FieldType::Double,
            FieldType::Float => FieldType::Float,
            FieldType::Int => FieldType::Int,
            FieldType::Long => FieldType::Long,
            FieldType::Object(class) => FieldType::Object(share(class)),
            FieldType::Short => FieldType::Short,
            FieldType::Boolean => FieldType::Boolean,
            FieldType::Array(inner) => FieldType::Array(Box::new((**inner).clone())),
        }
    }
}

impl PartialEq for FieldType {
    /// Two types are equal if they have the same shape and name the same
    /// classes.
    fn eq(&self, other: &Self) -> (r: bool)
        decreases self,
    {
        match (self, other) {
            (FieldType::Byte, FieldType::Byte) => true,
            (FieldType::Char, FieldType::Char) => true,
            (FieldType::Double, FieldType::Double) => true,
            (FieldType::Float, FieldType::Float) => true,
            (FieldType::Int, FieldType::Int) => true,
            (FieldType::Long, FieldType::Long) => true,
            (FieldType::Object(a), FieldType::Object(b)) => same_text(name_text(a), name_text(b)),
            (FieldType::Short, FieldType::Short) => true,
            (FieldType::Boolean, FieldType::Boolean) => true,
            (FieldType::Array(a), FieldType::Array(b)) => (**a).eq(&**b),
            _ => false,
        }
    }
}

impl PartialEqSpecImpl for FieldType {
    open spec fn obeys_eq_spec() -> bool {
        true
    }

    open spec fn eq_spec(&self, other: &Self) -> bool {
        self@ == other@
    }
}

/// A field of a class: its type, its name, the class that declares it and
/// its modifiers.
#[derive(Hash)]
pub struct FieldHandle<FT = FieldType> {
    pub ty: FT,
    pub name: Arc<str>,
    pub class: Arc<str>,
    pub access: AccessFlags,
}

impl FieldHandle<FieldType> {
    /// The field as a declaration shows it: the modifiers, the type, and the
    /// name after the class and a dot.
    pub open spec fn rendered(&self) -> Seq<char> {
        self.access.rendered() + " "@ + self.ty@.rendered() + " "@ + text(&self.class) + "."@
            + text(&self.name)
    }

    /// The field as a declaration shows it, such as
    /// `public static  int a/B.count`.
    pub fn render(&self) -> (r: String)
        ensures
            r@ == self.rendered(),
    {
        let mut out = self.access.render();
        out.append(" ");
        self.ty.render_into(&mut out);
        out.append(" ");
        out.append(name_text(&self.class));
        out.append(".");
        out.append(name_text(&self.name));
        out
    }
}

} // verus!
