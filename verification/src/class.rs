//! The entries of a constant pool, the handles that bind call sites, and the
//! version of a class file.

use crate::field::{FieldType, FieldTypeView};
use crate::method::{MethodDescriptor, MethodDescriptorView};
use crate::text::{
    decimal, name_text, push_decimal, push_signed_decimal, quote, quoted, same_name, share,
    signed_decimal, text,
};
use std::sync::Arc;
use vstd::prelude::*;
use vstd::std_specs::cmp::PartialEqSpecImpl;

verus! {

/// The version of the class-file format that a class was written in.
#[derive(Debug, Clone, Copy)]
pub struct ClassVersion {
    pub minor_version: u16,
    pub major_version: u16,
}

impl Default for ClassVersion {
    /// Version 0.0.
    fn default() -> (r: Self)
        ensures
            r.minor_version == 0,
            r.major_version == 0,
    {
        ClassVersion { minor_version: 0, major_version: 0 }
    }
}

/// The low 32 bits of an integer, read as a word.
pub open spec fn low_word(value: int) -> u32 {
    (value % 0x1_0000_0000) as u32
}

/// The 32 bits above the low 32 bits of an integer, read as a word.
pub open spec fn high_word(value: int) -> u32 {
    ((value / 0x1_0000_0000) % 0x1_0000_0000) as u32
}

/// The low word and the high word of a 64-bit pattern give the pattern
/// back; of a negative integer, its pattern in two's complement.
pub proof fn lemma_words_rejoin(value: int)
    ensures
        low_word(value) + 0x1_0000_0000 * high_word(value) == value % 0x1_0000_0000_0000_0000,
{
    let q = value / 0x1_0000_0000;
    assert(value == 0x1_0000_0000 * q + value % 0x1_0000_0000);
    assert(q == 0x1_0000_0000 * (q / 0x1_0000_0000) + q % 0x1_0000_0000);
}

/// The bit pattern of a 32-bit integer as one word.
fn int_word(i: i32) -> (r: u32)
    ensures
        r == low_word(i as int),
{
    let r = #[verifier::truncate]
    (i as u32);
    assert(i >= 0 ==> i as u32 == i) by (bit_vector);
    assert(i < 0 ==> i as u32 == i + 0x1_0000_0000) by (bit_vector);
    r
}

/// The bit pattern of a 64-bit integer.
fn long_pattern(l: i64) -> (r: u64)
    ensures
        r == (l as int) % 0x1_0000_0000_0000_0000,
{
    let r = #[verifier::truncate]
    (l as u64);
    assert(l >= 0 ==> l as u64 == l) by (bit_vector);
    assert(l < 0 ==> l as u64 == l + 0x1_0000_0000_0000_0000) by (bit_vector);
    r
}

/// The two words of a 64-bit pattern, low word first.
fn split(bits: u64) -> (r: (u32, u32))
    ensures
        r.0 == low_word(bits as int),
        r.1 == high_word(bits as int),
{
    let low = #[verifier::truncate]
    (bits as u32);
    let high = #[verifier::truncate]
    ((bits >> 32) as u32);
    assert(bits as u32 == bits % 0x1_0000_0000) by (bit_vector);
    assert((bits >> 32) as u32 == (bits / 0x1_0000_0000) % 0x1_0000_0000) by (bit_vector);
    (low, high)
}

/// A reference that binds a call site when it is linked: one of nine kinds,
/// each with the class, the name of the member, and the type of the field
/// (for the four kinds that read or write a field) or the descriptor of the
/// method (for the five kinds that call one).
#[derive(Eq, Hash)]
pub enum MethodHandle {
    /// Reads a field of an object.
    GetField { class: Arc<str>, name: Arc<str>, field_type: FieldType },
    /// Reads a static field.
    GetStatic { class: Arc<str>, name: Arc<str>, field_type: FieldType },
    /// Writes a field of an object.
    PutField { class: Arc<str>, name: Arc<str>, field_type: FieldType },
    /// Writes a static field.
    PutStatic { class: Arc<str>, name: Arc<str>, field_type: FieldType },
    /// Calls a method of an object.
    InvokeVirtual { class: Arc<str>, name: Arc<str>, method_type: MethodDescriptor },
    /// Calls a static method.
    InvokeStatic { class: Arc<str>, name: Arc<str>, method_type: MethodDescriptor },
    /// Calls a method without dispatch.
    InvokeSpecial { class: Arc<str>, name: Arc<str>, method_type: MethodDescriptor },
    /// Makes an object and calls its constructor.
    NewInvokeSpecial { class: Arc<str>, name: Arc<str>, method_type: MethodDescriptor },
    /// Calls a method of an interface.
    InvokeInterface { class: Arc<str>, name: Arc<str>, method_type: MethodDescriptor },
}

/// What a `MethodHandle` stands for.
pub enum MethodHandleView {
    GetField { class: Seq<char>, name: Seq<char>, field_type: FieldTypeView },
    GetStatic { class: Seq<char>, name: Seq<char>, field_type: FieldTypeView },
    PutField { class: Seq<char>, name: Seq<char>, field_type: FieldTypeView },
    PutStatic { class: Seq<char>, name: Seq<char>, field_type: FieldTypeView },
    InvokeVirtual { class: Seq<char>, name: Seq<char>, method_type: MethodDescriptorView },
    InvokeStatic { class: Seq<char>, name: Seq<char>, method_type: MethodDescriptorView },
    InvokeSpecial { class: Seq<char>, name: Seq<char>, method_type: MethodDescriptorView },
    NewInvokeSpecial { class: Seq<char>, name: Seq<char>, method_type: MethodDescriptorView },
    InvokeInterface { class: Seq<char>, name: Seq<char>, method_type: MethodDescriptorView },
}

impl View for MethodHandle {
    type V = MethodHandleView;

    open spec fn view(&self) -> MethodHandleView {
        match self {
            MethodHandle::GetField { class, name, field_type } => MethodHandleView::GetField {
                class: text(class),
                name: text(name),
                field_type: field_type@,
            },
            MethodHandle::GetStatic { class, name, field_type } => MethodHandleView::GetStatic {
                class: text(class),
                name: text(name),
                field_type: field_type@,
            },
            MethodHandle::PutField { class, name, field_type } => MethodHandleView::PutField {
                class: text(class),
                name: text(name),
                field_type: field_type@,
            },
            MethodHandle::PutStatic { class, name, field_type } => MethodHandleView::PutStatic {
                class: text(class),
                name: text(name),
                field_type: field_type@,
            },
            MethodHandle::InvokeVirtual { class, name, method_type } => MethodHandleView::InvokeVirtual {
                class: text(class),
                name: text(name),
                method_type: method_type@,
            },
            MethodHandle::InvokeStatic { class, name, method_type } => MethodHandleView::InvokeStatic {
                class: text(class),
                name: text(name),
                method_type: method_type@,
            },
            MethodHandle::InvokeSpecial { class, name, method_type } => MethodHandleView::InvokeSpecial {
                class: text(class),
                name: text(name),
                method_type: method_type@,
            },
            MethodHandle::NewInvokeSpecial { class, name, method_type } => MethodHandleView::NewInvokeSpecial {
                class: text(class),
                name: text(name),
                method_type: method_type@,
            },
            MethodHandle::InvokeInterface { class, name, method_type } => MethodHandleView::InvokeInterface {
                class: text(class),
                name: text(name),
                method_type: method_type@,
            },
        }
    }
}

/// A value with named fields as a derived `Debug` shows it: the name of the
/// kind, then in braces the class, the name and, under its label, the
/// payload. The class and the name are taken as they are to be shown.
pub open spec fn member_rendered(
    kind: Seq<char>,
    class: Seq<char>,
    name: Seq<char>,
    label: Seq<char>,
    payload: Seq<char>,
) -> Seq<char> {
    kind + " { class: "@ + class + ", name: "@ + name + ", "@ + label + ": "@ + payload + " }"@
}

/// Appends a value with named fields to `out`: `kind`, then in braces
/// `class`, `name` and, under `label`, `payload`.
pub fn push_member(
    out: &mut String,
    kind: &str,
    class: &str,
    name: &str,
    label: &str,
    payload: &str,
)
    ensures
        final(out)@ == old(out)@ + member_rendered(kind@, class@, name@, label@, payload@),
{
    out.append(kind);
    out.append(" { class: ");
    out.append(class);
    out.append(", name: ");
    out.append(name);
    out.append(", ");
    out.append(label);
    out.append(": ");
    out.append(payload);
    out.append(" }");
    assert(out@ =~= old(out)@ + member_rendered(kind@, class@, name@, label@, payload@));
}

impl MethodHandleView {
    /// A handle on a field: the class and the name quoted, the type by the
    /// names of its variants.
    pub open spec fn field_member(
        kind: Seq<char>,
        class: Seq<char>,
        name: Seq<char>,
        field_type: FieldTypeView,
    ) -> Seq<char> {
        member_rendered(
            kind,
            quoted(class),
            quoted(name),
            "field_type"@,
            field_type.debug_rendered(),
        )
    }

    /// A handle on a method: the class and the name quoted, the descriptor
    /// as it renders.
    pub open spec fn method_member(
        kind: Seq<char>,
        class: Seq<char>,
        name: Seq<char>,
        method_type: MethodDescriptorView,
    ) -> Seq<char> {
        member_rendered(kind, quoted(class), quoted(name), "method_type"@, method_type.rendered())
    }

    /// The handle with the name of its kind and its fields in braces:
    /// `GetField { class: "a/B", name: "count", field_type: Int }`.
    pub open spec fn rendered(self) -> Seq<char> {
        match self {
            MethodHandleView::GetField { class, name, field_type } => Self::field_member(
                "GetField"@,
                class,
                name,
                field_type,
            ),
            MethodHandleView::GetStatic { class, name, field_type } => Self::field_member(
                "GetStatic"@,
                class,
                name,
                field_type,
            ),
            MethodHandleView::PutField { class, name, field_type } => Self::field_member(
                "PutField"@,
                class,
                name,
                field_type,
            ),
            MethodHandleView::PutStatic { class, name, field_type } => Self::field_member(
                "PutStatic"@,
                class,
                name,
                field_type,
            ),
            MethodHandleView::InvokeVirtual { class, name, method_type } => Self::method_member(
                "InvokeVirtual"@,
                class,
                name,
                method_type,
            ),
            MethodHandleView::InvokeStatic { class, name, method_type } => Self::method_member(
                "InvokeStatic"@,
                class,
                name,
                method_type,
            ),
            MethodHandleView::InvokeSpecial { class, name, method_type } => Self::method_member(
                "InvokeSpecial"@,
                class,
                name,
                method_type,
            ),
            MethodHandleView::NewInvokeSpecial { class, name, method_type } => Self::method_member(
                "NewInvokeSpecial"@,
                class,
                name,
                method_type,
            ),
            MethodHandleView::InvokeInterface { class, name, method_type } => Self::method_member(
                "InvokeInterface"@,
                class,
                name,
                method_type,
            ),
        }
    }
}

fn push_field_member(
    out: &mut String,
    kind: &str,
    class: &Arc<str>,
    name: &Arc<str>,
    field_type: &FieldType,
)
    ensures
        final(out)@ == old(out)@ + MethodHandleView::field_member(
            kind@,
            text(class),
            text(name),
            field_type@,
        ),
{
    let class_quoted = quote(name_text(class));
    let name_quoted = quote(name_text(name));
    let payload = field_type.render_debug();
    push_member(
        out,
        kind,
        class_quoted.as_str(),
        name_quoted.as_str(),
        "field_type",
        payload.as_str(),
    );
}

fn push_method_member(
    out: &mut String,
    kind: &str,
    class: &Arc<str>,
    name: &Arc<str>,
    method_type: &MethodDescriptor,
)
    ensures
        final(out)@ == old(out)@ + MethodHandleView::method_member(
            kind@,
            text(class),
            text(name),
            method_type@,
        ),
{
    let class_quoted = quote(name_text(class));
    let name_quoted = quote(name_text(name));
    let payload = method_type.render();
    push_member(
        out,
        kind,
        class_quoted.as_str(),
        name_quoted.as_str(),
        "method_type",
        payload.as_str(),
    );
}

impl MethodHandle {
    /// Appends the rendering of the handle to `out`.
    pub fn render_into(&self, out: &mut String)
        ensures
            final(out)@ == old(out)@ + self@.rendered(),
    {
        match self {
            MethodHandle::GetField { class, name, field_type } => {
                push_field_member(out, "GetField", class, name, field_type)
            },
            MethodHandle::GetStatic { class, name, field_type } => {
                push_field_member(out, "GetStatic", class, name, field_type)
            },
            MethodHandle::PutField { class, name, field_type } => {
                push_field_member(out, "PutField", class, name, field_type)
            },
            MethodHandle::PutStatic { class, name, field_type } => {
                push_field_member(out, "PutStatic", class, name, field_type)
            },
            MethodHandle::InvokeVirtual { class, name, method_type } => {
                push_method_member(out, "InvokeVirtual", class, name, method_type)
            },
            MethodHandle::InvokeStatic { class, name, method_type } => {
                push_method_member(out, "InvokeStatic", class, name, method_type)
            },
            MethodHandle::InvokeSpecial { class, name, method_type } => {
                push_method_member(out, "InvokeSpecial", class, name, method_type)
            },
            MethodHandle::NewInvokeSpecial { class, name, method_type } => {
                push_method_member(out, "NewInvokeSpecial", class, name, method_type)
            },
            MethodHandle::InvokeInterface { class, name, method_type } => {
                push_method_member(out, "InvokeInterface", class, name, method_type)
            },
        }
    }

    /// The rendering of the handle, such as
    /// `InvokeStatic { class: "a/B", name: "run", method_type: void 0() }`.
    pub fn render(&self) -> (r: String)
        ensures
            r@ == self@.rendered(),
    {
        let mut out = String::new();
        self.render_into(&mut out);
        assert(out@ =~= self@.rendered());
        out
    }
}

impl Clone for MethodHandle {
    fn clone(&self) -> (r: Self)
        ensures
            r@ == self@,
    {
        match self {
            MethodHandle::GetField { class, name, field_type } => MethodHandle::GetField {
                class: share(class),
                name: share(name),
                field_type: field_type.clone(),
            },
            MethodHandle::GetStatic { class, name, field_type } => MethodHandle::GetStatic {
                class: share(class),
                name: share(name),
                field_type: field_type.clone(),
            },
            MethodHandle::PutField { class, name, field_type } => MethodHandle::PutField {
                class: share(class),
                name: share(name),
                field_type: field_type.clone(),
            },
            MethodHandle::PutStatic { class, name, field_type } => MethodHandle::PutStatic {
                class: share(class),
                name: share(name),
                field_type: field_type.clone(),
            },
            MethodHandle::InvokeVirtual { class, name, method_type } => MethodHandle::InvokeVirtual {
                class: share(class),
                name: share(name),
                method_type: method_type.clone(),
            },
            MethodHandle::InvokeStatic { class, name, method_type } => MethodHandle::InvokeStatic {
                class: share(class),
                name: share(name),
                method_type: method_type.clone(),
            },
            MethodHandle::InvokeSpecial { class, name, method_type } => MethodHandle::InvokeSpecial {
                class: share(class),
                name: share(name),
                method_type: method_type.clone(),
            },
            MethodHandle::NewInvokeSpecial { class, name, method_type } => MethodHandle::NewInvokeSpecial {
                class: share(class),
                name: share(name),
                method_type: method_type.clone(),
            },
            MethodHandle::InvokeInterface { class, name, method_type } => MethodHandle::InvokeInterface {
                class: share(class),
                name: share(name),
                method_type: method_type.clone(),
            },
        }
    }
}

impl PartialEq for MethodHandle {
    /// Two handles are equal if they are of the same kind and agree in
    /// class, name and payload.
    fn eq(&self, other: &Self) -> (r: bool) {
        match (self, other) {
            (
                MethodHandle::GetField { class, name, field_type },
                MethodHandle::GetField { class: other_class, name: other_name, field_type: other_type },
            ) => same_name(class, other_class) && same_name(name, other_name) && field_type
                == other_type,
            (
                MethodHandle::GetStatic { class, name, field_type },
                MethodHandle::GetStatic { class: other_class, name: other_name, field_type: other_type },
            ) => same_name(class, other_class) && same_name(name, other_name) && field_type
                == other_type,
            (
                MethodHandle::PutField { class, name, field_type },
                MethodHandle::PutField { class: other_class, name: other_name, field_type: other_type },
            ) => same_name(class, other_class) && same_name(name, other_name) && field_type
                == other_type,
            (
                MethodHandle::PutStatic { class, name, field_type },
                MethodHandle::PutStatic { class: other_class, name: other_name, field_type: other_type },
            ) => same_name(class, other_class) && same_name(name, other_name) && field_type
                == other_type,
            (
                MethodHandle::InvokeVirtual { class, name, method_type },
                MethodHandle::InvokeVirtual {
                    class: other_class,
                    name: other_name,
                    method_type: other_type,
                },
            ) => same_name(class, other_class) && same_name(name, other_name) && method_type
                == other_type,
            (
                MethodHandle::InvokeStatic { class, name, method_type },
                MethodHandle::InvokeStatic {
                    class: other_class,
                    name: other_name,
                    method_type: other_type,
                },
            ) => same_name(class, other_class) && same_name(name, other_name) && method_type
                == other_type,
            (
                MethodHandle::InvokeSpecial { class, name, method_type },
                MethodHandle::InvokeSpecial {
                    class: other_class,
                    name: other_name,
                    method_type: other_type,
                },
            ) => same_name(class, other_class) && same_name(name, other_name) && method_type
                == other_type,
            (
                MethodHandle::NewInvokeSpecial { class, name, method_type },
                MethodHandle::NewInvokeSpecial {
                    class: other_class,
                    name: other_name,
                    method_type: other_type,
                },
            ) => same_name(class, other_class) && same_name(name, other_name) && method_type
                == other_type,
            (
                MethodHandle::InvokeInterface { class, name, method_type },
                MethodHandle::InvokeInterface {
                    class: other_class,
                    name: other_name,
                    method_type: other_type,
                },
            ) => same_name(class, other_class) && same_name(name, other_name) && method_type
                == other_type,
            _ => false,
        }
    }
}

impl PartialEqSpecImpl for MethodHandle {
    open spec fn obeys_eq_spec() -> bool {
        true
    }

    open spec fn eq_spec(&self, other: &Self) -> bool {
        self@ == other@
    }
}

/// An entry of a constant pool.
///
/// A `Float` and a `Double` hold the bits of an IEEE 754 number, as the class
/// file stores them; two of them are equal if the bits are. A `Long` and a
/// `Double` take two entries of a pool: the entry after one of them is a
/// `Placeholder`, which whoever builds the pool puts there.
#[derive(Eq, Hash)]
pub enum Constant {
    /// Text.
    String(Arc<str>),
    /// A 32-bit integer.
    Int(i32),
    /// The bits of a 32-bit floating-point number.
    Float(u32),
    /// A 64-bit integer.
    Long(i64),
    /// The bits of a 64-bit floating-point number.
    Double(u64),
    /// A class, by its name.
    ClassRef(Arc<str>),
    /// A string object, by its text.
    StringRef(Arc<str>),
    /// A field of a class.
    FieldRef { class: Arc<str>, name: Arc<str>, field_type: FieldType },
    /// A method of a class.
    MethodRef { class: Arc<str>, name: Arc<str>, method_type: MethodDescriptor },
    /// A method of an interface.
    InterfaceRef { class: Arc<str>, name: Arc<str>, interface_type: MethodDescriptor },
    /// A name with the text of a type descriptor.
    NameTypeDescriptor { name: Arc<str>, type_descriptor: Arc<str> },
    /// A method handle.
    MethodHandle(MethodHandle),
    /// The type of a method.
    MethodType(MethodDescriptor),
    /// A call site that a bootstrap method binds.
    InvokeDynamic { bootstrap_index: u16, method_name: Arc<str>, method_type: MethodDescriptor },
    /// The entry after a `Long` or a `Double`.
    Placeholder,
}

/// What a `Constant` stands for.
pub enum ConstantView {
    String(Seq<char>),
    Int(i32),
    Float(u32),
    Long(i64),
    Double(u64),
    ClassRef(Seq<char>),
    StringRef(Seq<char>),
    FieldRef { class: Seq<char>, name: Seq<char>, field_type: FieldTypeView },
    MethodRef { class: Seq<char>, name: Seq<char>, method_type: MethodDescriptorView },
    InterfaceRef { class: Seq<char>, name: Seq<char>, interface_type: MethodDescriptorView },
    NameTypeDescriptor { name: Seq<char>, type_descriptor: Seq<char> },
    MethodHandle(MethodHandleView),
    MethodType(MethodDescriptorView),
    InvokeDynamic { bootstrap_index: u16, method_name: Seq<char>, method_type: MethodDescriptorView },
    Placeholder,
}

impl View for Constant {
    type V = ConstantView;

    open spec fn view(&self) -> ConstantView {
        match self {
            Constant::String(s) => ConstantView::String(text(s)),
            Constant::Int(i) => ConstantView::Int(*i),
            Constant::Float(bits) => ConstantView::Float(*bits),
            Constant::Long(l) => ConstantView::Long(*l),
            Constant::Double(bits) => ConstantView::Double(*bits),
            Constant::ClassRef(class) => ConstantView::ClassRef(text(class)),
            Constant::StringRef(s) => ConstantView::StringRef(text(s)),
            Constant::FieldRef { class, name, field_type } => ConstantView::FieldRef {
                class: text(class),
                name: text(name),
                field_type: field_type@,
            },
            Constant::MethodRef { class, name, method_type } => ConstantView::MethodRef {
                class: text(class),
                name: text(name),
                method_type: method_type@,
            },
            Constant::InterfaceRef { class, name, interface_type } => ConstantView::InterfaceRef {
                class: text(class),
                name: text(name),
                interface_type: interface_type@,
            },
            Constant::NameTypeDescriptor { name, type_descriptor } => {
                ConstantView::NameTypeDescriptor {
                    name: text(name),
                    type_descriptor: text(type_descriptor),
                }
            },
            Constant::MethodHandle(handle) => ConstantView::MethodHandle(handle@),
            Constant::MethodType(method) => ConstantView::MethodType(method@),
            Constant::InvokeDynamic { bootstrap_index, method_name, method_type } => {
                ConstantView::InvokeDynamic {
                    bootstrap_index: *bootstrap_index,
                    method_name: text(method_name),
                    method_type: method_type@,
                }
            },
            Constant::Placeholder => ConstantView::Placeholder,
        }
    }
}

/// A reference to a member: `kind`, then in parentheses the type, a space,
/// and the name after the class and a dot.
pub open spec fn reference_rendered(
    kind: Seq<char>,
    member_type: Seq<char>,
    class: Seq<char>,
    name: Seq<char>,
) -> Seq<char> {
    kind + "("@ + member_type + " "@ + class + "."@ + name + ")"@
}

fn push_reference(out: &mut String, kind: &str, member_type: &str, class: &str, name: &str)
    ensures
        final(out)@ == old(out)@ + reference_rendered(kind@, member_type@, class@, name@),
{
    out.append(kind);
    out.append("(");
    out.append(member_type);
    out.append(" ");
    out.append(class);
    out.append(".");
    out.append(name);
    out.append(")");
    assert(out@ =~= old(out)@ + reference_rendered(kind@, member_type@, class@, name@));
}

impl ConstantView {
    /// Whether the entry takes two entries of a pool.
    pub open spec fn is_wide(self) -> bool {
        self is Long || self is Double
    }

    /// Whether the entry holds the bits of a floating-point number.
    pub open spec fn is_floating(self) -> bool {
        self is Float || self is Double
    }

    /// The words that encode the entry: one word for an `Int` or a `Float`,
    /// the low word and then the high word for a `Long` or a `Double`, and
    /// one word 0 for every other entry, whose encoding is made of its own
    /// fields.
    pub open spec fn words(self) -> Seq<u32> {
        match self {
            ConstantView::Int(i) => seq![low_word(i as int)],
            ConstantView::Float(bits) => seq![bits],
            ConstantView::Long(l) => seq![low_word(l as int), high_word(l as int)],
            ConstantView::Double(bits) => seq![low_word(bits as int), high_word(bits as int)],
            _ => seq![0u32],
        }
    }

    /// The entry as a listing of a pool shows it; nothing for a `Float` or a
    /// `Double`, whose digits are not made here.
    pub open spec fn rendered(self) -> Option<Seq<char>> {
        match self {
            ConstantView::String(s) => Some(quoted(s)),
            ConstantView::Int(i) => Some(signed_decimal(i as int)),
            ConstantView::Float(_) => None,
            ConstantView::Long(l) => Some(signed_decimal(l as int)),
            ConstantView::Double(_) => None,
            ConstantView::ClassRef(class) => Some("class "@ + class),
            ConstantView::StringRef(s) => Some("&"@ + quoted(s)),
            ConstantView::FieldRef { class, name, field_type } => Some(
                reference_rendered("Field"@, field_type.rendered(), class, name),
            ),
            ConstantView::MethodRef { class, name, method_type } => Some(
                reference_rendered("Method"@, method_type.rendered(), class, name),
            ),
            ConstantView::InterfaceRef { class, name, interface_type } => Some(
                reference_rendered("InterfaceMethod"@, interface_type.rendered(), class, name),
            ),
            ConstantView::NameTypeDescriptor { name, type_descriptor } => Some(
                "NameTypeDescriptor("@ + type_descriptor + " "@ + name + ")"@,
            ),
            ConstantView::MethodHandle(handle) => Some(
                "MethodHandle("@ + handle.rendered() + ")"@,
            ),
            ConstantView::MethodType(method) => Some("MethodType("@ + method.rendered() + ")"@),
            ConstantView::InvokeDynamic { bootstrap_index, method_name, method_type } => Some(
                "InvokeDynamic(#"@ + decimal(bootstrap_index as nat) + " "@ + method_type.rendered()
                    + " "@ + method_name + ")"@,
            ),
            ConstantView::Placeholder => Some("Placeholder"@),
        }
    }
}

/// Two references to a method have the same view, and so are equal under
/// `==`, exactly if they agree in class, in name and in descriptor: a change
/// in one of the three makes them differ.
pub proof fn lemma_method_ref_equality(a: Constant, b: Constant)
    requires
        a is MethodRef,
        b is MethodRef,
    ensures
        a@ == b@ <==> {
            &&& text(&a->MethodRef_class) == text(&b->MethodRef_class)
            &&& text(&a->MethodRef_name) == text(&b->MethodRef_name)
            &&& a->MethodRef_method_type@ == b->MethodRef_method_type@
        },
{
}

/// The characters of a string that may be missing.
pub open spec fn chars_of(s: Option<String>) -> Option<Seq<char>> {
    match s {
        Some(s) => Some(s@),
        None => None,
    }
}

impl Constant {
    /// The words that encode the entry in a pool: the bits of an `Int` or a
    /// `Float` in one word; the low half and then the high half of a `Long`
    /// or a `Double`; one word 0 for every other entry.
    #[must_use]
    pub fn bytes(&self) -> (r: Vec<u32>)
        ensures
            r@ == self@.words(),
            r@.len() == if self@.is_wide() { 2nat } else { 1nat },
    {
        match self {
            Constant::Int(i) => vec![int_word(*i)],
            Constant::Float(bits) => vec![*bits],
            Constant::Long(l) => {
                let pattern = long_pattern(*l);
                let (low, high) = split(pattern);
                proof {
                    lemma_same_words(*l as int, pattern as int);
                }
                vec![low, high]
            },
            Constant::Double(bits) => {
                let (low, high) = split(*bits);
                vec![low, high]
            },
            _ => vec![0],
        }
    }

    /// The entry as a listing of a pool shows it, such as
    /// `Field(int a/B.count)`; nothing for a `Float` or a `Double`.
    pub fn render(&self) -> (r: Option<String>)
        ensures
            chars_of(r) == self@.rendered(),
            r is None <==> self@.is_floating(),
    {
        let mut out = String::new();
        match self {
            Constant::String(s) => {
                let shown = quote(name_text(s));
                out.append(shown.as_str());
            },
            Constant::Int(i) => push_signed_decimal(&mut out, *i as i64),
            Constant::Float(_) => {
                return None;
            },
            Constant::Long(l) => push_signed_decimal(&mut out, *l),
            Constant::Double(_) => {
                return None;
            },
            Constant::ClassRef(class) => {
                out.append("class ");
                out.append(name_text(class));
            },
            Constant::StringRef(s) => {
                let shown = quote(name_text(s));
                out.append("&");
                out.append(shown.as_str());
            },
            Constant::FieldRef { class, name, field_type } => {
                let member_type = field_type.render();
                push_reference(
                    &mut out,
                    "Field",
                    member_type.as_str(),
                    name_text(class),
                    name_text(name),
                );
            },
            Constant::MethodRef { class, name, method_type } => {
                let member_type = method_type.render();
                push_reference(
                    &mut out,
                    "Method",
                    member_type.as_str(),
                    name_text(class),
                    name_text(name),
                );
            },
            Constant::InterfaceRef { class, name, interface_type } => {
                let member_type = interface_type.render();
                push_reference(
                    &mut out,
                    "InterfaceMethod",
                    member_type.as_str(),
                    name_text(class),
                    name_text(name),
                );
            },
            Constant::NameTypeDescriptor { name, type_descriptor } => {
                out.append("NameTypeDescriptor(");
                out.append(name_text(type_descriptor));
                out.append(" ");
                out.append(name_text(name));
                out.append(")");
            },
            Constant::MethodHandle(handle) => {
                out.append("MethodHandle(");
                handle.render_into(&mut out);
                out.append(")");
            },
            Constant::MethodType(method) => {
                out.append("MethodType(");
                method.render_into(&mut out);
                out.append(")");
            },
            Constant::InvokeDynamic { bootstrap_index, method_name, method_type } => {
                out.append("InvokeDynamic(#");
                push_decimal(&mut out, *bootstrap_index as u64);
                out.append(" ");
                method_type.render_into(&mut out);
                out.append(" ");
                out.append(name_text(method_name));
                out.append(")");
            },
            Constant::Placeholder => out.append("Placeholder"),
        }
        assert(out@ =~= self@.rendered()->0);
        Some(out)
    }
}

/// Integers that agree modulo 2^64 have the same low word and the same high
/// word.
proof fn lemma_same_words(a: int, b: int)
    requires
        b == a % 0x1_0000_0000_0000_0000,
    ensures
        low_word(a) == low_word(b),
        high_word(a) == high_word(b),
{
    let k = a / 0x1_0000_0000_0000_0000;
    assert(a == 0x1_0000_0000_0000_0000 * k + b);
    assert(a == 0x1_0000_0000 * (0x1_0000_0000 * k) + b);
    assert(a / 0x1_0000_0000 == 0x1_0000_0000 * k + b / 0x1_0000_0000);
}

impl Clone for Constant {
    fn clone(&self) -> (r: Self)
        ensures
            r@ == self@,
    {
        match self {
            Constant::String(s) => Constant::String(share(s)),
            Constant::Int(i) => Constant::Int(*i),
            Constant::Float(bits) => Constant::Float(*bits),
            Constant::Long(l) => Constant::Long(*l),
            Constant::Double(bits) => Constant::Double(*bits),
            Constant::ClassRef(class) => Constant::ClassRef(share(class)),
            Constant::StringRef(s) => Constant::StringRef(share(s)),
            Constant::FieldRef { class, name, field_type } => Constant::FieldRef {
                class: share(class),
                name: share(name),
                field_type: field_type.clone(),
            },
            Constant::MethodRef { class, name, method_type } => Constant::MethodRef {
                class: share(class),
                name: share(name),
                method_type: method_type.clone(),
            },
            Constant::InterfaceRef { class, name, interface_type } => Constant::InterfaceRef {
                class: share(class),
                name: share(name),
                interface_type: interface_type.clone(),
            },
            Constant::NameTypeDescriptor { name, type_descriptor } => {
                Constant::NameTypeDescriptor {
                    name: share(name),
                    type_descriptor: share(type_descriptor),
                }
            },
            Constant::MethodHandle(handle) => Constant::MethodHandle(handle.clone()),
            Constant::MethodType(method) => Constant::MethodType(method.clone()),
            Constant::InvokeDynamic { bootstrap_index, method_name, method_type } => {
                Constant::InvokeDynamic {
                    bootstrap_index: *bootstrap_index,
                    method_name: share(method_name),
                    method_type: method_type.clone(),
                }
            },
            Constant::Placeholder => Constant::Placeholder,
        }
    }
}

impl PartialEq for Constant {
    /// Two entries are equal if they are of the same variant and hold equal
    /// values; a `Placeholder` equals a `Placeholder` and nothing else.
    fn eq(&self, other: &Self) -> (r: bool) {
        match (self, other) {
            (Constant::String(a), Constant::String(b)) => same_name(a, b),
            (Constant::Int(a), Constant::Int(b)) => *a == *b,
            (Constant::Float(a), Constant::Float(b)) => *a == *b,
            (Constant::Long(a), Constant::Long(b)) => *a == *b,
            (Constant::Double(a), Constant::Double(b)) => *a == *b,
            (Constant::ClassRef(a), Constant::ClassRef(b)) => same_name(a, b),
            (Constant::StringRef(a), Constant::StringRef(b)) => same_name(a, b),
            (
                Constant::FieldRef { class, name, field_type },
                Constant::FieldRef { class: other_class, name: other_name, field_type: other_type },
            ) => same_name(class, other_class) && same_name(name, other_name) && field_type
                == other_type,
            (
                Constant::MethodRef { class, name, method_type },
                Constant::MethodRef {
                    class: other_class,
                    name: other_name,
                    method_type: other_type,
                },
            ) => same_name(class, other_class) && same_name(name, other_name) && method_type
                == other_type,
            (
                Constant::InterfaceRef { class, name, interface_type },
                Constant::InterfaceRef {
                    class: other_class,
                    name: other_name,
                    interface_type: other_type,
                },
            ) => same_name(class, other_class) && same_name(name, other_name) && interface_type
                == other_type,
            (
                Constant::NameTypeDescriptor { name, type_descriptor },
                Constant::NameTypeDescriptor { name: other_name, type_descriptor: other_type },
            ) => same_name(name, other_name) && same_name(type_descriptor, other_type),
            (Constant::MethodHandle(a), Constant::MethodHandle(b)) => a == b,
            (Constant::MethodType(a), Constant::MethodType(b)) => a == b,
            (
                Constant::InvokeDynamic { bootstrap_index, method_name, method_type },
                Constant::InvokeDynamic {
                    bootstrap_index: other_index,
                    method_name: other_name,
                    method_type: other_type,
                },
            ) => *bootstrap_index == *other_index && same_name(method_name, other_name)
                && method_type == other_type,
            (Constant::Placeholder, Constant::Placeholder) => true,
            _ => false,
        }
    }
}

impl PartialEqSpecImpl for Constant {
    open spec fn obeys_eq_spec() -> bool {
        true
    }

    open spec fn eq_spec(&self, other: &Self) -> bool {
        self@ == other@
    }
}

} // verus!
