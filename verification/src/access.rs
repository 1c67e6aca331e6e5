//! Access and modifier flags of classes, fields and methods.

use vstd::prelude::*;
use vstd::std_specs::ops::{BitAndSpecImpl, BitOrSpecImpl};

verus! {

/// A set of modifiers, one bit each.
///
/// | mask                 | value    | keyword        |
/// |----------------------|----------|----------------|
/// | `ACC_PUBLIC`         | `0x0001` | `public`       |
/// | `ACC_PRIVATE`        | `0x0002` | `private`      |
/// | `ACC_PROTECTED`      | `0x0004` | `protected`    |
/// | `ACC_STATIC`         | `0x0008` | `static`       |
/// | `ACC_FINAL`          | `0x0010` | `final`        |
/// | `ACC_SYNCHRONIZED`   | `0x0020` | `synchronized` |
/// | `ACC_VOLATILE`       | `0x0040` | `volatile`     |
/// | `ACC_TRANSIENT`      | `0x0080` | `transient`    |
/// | `ACC_NATIVE`         | `0x0100` | `native`       |
/// | `ACC_ABSTRACT`       | `0x0400` | `abstract`     |
/// | `ACC_STRICT`         | `0x0800` | `fp-strict`    |
/// | `ACC_SYNTHETIC`      | `0x1000` | `synthetic`    |
/// | `ACC_ENUM`           | `0x4000` | `enum`         |
///
/// Every 16-bit value is a valid set. The bits `0x0200`, `0x2000` and `0x8000`
/// have no meaning here: they are kept as they are and never interpreted.
#[derive(Clone, Copy, PartialEq, Eq, Hash, Structural)]
pub struct AccessFlags(pub u16);

impl AccessFlags {
    pub const ACC_PUBLIC: u16 = 0x0001;

    pub const ACC_PRIVATE: u16 = 0x0002;

    pub const ACC_PROTECTED: u16 = 0x0004;

    pub const ACC_STATIC: u16 = 0x0008;

    pub const ACC_FINAL: u16 = 0x0010;

    pub const ACC_SYNCHRONIZED: u16 = 0x0020;

    pub const ACC_VOLATILE: u16 = 0x0040;

    pub const ACC_TRANSIENT: u16 = 0x0080;

    pub const ACC_NATIVE: u16 = 0x0100;

    pub const ACC_ABSTRACT: u16 = 0x0400;

    pub const ACC_STRICT: u16 = 0x0800;

    pub const ACC_SYNTHETIC: u16 = 0x1000;

    pub const ACC_ENUM: u16 = 0x4000;

    /// All the bits that carry a modifier.
    pub const ACC_NAMED: u16 = 0x5dff;

    /// Some bit of `mask` is set in `self`.
    pub open spec fn has(self, mask: u16) -> bool {
        self.0 & mask != 0
    }

    /// Every bit of `mask` is set in `self`.
    pub open spec fn has_all(self, mask: u16) -> bool {
        self.0 & mask == mask
    }

    /// `word` if some bit of `mask` is set, nothing otherwise.
    pub open spec fn keyword(self, mask: u16, word: &str) -> Seq<char> {
        if self.has(mask) {
            word@
        } else {
            Seq::empty()
        }
    }

    /// The keywords of the modifiers that are set, each followed by one
    /// space, in the order of their bits.
    pub open spec fn rendered(self) -> Seq<char> {
        self.keyword(Self::ACC_PUBLIC, "public ")
            + self.keyword(Self::ACC_PRIVATE, "private ")
            + self.keyword(Self::ACC_PROTECTED, "protected ")
            + self.keyword(Self::ACC_STATIC, "static ")
            + self.keyword(Self::ACC_FINAL, "final ")
            + self.keyword(Self::ACC_SYNCHRONIZED, "synchronized ")
            + self.keyword(Self::ACC_VOLATILE, "volatile ")
            + self.keyword(Self::ACC_TRANSIENT, "transient ")
            + self.keyword(Self::ACC_NATIVE, "native ")
            + self.keyword(Self::ACC_ABSTRACT, "abstract ")
            + self.keyword(Self::ACC_STRICT, "fp-strict ")
            + self.keyword(Self::ACC_SYNTHETIC, "synthetic ")
            + self.keyword(Self::ACC_ENUM, "enum ")
    }

    /// The rendering between `AccessFlags(` and `)`.
    pub open spec fn debug_rendered(self) -> Seq<char> {
        "AccessFlags("@ + self.rendered() + ")"@
    }

    #[must_use]
    pub fn is_static(self) -> (r: bool)
        ensures
            r == self.has(Self::ACC_STATIC),
    {
        self.0 & Self::ACC_STATIC != 0
    }

    #[must_use]
    pub fn is_native(self) -> (r: bool)
        ensures
            r == self.has(Self::ACC_NATIVE),
    {
        self.0 & Self::ACC_NATIVE != 0
    }

    #[must_use]
    pub fn is_abstract(self) -> (r: bool)
        ensures
            r == self.has(Self::ACC_ABSTRACT),
    {
        self.0 & Self::ACC_ABSTRACT != 0
    }

    /// Appends `word` to `out` if some bit of `mask` is set. `out` holds `head`
    /// and then `tail`, and the keyword joins `tail`.
    fn push_keyword(
        self,
        out: &mut String,
        mask: u16,
        word: &str,
        Ghost(head): Ghost<Seq<char>>,
        Ghost(tail): Ghost<Seq<char>>,
    ) -> (grown: Ghost<Seq<char>>)
        requires
            old(out)@ == head + tail,
        ensures
            grown@ == tail + self.keyword(mask, word),
            final(out)@ == head + grown@,
    {
        if self.0 & mask != 0 {
            out.append(word);
        }
        assert(out@ =~= head + (tail + self.keyword(mask, word)));
        Ghost(tail + self.keyword(mask, word))
    }

    /// Appends the keywords of `self` to `out`.
    pub fn render_into(self, out: &mut String)
        ensures
            final(out)@ == old(out)@ + self.rendered(),
    {
        let ghost head = out@;
        let ghost none = Seq::<char>::empty();
        assert(out@ =~= head + none);
        let t = self.push_keyword(out, Self::ACC_PUBLIC, "public ", Ghost(head), Ghost(none));
        assert(t@ =~= self.keyword(Self::ACC_PUBLIC, "public "));
        let t = self.push_keyword(out, Self::ACC_PRIVATE, "private ", Ghost(head), t);
        let t = self.push_keyword(out, Self::ACC_PROTECTED, "protected ", Ghost(head), t);
        let t = self.push_keyword(out, Self::ACC_STATIC, "static ", Ghost(head), t);
        let t = self.push_keyword(out, Self::ACC_FINAL, "final ", Ghost(head), t);
        let t = self.push_keyword(out, Self::ACC_SYNCHRONIZED, "synchronized ", Ghost(head), t);
        let t = self.push_keyword(out, Self::ACC_VOLATILE, "volatile ", Ghost(head), t);
        let t = self.push_keyword(out, Self::ACC_TRANSIENT, "transient ", Ghost(head), t);
        let t = self.push_keyword(out, Self::ACC_NATIVE, "native ", Ghost(head), t);
        let t = self.push_keyword(out, Self::ACC_ABSTRACT, "abstract ", Ghost(head), t);
        let t = self.push_keyword(out, Self::ACC_STRICT, "fp-strict ", Ghost(head), t);
        let t = self.push_keyword(out, Self::ACC_SYNTHETIC, "synthetic ", Ghost(head), t);
        let _ = self.push_keyword(out, Self::ACC_ENUM, "enum ", Ghost(head), t);
    }

    /// The modifiers as text: `public static final ` for the three of them.
    pub fn render(self) -> (r: String)
        ensures
            r@ == self.rendered(),
    {
        let mut out = String::new();
        self.render_into(&mut out);
        assert(out@ =~= self.rendered());
        out
    }

    /// The text of `render` inside `AccessFlags(` and `)`.
    pub fn render_debug(self) -> (r: String)
        ensures
            r@ == self.debug_rendered(),
    {
        let mut out = String::from_str("AccessFlags(");
        self.render_into(&mut out);
        out.append(")");
        out
    }

    /// The union of two sets holds a modifier exactly if one of them does.
    pub proof fn lemma_union(self, rhs: Self, mask: u16)
        ensures
            AccessFlags(self.0 | rhs.0).has(mask) == (self.has(mask) || rhs.has(mask)),
            AccessFlags(self.0 | rhs.0).has_all(mask) <== (self.has_all(mask) || rhs.has_all(mask)),
    {
        let a = self.0;
        let b = rhs.0;
        assert(((a | b) & mask != 0) == ((a & mask != 0) || (b & mask != 0))) by (bit_vector);
        assert(((a & mask == mask) || (b & mask == mask)) ==> ((a | b) & mask == mask))
            by (bit_vector);
    }

    /// The intersection of two sets holds all of `mask` exactly if both do,
    /// and holds none of it if one of them holds none.
    pub proof fn lemma_intersection(self, rhs: Self, mask: u16)
        ensures
            AccessFlags(self.0 & rhs.0).has_all(mask) == (self.has_all(mask) && rhs.has_all(mask)),
            AccessFlags(self.0 & rhs.0).has(mask) ==> (self.has(mask) && rhs.has(mask)),
    {
        let a = self.0;
        let b = rhs.0;
        assert(((a & b) & mask == mask) == ((a & mask == mask) && (b & mask == mask)))
            by (bit_vector);
        assert(((a & b) & mask != 0) ==> ((a & mask != 0) && (b & mask != 0))) by (bit_vector);
    }

    /// The bits without a modifier change nothing in the rendering.
    pub proof fn lemma_unnamed_bits_not_rendered(self)
        ensures
            AccessFlags(self.0 & Self::ACC_NAMED).rendered() == self.rendered(),
    {
        let a = self.0;
        assert(forall|m: u16| #![trigger (a & 0x5dff) & m]
            m & 0x5dff == m ==> ((a & 0x5dff) & m != 0) == (a & m != 0)) by {
            assert forall|m: u16| m & 0x5dff == m implies (#[trigger] ((a & 0x5dff) & m) != 0) == (a
                & m != 0) by {
                assert(m & 0x5dff == m ==> (((a & 0x5dff) & m != 0) == (a & m != 0)))
                    by (bit_vector);
            }
        }
        assert(0x0001u16 & 0x5dff == 0x0001u16) by (bit_vector);
        assert(0x0002u16 & 0x5dff == 0x0002u16) by (bit_vector);
        assert(0x0004u16 & 0x5dff == 0x0004u16) by (bit_vector);
        assert(0x0008u16 & 0x5dff == 0x0008u16) by (bit_vector);
        assert(0x0010u16 & 0x5dff == 0x0010u16) by (bit_vector);
        assert(0x0020u16 & 0x5dff == 0x0020u16) by (bit_vector);
        assert(0x0040u16 & 0x5dff == 0x0040u16) by (bit_vector);
        assert(0x0080u16 & 0x5dff == 0x0080u16) by (bit_vector);
        assert(0x0100u16 & 0x5dff == 0x0100u16) by (bit_vector);
        assert(0x0400u16 & 0x5dff == 0x0400u16) by (bit_vector);
        assert(0x0800u16 & 0x5dff == 0x0800u16) by (bit_vector);
        assert(0x1000u16 & 0x5dff == 0x1000u16) by (bit_vector);
        assert(0x4000u16 & 0x5dff == 0x4000u16) by (bit_vector);
    }
}

impl core::ops::BitOr for AccessFlags {
    type Output = Self;

    /// The union of the two sets.
    fn bitor(self, rhs: Self) -> (r: Self)
        ensures
            r.0 == self.0 | rhs.0,
    {
        AccessFlags(self.0 | rhs.0)
    }
}

impl BitOrSpecImpl for AccessFlags {
    open spec fn obeys_bitor_spec() -> bool {
        true
    }

    open spec fn bitor_req(self, rhs: Self) -> bool {
        true
    }

    open spec fn bitor_spec(self, rhs: Self) -> Self {
        AccessFlags(self.0 | rhs.0)
    }
}

impl core::ops::BitAnd for AccessFlags {
    type Output = Self;

    /// The intersection of the two sets.
    fn bitand(self, rhs: Self) -> (r: Self)
        ensures
            r.0 == self.0 & rhs.0,
    {
        AccessFlags(self.0 & rhs.0)
    }
}

impl BitAndSpecImpl for AccessFlags {
    open spec fn obeys_bitand_spec() -> bool {
        true
    }

    open spec fn bitand_req(self, rhs: Self) -> bool {
        true
    }

    open spec fn bitand_spec(self, rhs: Self) -> Self {
        AccessFlags(self.0 & rhs.0)
    }
}

} // verus!
