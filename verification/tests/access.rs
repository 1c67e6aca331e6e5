use classfile_model::AccessFlags;
use std::collections::hash_map::DefaultHasher;
use std::hash::{Hash, Hasher};

#[test]
fn masks_have_the_values_of_the_format() {
    assert_eq!(AccessFlags::ACC_PUBLIC, 0x0001);
    assert_eq!(AccessFlags::ACC_PRIVATE, 0x0002);
    assert_eq!(AccessFlags::ACC_PROTECTED, 0x0004);
    assert_eq!(AccessFlags::ACC_STATIC, 0x0008);
    assert_eq!(AccessFlags::ACC_FINAL, 0x0010);
    assert_eq!(AccessFlags::ACC_SYNCHRONIZED, 0x0020);
    assert_eq!(AccessFlags::ACC_VOLATILE, 0x0040);
    assert_eq!(AccessFlags::ACC_TRANSIENT, 0x0080);
    assert_eq!(AccessFlags::ACC_NATIVE, 0x0100);
    assert_eq!(AccessFlags::ACC_ABSTRACT, 0x0400);
    assert_eq!(AccessFlags::ACC_STRICT, 0x0800);
    assert_eq!(AccessFlags::ACC_SYNTHETIC, 0x1000);
    assert_eq!(AccessFlags::ACC_ENUM, 0x4000);
    assert_eq!(AccessFlags::ACC_NAMED, 0x5dff);
}

#[test]
fn public_static_final_renders_in_that_order() {
    let flags = AccessFlags(AccessFlags::ACC_PUBLIC)
        | AccessFlags(AccessFlags::ACC_STATIC)
        | AccessFlags(AccessFlags::ACC_FINAL);
    assert_eq!(flags.0, 0x0019);
    assert_eq!(flags.render(), "public static final ");
}

#[test]
fn order_of_combination_does_not_change_the_rendering() {
    let flags = AccessFlags(AccessFlags::ACC_FINAL)
        | AccessFlags(AccessFlags::ACC_PUBLIC)
        | AccessFlags(AccessFlags::ACC_STATIC);
    assert_eq!(flags.render(), "public static final ");
}

#[test]
fn no_flags_render_as_nothing() {
    assert_eq!(AccessFlags(0).render(), "");
    assert_eq!(AccessFlags(0).render_debug(), "AccessFlags()");
}

#[test]
fn every_named_flag_renders_in_bit_order() {
    assert_eq!(
        AccessFlags(0x5dff).render(),
        "public private protected static final synchronized volatile transient native \
         abstract fp-strict synthetic enum "
    );
    assert_eq!(AccessFlags(0xffff).render(), AccessFlags(0x5dff).render());
}

#[test]
fn each_flag_renders_its_own_keyword() {
    let table: [(u16, &str); 13] = [
        (0x0001, "public "),
        (0x0002, "private "),
        (0x0004, "protected "),
        (0x0008, "static "),
        (0x0010, "final "),
        (0x0020, "synchronized "),
        (0x0040, "volatile "),
        (0x0080, "transient "),
        (0x0100, "native "),
        (0x0400, "abstract "),
        (0x0800, "fp-strict "),
        (0x1000, "synthetic "),
        (0x4000, "enum "),
    ];
    for (mask, word) in table {
        assert_eq!(AccessFlags(mask).render(), word);
    }
}

#[test]
fn unnamed_bits_are_kept_and_not_rendered() {
    let flags = AccessFlags(0x0200 | 0x2000 | 0x8000);
    assert_eq!(flags.0, 0xa200);
    assert_eq!(flags.render(), "");
    assert!(!flags.is_static());
    assert!(!flags.is_native());
    assert!(!flags.is_abstract());
    let more = flags | AccessFlags(AccessFlags::ACC_NATIVE);
    assert_eq!(more.0, 0xa300);
    assert_eq!(more.render(), "native ");
    assert_eq!(more.render(), AccessFlags(more.0 & AccessFlags::ACC_NAMED).render());
}

#[test]
fn is_static_looks_at_its_bit_only() {
    assert!(AccessFlags(0x0008).is_static());
    assert!(AccessFlags(0xffff).is_static());
    assert!(!AccessFlags(0xffff & !0x0008).is_static());
    assert!(!AccessFlags(0).is_static());
}

#[test]
fn is_native_looks_at_its_bit_only() {
    assert!(AccessFlags(0x0100).is_native());
    assert!(AccessFlags(0xffff).is_native());
    assert!(!AccessFlags(0xffff & !0x0100).is_native());
    assert!(!AccessFlags(0x0200).is_native());
}

#[test]
fn is_abstract_looks_at_its_bit_only() {
    assert!(AccessFlags(0x0400).is_abstract());
    assert!(AccessFlags(0xffff).is_abstract());
    assert!(!AccessFlags(0xffff & !0x0400).is_abstract());
    assert!(!AccessFlags(0x0200).is_abstract());
}

#[test]
fn or_is_the_union() {
    let a = AccessFlags(0x0009);
    let b = AccessFlags(0x0108);
    assert!((a | b) == AccessFlags(0x0109));
    assert!((a | b).is_static());
    assert!((a | b).is_native());
    assert!((a | AccessFlags(0)) == a);
}

#[test]
fn and_is_the_intersection() {
    let a = AccessFlags(0x0009);
    let b = AccessFlags(0x0108);
    assert!((a & b) == AccessFlags(0x0008));
    assert!((a & b).is_static());
    assert!(!(a & b).is_native());
    let mask = AccessFlags(AccessFlags::ACC_PUBLIC | AccessFlags::ACC_STATIC);
    assert!((a & mask) == mask);
    assert!((b & mask) != mask);
    assert!((b & mask).0 != 0);
    assert!((a & AccessFlags(0)) == AccessFlags(0));
}

#[test]
fn debug_rendering_wraps_the_keywords() {
    assert_eq!(AccessFlags(0x0009).render_debug(), "AccessFlags(public static )");
    assert_eq!(AccessFlags(0x4000).render_debug(), "AccessFlags(enum )");
}

#[test]
fn render_into_appends() {
    let mut out = String::from("flags: ");
    AccessFlags(0x0011).render_into(&mut out);
    assert_eq!(out, "flags: public final ");
}

#[test]
fn equal_flags_hash_alike() {
    let mut a = DefaultHasher::new();
    let mut b = DefaultHasher::new();
    AccessFlags(0x0019).hash(&mut a);
    (AccessFlags(0x0001) | AccessFlags(0x0018)).hash(&mut b);
    assert_eq!(a.finish(), b.finish());
}
