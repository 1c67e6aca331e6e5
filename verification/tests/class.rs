use classfile_model::class::push_member;
use classfile_model::{ClassVersion, Constant, FieldType, MethodDescriptor, MethodHandle};
use std::collections::hash_map::DefaultHasher;
use std::hash::{Hash, Hasher};
use std::sync::Arc;

fn shared(s: &str) -> Arc<str> {
    Arc::from(s)
}

fn hashed<T: Hash>(value: &T) -> u64 {
    let mut hasher = DefaultHasher::new();
    value.hash(&mut hasher);
    hasher.finish()
}

fn int_to_long() -> MethodDescriptor {
    MethodDescriptor::new(vec![FieldType::Int], Some(FieldType::Long))
}

fn method_ref(class: &str, name: &str, method_type: MethodDescriptor) -> Constant {
    Constant::MethodRef { class: shared(class), name: shared(name), method_type }
}

fn shown(c: &Constant) -> String {
    match c.render() {
        Some(s) => s,
        None => panic!("no rendering"),
    }
}

#[test]
fn class_version_defaults_to_zero() {
    let v = ClassVersion::default();
    assert_eq!(v.minor_version, 0);
    assert_eq!(v.major_version, 0);
}

#[test]
fn class_version_keeps_what_it_is_given() {
    let v = ClassVersion { minor_version: 3, major_version: 52 };
    let copy = v;
    assert_eq!(copy.minor_version, 3);
    assert_eq!(copy.major_version, 52);
    assert_eq!(format!("{:?}", v), "ClassVersion { minor_version: 3, major_version: 52 }");
}

#[test]
fn bytes_of_long_minus_one_are_two_full_words() {
    assert_eq!(Constant::Long(-1i64).bytes(), vec![0xFFFF_FFFFu32, 0xFFFF_FFFFu32]);
}

#[test]
fn bytes_of_double_zero_are_two_zero_words() {
    assert_eq!(Constant::Double(0.0f64.to_bits()).bytes(), vec![0u32, 0u32]);
}

#[test]
fn bytes_of_int_forty_two() {
    assert_eq!(Constant::Int(42).bytes(), vec![42u32]);
}

#[test]
fn bytes_of_int_hold_the_bit_pattern() {
    assert_eq!(Constant::Int(0).bytes(), vec![0u32]);
    assert_eq!(Constant::Int(-1).bytes(), vec![0xFFFF_FFFFu32]);
    assert_eq!(Constant::Int(-2).bytes(), vec![0xFFFF_FFFEu32]);
    assert_eq!(Constant::Int(i32::MIN).bytes(), vec![0x8000_0000u32]);
    assert_eq!(Constant::Int(i32::MAX).bytes(), vec![0x7FFF_FFFFu32]);
}

#[test]
fn bytes_of_float_hold_the_bit_pattern() {
    assert_eq!(Constant::Float(1.0f32.to_bits()).bytes(), vec![0x3F80_0000u32]);
    assert_eq!(Constant::Float((-0.0f32).to_bits()).bytes(), vec![0x8000_0000u32]);
    assert_eq!(Constant::Float(0).bytes(), vec![0u32]);
    assert_eq!(Constant::Float(0xFFFF_FFFF).bytes(), vec![0xFFFF_FFFFu32]);
}

#[test]
fn bytes_of_long_put_the_low_word_first() {
    assert_eq!(
        Constant::Long(0x1122_3344_5566_7788).bytes(),
        vec![0x5566_7788u32, 0x1122_3344u32]
    );
    assert_eq!(Constant::Long(1).bytes(), vec![1u32, 0u32]);
    assert_eq!(Constant::Long(1 << 32).bytes(), vec![0u32, 1u32]);
    assert_eq!(Constant::Long(0).bytes(), vec![0u32, 0u32]);
    assert_eq!(Constant::Long(i64::MIN).bytes(), vec![0u32, 0x8000_0000u32]);
    assert_eq!(Constant::Long(i64::MAX).bytes(), vec![0xFFFF_FFFFu32, 0x7FFF_FFFFu32]);
    assert_eq!(Constant::Long(-2).bytes(), vec![0xFFFF_FFFEu32, 0xFFFF_FFFFu32]);
    assert_eq!(Constant::Long(-(1 << 32)).bytes(), vec![0u32, 0xFFFF_FFFFu32]);
}

#[test]
fn bytes_of_double_put_the_low_word_first() {
    assert_eq!(Constant::Double(1.0f64.to_bits()).bytes(), vec![0u32, 0x3FF0_0000u32]);
    assert_eq!(
        Constant::Double(0x0123_4567_89AB_CDEF).bytes(),
        vec![0x89AB_CDEFu32, 0x0123_4567u32]
    );
    assert_eq!(Constant::Double(u64::MAX).bytes(), vec![0xFFFF_FFFFu32, 0xFFFF_FFFFu32]);
}

#[test]
fn bytes_of_wide_entries_rejoin_to_the_pattern() {
    for l in [0i64, 1, -1, 42, -42, i64::MIN, i64::MAX, 0x1234_5678_9ABC_DEF0] {
        let words = Constant::Long(l).bytes();
        assert_eq!(words.len(), 2);
        assert_eq!((words[0] as u64) | ((words[1] as u64) << 32), l as u64);
    }
    for d in [0.0f64, 1.5, -3.25, f64::MAX, f64::MIN_POSITIVE, f64::INFINITY] {
        let words = Constant::Double(d.to_bits()).bytes();
        assert_eq!(words.len(), 2);
        assert_eq!(f64::from_bits((words[0] as u64) | ((words[1] as u64) << 32)), d);
    }
}

#[test]
fn bytes_of_every_other_entry_are_one_zero_word() {
    let others = vec![
        Constant::String(shared("text")),
        Constant::ClassRef(shared("a/B")),
        Constant::StringRef(shared("text")),
        Constant::FieldRef { class: shared("a/B"), name: shared("x"), field_type: FieldType::Long },
        method_ref("a/B", "run", int_to_long()),
        Constant::InterfaceRef {
            class: shared("a/B"),
            name: shared("run"),
            interface_type: int_to_long(),
        },
        Constant::NameTypeDescriptor { name: shared("x"), type_descriptor: shared("J") },
        Constant::MethodHandle(MethodHandle::GetField {
            class: shared("a/B"),
            name: shared("x"),
            field_type: FieldType::Double,
        }),
        Constant::MethodType(int_to_long()),
        Constant::InvokeDynamic {
            bootstrap_index: 7,
            method_name: shared("run"),
            method_type: int_to_long(),
        },
        Constant::Placeholder,
    ];
    for c in others {
        assert_eq!(c.bytes(), vec![0u32]);
    }
}

#[test]
fn text_renders_quoted() {
    assert_eq!(shown(&Constant::String(shared("hi"))), "\"hi\"");
    assert_eq!(shown(&Constant::String(shared(""))), "\"\"");
    assert_eq!(shown(&Constant::String(shared("a\"b\\c\n"))), "\"a\\\"b\\\\c\\n\"");
    assert_eq!(shown(&Constant::String(shared("tab\there"))), format!("{:?}", "tab\there"));
}

#[test]
fn string_reference_renders_quoted_after_an_ampersand() {
    assert_eq!(shown(&Constant::StringRef(shared("hi"))), "&\"hi\"");
    assert_eq!(shown(&Constant::StringRef(shared("a\"b"))), "&\"a\\\"b\"");
}

#[test]
fn integers_render_in_decimal() {
    assert_eq!(shown(&Constant::Int(42)), "42");
    assert_eq!(shown(&Constant::Int(0)), "0");
    assert_eq!(shown(&Constant::Int(-1)), "-1");
    assert_eq!(shown(&Constant::Int(10)), "10");
    assert_eq!(shown(&Constant::Int(-100)), "-100");
    assert_eq!(shown(&Constant::Int(i32::MAX)), "2147483647");
    assert_eq!(shown(&Constant::Int(i32::MIN)), "-2147483648");
}

#[test]
fn longs_render_in_decimal() {
    assert_eq!(shown(&Constant::Long(0)), "0");
    assert_eq!(shown(&Constant::Long(9)), "9");
    assert_eq!(shown(&Constant::Long(-9)), "-9");
    assert_eq!(shown(&Constant::Long(1234567890123)), "1234567890123");
    assert_eq!(shown(&Constant::Long(i64::MAX)), "9223372036854775807");
    assert_eq!(shown(&Constant::Long(i64::MIN)), "-9223372036854775808");
}

#[test]
fn decimal_rendering_agrees_with_the_usual_form() {
    for i in [0i32, 1, 9, 10, 11, 99, 100, 101, 1000, 65535, -5, -10, -999, 1_000_000_007] {
        assert_eq!(shown(&Constant::Int(i)), format!("{}", i));
        assert_eq!(shown(&Constant::Long(i as i64 * 1_000_003)), format!("{}", i as i64 * 1_000_003));
    }
}

#[test]
fn floating_entries_have_no_rendering() {
    assert!(Constant::Float(1.0f32.to_bits()).render().is_none());
    assert!(Constant::Float(0).render().is_none());
    assert!(Constant::Double(1.0f64.to_bits()).render().is_none());
    assert!(Constant::Double(f64::NAN.to_bits()).render().is_none());
}

#[test]
fn every_other_entry_has_a_rendering() {
    assert!(Constant::Int(1).render().is_some());
    assert!(Constant::Long(1).render().is_some());
    assert!(Constant::Placeholder.render().is_some());
    assert!(Constant::String(shared("x")).render().is_some());
    assert!(Constant::MethodType(MethodDescriptor::empty()).render().is_some());
}

#[test]
fn class_reference_renders_after_the_word_class() {
    assert_eq!(shown(&Constant::ClassRef(shared("java/lang/Object"))), "class java/lang/Object");
}

#[test]
fn field_reference_renders_type_class_and_name() {
    let c = Constant::FieldRef {
        class: shared("a/B"),
        name: shared("count"),
        field_type: FieldType::Array(Box::new(FieldType::Int)),
    };
    assert_eq!(shown(&c), "Field(int[] a/B.count)");
}

#[test]
fn method_reference_renders_descriptor_class_and_name() {
    assert_eq!(shown(&method_ref("a/B", "run", int_to_long())), "Method(long 1(int) a/B.run)");
    assert_eq!(
        shown(&method_ref("a/B", "<init>", MethodDescriptor::empty())),
        "Method(void 0() a/B.<init>)"
    );
}

#[test]
fn interface_reference_renders_as_an_interface_method() {
    let c = Constant::InterfaceRef {
        class: shared("a/I"),
        name: shared("call"),
        interface_type: MethodDescriptor::new(
            vec![FieldType::Long, FieldType::Object(shared("a/B"))],
            None,
        ),
    };
    assert_eq!(shown(&c), "InterfaceMethod(void 3(long, a/B) a/I.call)");
}

#[test]
fn name_and_type_renders_the_descriptor_first() {
    let c = Constant::NameTypeDescriptor { name: shared("count"), type_descriptor: shared("[I") };
    assert_eq!(shown(&c), "NameTypeDescriptor([I count)");
}

#[test]
fn method_type_renders_its_descriptor() {
    assert_eq!(shown(&Constant::MethodType(int_to_long())), "MethodType(long 1(int))");
}

#[test]
fn invoke_dynamic_renders_index_descriptor_and_name() {
    let c = Constant::InvokeDynamic {
        bootstrap_index: 7,
        method_name: shared("apply"),
        method_type: int_to_long(),
    };
    assert_eq!(shown(&c), "InvokeDynamic(#7 long 1(int) apply)");
    let c = Constant::InvokeDynamic {
        bootstrap_index: u16::MAX,
        method_name: shared("f"),
        method_type: MethodDescriptor::empty(),
    };
    assert_eq!(shown(&c), "InvokeDynamic(#65535 void 0() f)");
    let c = Constant::InvokeDynamic {
        bootstrap_index: 0,
        method_name: shared("f"),
        method_type: MethodDescriptor::empty(),
    };
    assert_eq!(shown(&c), "InvokeDynamic(#0 void 0() f)");
}

#[test]
fn placeholder_renders_its_name() {
    assert_eq!(shown(&Constant::Placeholder), "Placeholder");
}

#[test]
fn method_handle_entry_wraps_the_handle() {
    let c = Constant::MethodHandle(MethodHandle::InvokeStatic {
        class: shared("a/B"),
        name: shared("run"),
        method_type: MethodDescriptor::empty(),
    });
    assert_eq!(
        shown(&c),
        "MethodHandle(InvokeStatic { class: \"a/B\", name: \"run\", method_type: void 0() })"
    );
}

#[test]
fn field_handles_render_with_their_kind() {
    let make = |kind: u8| {
        let class = shared("a/B");
        let name = shared("x");
        let field_type = FieldType::Array(Box::new(FieldType::Object(shared("c/D"))));
        match kind {
            0 => MethodHandle::GetField { class, name, field_type },
            1 => MethodHandle::GetStatic { class, name, field_type },
            2 => MethodHandle::PutField { class, name, field_type },
            _ => MethodHandle::PutStatic { class, name, field_type },
        }
    };
    let tail = " { class: \"a/B\", name: \"x\", field_type: Array(Object(\"c/D\")) }";
    assert_eq!(make(0).render(), format!("GetField{}", tail));
    assert_eq!(make(1).render(), format!("GetStatic{}", tail));
    assert_eq!(make(2).render(), format!("PutField{}", tail));
    assert_eq!(make(3).render(), format!("PutStatic{}", tail));
}

#[test]
fn method_handles_render_with_their_kind() {
    let make = |kind: u8| {
        let class = shared("a/B");
        let name = shared("run");
        let method_type = int_to_long();
        match kind {
            0 => MethodHandle::InvokeVirtual { class, name, method_type },
            1 => MethodHandle::InvokeStatic { class, name, method_type },
            2 => MethodHandle::InvokeSpecial { class, name, method_type },
            3 => MethodHandle::NewInvokeSpecial { class, name, method_type },
            _ => MethodHandle::InvokeInterface { class, name, method_type },
        }
    };
    let tail = " { class: \"a/B\", name: \"run\", method_type: long 1(int) }";
    assert_eq!(make(0).render(), format!("InvokeVirtual{}", tail));
    assert_eq!(make(1).render(), format!("InvokeStatic{}", tail));
    assert_eq!(make(2).render(), format!("InvokeSpecial{}", tail));
    assert_eq!(make(3).render(), format!("NewInvokeSpecial{}", tail));
    assert_eq!(make(4).render(), format!("InvokeInterface{}", tail));
}

#[test]
fn method_handle_escapes_class_and_name() {
    let h = MethodHandle::GetField {
        class: shared("a\"B"),
        name: shared("x\ny"),
        field_type: FieldType::Int,
    };
    assert_eq!(h.render(), "GetField { class: \"a\\\"B\", name: \"x\\ny\", field_type: Int }");
}

#[test]
fn method_handle_render_into_appends() {
    let mut out = String::from("h = ");
    MethodHandle::PutStatic { class: shared("C"), name: shared("f"), field_type: FieldType::Byte }
        .render_into(&mut out);
    assert_eq!(out, "h = PutStatic { class: \"C\", name: \"f\", field_type: Byte }");
}

#[test]
fn push_member_lays_out_the_fields() {
    let mut out = String::from(">");
    push_member(&mut out, "Kind", "C", "n", "label", "payload");
    assert_eq!(out, ">Kind { class: C, name: n, label: payload }");
    let mut out = String::new();
    push_member(&mut out, "", "", "", "", "");
    assert_eq!(out, " { class: , name: , :  }");
}

#[test]
fn method_handles_are_equal_by_kind_and_content() {
    let get = |class: &str, name: &str, field_type: FieldType| MethodHandle::GetField {
        class: shared(class),
        name: shared(name),
        field_type,
    };
    assert!(get("a/B", "x", FieldType::Int) == get("a/B", "x", FieldType::Int));
    assert!(get("a/B", "x", FieldType::Int) != get("a/C", "x", FieldType::Int));
    assert!(get("a/B", "x", FieldType::Int) != get("a/B", "y", FieldType::Int));
    assert!(get("a/B", "x", FieldType::Int) != get("a/B", "x", FieldType::Long));
    let put = MethodHandle::PutField {
        class: shared("a/B"),
        name: shared("x"),
        field_type: FieldType::Int,
    };
    assert!(get("a/B", "x", FieldType::Int) != put);
    let call = |method_type: MethodDescriptor| MethodHandle::InvokeVirtual {
        class: shared("a/B"),
        name: shared("run"),
        method_type,
    };
    assert!(call(int_to_long()) == call(int_to_long()));
    assert!(call(int_to_long()) != call(MethodDescriptor::empty()));
    let special = MethodHandle::InvokeSpecial {
        class: shared("a/B"),
        name: shared("run"),
        method_type: int_to_long(),
    };
    assert!(call(int_to_long()) != special);
    assert_eq!(hashed(&call(int_to_long())), hashed(&call(int_to_long())));
}

#[test]
fn method_handle_clone_is_equal() {
    let h = MethodHandle::NewInvokeSpecial {
        class: shared("a/B"),
        name: shared("<init>"),
        method_type: int_to_long(),
    };
    let copy = h.clone();
    assert!(h == copy);
    assert_eq!(h.render(), copy.render());
    let h = MethodHandle::GetStatic {
        class: shared("a/B"),
        name: shared("x"),
        field_type: FieldType::Char,
    };
    assert!(h == h.clone());
}

#[test]
fn method_refs_with_the_same_fields_are_equal_and_hash_alike() {
    let a = method_ref("a/B", "run", int_to_long());
    let b = method_ref("a/B", "run", int_to_long());
    assert!(a == b);
    assert_eq!(hashed(&a), hashed(&b));
}

#[test]
fn method_refs_differ_when_one_field_changes() {
    let a = method_ref("a/B", "run", int_to_long());
    assert!(a != method_ref("a/C", "run", int_to_long()));
    assert!(a != method_ref("a/B", "walk", int_to_long()));
    assert!(a != method_ref("a/B", "run", MethodDescriptor::empty()));
    assert!(
        a != method_ref(
            "a/B",
            "run",
            MethodDescriptor::new(vec![FieldType::Int], Some(FieldType::Int))
        )
    );
    assert!(
        a != method_ref(
            "a/B",
            "run",
            MethodDescriptor::new(vec![FieldType::Short], Some(FieldType::Long))
        )
    );
}

#[test]
fn method_ref_is_not_an_interface_ref() {
    let a = method_ref("a/B", "run", int_to_long());
    let b = Constant::InterfaceRef {
        class: shared("a/B"),
        name: shared("run"),
        interface_type: int_to_long(),
    };
    assert!(a != b);
}

#[test]
fn placeholder_equals_only_placeholder() {
    assert!(Constant::Placeholder == Constant::Placeholder);
    assert!(Constant::Placeholder != Constant::Int(0));
    assert!(Constant::Placeholder != Constant::Long(0));
    assert!(Constant::Placeholder != Constant::Float(0));
    assert!(Constant::Placeholder != Constant::String(shared("")));
    assert!(Constant::Int(0) != Constant::Placeholder);
}

#[test]
fn literal_entries_are_equal_by_value() {
    assert!(Constant::Int(5) == Constant::Int(5));
    assert!(Constant::Int(5) != Constant::Int(6));
    assert!(Constant::Int(5) != Constant::Long(5));
    assert!(Constant::Long(-1) == Constant::Long(-1));
    assert!(Constant::Float(1.0f32.to_bits()) == Constant::Float(1.0f32.to_bits()));
    assert!(Constant::Float(1.0f32.to_bits()) != Constant::Float(2.0f32.to_bits()));
    assert!(Constant::Double(1.0f64.to_bits()) == Constant::Double(1.0f64.to_bits()));
    assert!(Constant::Double(1.0f64.to_bits()) != Constant::Double(1.5f64.to_bits()));
    assert!(Constant::Float(0) != Constant::Int(0));
    assert!(Constant::String(shared("a")) == Constant::String(shared("a")));
    assert!(Constant::String(shared("a")) != Constant::String(shared("b")));
    assert!(Constant::String(shared("a")) != Constant::StringRef(shared("a")));
    assert!(Constant::String(shared("a")) != Constant::ClassRef(shared("a")));
    assert!(Constant::ClassRef(shared("a")) == Constant::ClassRef(shared("a")));
}

#[test]
fn floating_entries_are_equal_by_their_bits() {
    assert!(Constant::Float(0.0f32.to_bits()) != Constant::Float((-0.0f32).to_bits()));
    assert!(Constant::Float(f32::NAN.to_bits()) == Constant::Float(f32::NAN.to_bits()));
    assert!(Constant::Double(0.0f64.to_bits()) != Constant::Double((-0.0f64).to_bits()));
}

#[test]
fn composite_entries_are_equal_by_content() {
    let field = |class: &str, name: &str, field_type: FieldType| Constant::FieldRef {
        class: shared(class),
        name: shared(name),
        field_type,
    };
    assert!(field("a/B", "x", FieldType::Int) == field("a/B", "x", FieldType::Int));
    assert!(field("a/B", "x", FieldType::Int) != field("a/B", "x", FieldType::Byte));
    assert!(field("a/B", "x", FieldType::Int) != field("a/B", "z", FieldType::Int));
    assert!(field("a/B", "x", FieldType::Int) != field("a/Z", "x", FieldType::Int));
    let pair = |name: &str, type_descriptor: &str| Constant::NameTypeDescriptor {
        name: shared(name),
        type_descriptor: shared(type_descriptor),
    };
    assert!(pair("x", "I") == pair("x", "I"));
    assert!(pair("x", "I") != pair("x", "J"));
    assert!(pair("x", "I") != pair("y", "I"));
    let dynamic = |bootstrap_index: u16, name: &str| Constant::InvokeDynamic {
        bootstrap_index,
        method_name: shared(name),
        method_type: int_to_long(),
    };
    assert!(dynamic(1, "f") == dynamic(1, "f"));
    assert!(dynamic(1, "f") != dynamic(2, "f"));
    assert!(dynamic(1, "f") != dynamic(1, "g"));
    assert!(Constant::MethodType(int_to_long()) == Constant::MethodType(int_to_long()));
    assert!(Constant::MethodType(int_to_long()) != Constant::MethodType(MethodDescriptor::empty()));
}

#[test]
fn constant_clone_is_equal_and_renders_alike() {
    let all = vec![
        Constant::String(shared("text")),
        Constant::Int(-7),
        Constant::Long(1 << 40),
        Constant::ClassRef(shared("a/B")),
        Constant::StringRef(shared("text")),
        Constant::FieldRef { class: shared("a/B"), name: shared("x"), field_type: FieldType::Long },
        method_ref("a/B", "run", int_to_long()),
        Constant::InterfaceRef {
            class: shared("a/B"),
            name: shared("run"),
            interface_type: int_to_long(),
        },
        Constant::NameTypeDescriptor { name: shared("x"), type_descriptor: shared("J") },
        Constant::MethodHandle(MethodHandle::InvokeInterface {
            class: shared("a/B"),
            name: shared("x"),
            method_type: int_to_long(),
        }),
        Constant::MethodType(int_to_long()),
        Constant::InvokeDynamic {
            bootstrap_index: 7,
            method_name: shared("run"),
            method_type: int_to_long(),
        },
        Constant::Placeholder,
    ];
    for c in all {
        let copy = c.clone();
        assert!(copy == c);
        assert_eq!(copy.render(), c.render());
        assert_eq!(copy.bytes(), c.bytes());
        assert_eq!(hashed(&copy), hashed(&c));
    }
    let f = Constant::Float(0x7FC0_0001);
    assert!(f.clone() == f);
    assert_eq!(f.clone().bytes(), vec![0x7FC0_0001u32]);
    let d = Constant::Double(0x7FF8_0000_0000_0001);
    assert!(d.clone() == d);
}
