use xml_struct::casing::{to_pascal_case, to_upper};
use xml_struct::encode::{boolean_text, encode_attribute, encode_content, integer_text};
use xml_struct::shape::qualify;
use xml_struct::{FieldDescriptor, Placement, Primitive, VariantDescriptor, VariantKind};

#[test]
fn integers_are_written_in_decimal() {
    assert_eq!(integer_text(0), "0");
    assert_eq!(integer_text(7), "7");
    assert_eq!(integer_text(10), "10");
    assert_eq!(integer_text(-1), "-1");
    assert_eq!(integer_text(1234567890), "1234567890");
    assert_eq!(integer_text(-9876543210), "-9876543210");
    assert_eq!(integer_text(u64::MAX as i128), "18446744073709551615");
    assert_eq!(integer_text(i64::MIN as i128), "-9223372036854775808");
    assert_eq!(integer_text(i128::MAX), i128::MAX.to_string());
    assert_eq!(integer_text(i128::MIN), i128::MIN.to_string());
}

#[test]
fn booleans_are_written_as_lowercase_words() {
    assert_eq!(boolean_text(true), "true");
    assert_eq!(boolean_text(false), "false");
}

#[test]
fn primitives_encode_alike_as_attribute_and_as_content() {
    let cases = vec![
        (Primitive::Text(String::from("a <b> & c")), "a <b> & c"),
        (Primitive::Text(String::new()), ""),
        (Primitive::Bool(true), "true"),
        (Primitive::Bool(false), "false"),
        (Primitive::Integer(-12), "-12"),
        (Primitive::Integer(0), "0"),
    ];
    for (value, expected) in cases {
        assert_eq!(encode_attribute(&value), expected);
        assert_eq!(encode_content(&value), expected);
    }
}

#[test]
fn snake_case_becomes_pascal_case() {
    assert_eq!(to_pascal_case("content"), "Content");
    assert_eq!(to_pascal_case("str_attr"), "StrAttr");
    assert_eq!(
        to_pascal_case("more_complex_field_name"),
        "MoreComplexFieldName"
    );
    assert_eq!(to_pascal_case(""), "");
    assert_eq!(to_pascal_case("_"), "");
    assert_eq!(to_pascal_case("__leading"), "Leading");
    assert_eq!(to_pascal_case("trailing__"), "Trailing");
    assert_eq!(to_pascal_case("a__b"), "AB");
    assert_eq!(to_pascal_case("AlreadyPascal"), "AlreadyPascal");
    assert_eq!(to_pascal_case("mixedCase_here"), "MixedCaseHere");
    assert_eq!(to_pascal_case("field0"), "Field0");
    assert_eq!(to_pascal_case("x_1_y"), "X1Y");
    assert_eq!(to_pascal_case("élan_vital"), "élanVital");
}

#[test]
fn only_ascii_lowercase_letters_are_capitalised() {
    assert_eq!(to_upper('a'), 'A');
    assert_eq!(to_upper('z'), 'Z');
    assert_eq!(to_upper('m'), 'M');
    assert_eq!(to_upper('A'), 'A');
    assert_eq!(to_upper('0'), '0');
    assert_eq!(to_upper('`'), '`');
    assert_eq!(to_upper('{'), '{');
    assert_eq!(to_upper('é'), 'é');
}

#[test]
fn names_are_qualified_by_their_prefix() {
    assert_eq!(qualify(&None, "Name"), "Name");
    assert_eq!(qualify(&Some(String::from("ns")), "Name"), "ns:Name");
    let field = FieldDescriptor {
        name: String::from("string_attr"),
        placement: Placement::Attribute,
        ns_prefix: Some(String::from("other_ns")),
        flatten: false,
        declaration_order: 0,
    };
    assert_eq!(field.qualified_name(), "other_ns:StringAttr");
    let variant = VariantDescriptor {
        name: String::from("SomeValue"),
        kind: VariantKind::Unit,
        ns_prefix: Some(String::from("foo")),
    };
    assert_eq!(variant.qualified_name(), "foo:SomeValue");
}
