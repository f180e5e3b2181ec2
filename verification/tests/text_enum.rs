use xml_struct::{
    serialize_value_as_element, serialize_value_children, FieldDescriptor, Placement, Primitive,
    ShapeKind, TypeShape, Value, VariantDescriptor, VariantKind,
};

fn field(name: &str, placement: Placement, declaration_order: usize) -> FieldDescriptor {
    FieldDescriptor {
        name: String::from(name),
        placement,
        ns_prefix: None,
        flatten: false,
        declaration_order,
    }
}

fn unit(name: &str) -> VariantDescriptor {
    VariantDescriptor {
        name: String::from(name),
        kind: VariantKind::Unit,
        ns_prefix: None,
    }
}

fn text(content: &str) -> Value<'static> {
    Value::Primitive(Primitive::Text(String::from(content)))
}

// #[text]
// enum TextEnum { A, Two, Gamma }
fn text_enum_shape() -> TypeShape {
    TypeShape {
        kind: ShapeKind::Enum {
            variants: vec![unit("A"), unit("Two"), unit("Gamma")],
            text_mode: true,
        },
        namespace_decls: vec![],
        default_namespace_uri: None,
    }
}

// struct StructWithTextEnumFields {
//     child_field: String,
//     #[attribute] string_attr: String,
//     #[attribute] enum_attr: TextEnum,
//     enum_child: TextEnum,
// }
fn struct_with_text_enum_fields_shape() -> TypeShape {
    TypeShape {
        kind: ShapeKind::Struct(vec![
            field("child_field", Placement::Element, 0),
            field("string_attr", Placement::Attribute, 1),
            field("enum_attr", Placement::Attribute, 2),
            field("enum_child", Placement::Element, 3),
        ]),
        namespace_decls: vec![],
        default_namespace_uri: None,
    }
}

fn struct_value<'a>(shape: &'a TypeShape, text_enum: &'a TypeShape) -> Value<'a> {
    Value::Struct {
        shape,
        fields: vec![
            text("this is a regular string field"),
            text("this is a regular attr field"),
            Value::Enum {
                shape: text_enum,
                variant: 2,
                fields: vec![],
            },
            Value::Enum {
                shape: text_enum,
                variant: 0,
                fields: vec![],
            },
        ],
    }
}

#[test]
fn text_enum() {
    let shape = text_enum_shape();
    let content = Value::Enum {
        shape: &shape,
        variant: 1,
        fields: vec![],
    };
    assert!(content.conforms());

    let expected = "Two";

    let actual = serialize_value_children(content).expect("Failed to write enum");

    assert_eq!(
        actual, expected,
        "Variants of text enums should be serialized as a text node"
    );
}

#[test]
fn text_enum_as_element() {
    let shape = text_enum_shape();
    let content = Value::Enum {
        shape: &shape,
        variant: 1,
        fields: vec![],
    };

    let expected = r#"<foo>Two</foo>"#;

    let actual = serialize_value_as_element(content, "foo").expect("Failed to write enum");

    assert_eq!(
        actual, expected,
        "Variants of text enums should be serialized as a parented text node"
    );
}

#[test]
fn struct_with_text_enum_fields() {
    let text_enum = text_enum_shape();
    let shape = struct_with_text_enum_fields_shape();
    let content = struct_value(&shape, &text_enum);
    assert!(content.conforms());

    let expected =
        "<ChildField>this is a regular string field</ChildField><EnumChild>A</EnumChild>";

    let actual = serialize_value_children(content).expect("Failed to write struct");

    assert_eq!(
        actual, expected,
        "Text enum fields should be serialized as text nodes"
    )
}

#[test]
fn struct_with_text_enum_fields_as_element() {
    let text_enum = text_enum_shape();
    let shape = struct_with_text_enum_fields_shape();
    let content = struct_value(&shape, &text_enum);

    let expected = r#"<namehere StringAttr="this is a regular attr field" EnumAttr="Gamma"><ChildField>this is a regular string field</ChildField><EnumChild>A</EnumChild></namehere>"#;

    let actual = serialize_value_as_element(content, "namehere").expect("Failed to write struct");

    assert_eq!(
        actual, expected,
        "Text enum attributes should be serialized as text values"
    )
}
