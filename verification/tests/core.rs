use xml_struct::{
    serialize_value_as_element, FieldDescriptor, Placement, Primitive, ShapeKind, TypeShape,
    Value,
};

fn element_shape() -> TypeShape {
    TypeShape {
        kind: ShapeKind::Struct(vec![FieldDescriptor {
            name: String::from("content"),
            placement: Placement::Attribute,
            ns_prefix: None,
            flatten: false,
            declaration_order: 0,
        }]),
        namespace_decls: vec![],
        default_namespace_uri: None,
    }
}

#[test]
fn bool() {
    // Test `true` as a content node.
    let content = true;

    let expected = "<element>true</element>";
    let actual = serialize_value_as_element(content, "element").expect("Failed to serialize value");

    assert_eq!(
        actual, expected,
        "`true` should be serialized as string value 'true'"
    );

    // Test `false` as a content node.
    let content = false;

    let expected = "<element>false</element>";
    let actual = serialize_value_as_element(content, "element").expect("Failed to serialize value");

    assert_eq!(
        actual, expected,
        "`false` should be serialized as string value 'false'"
    );

    // A struct with a boolean attribute.
    let shape = element_shape();

    // Test `true` as an attribute value.
    let content = Value::Struct {
        shape: &shape,
        fields: vec![Value::Primitive(Primitive::Bool(true))],
    };

    let expected = r#"<element Content="true"/>"#;
    let actual = serialize_value_as_element(content, "element").expect("Failed to serialize value");

    assert_eq!(
        actual, expected,
        "`true` should be serialized as string value 'true'"
    );

    // Test `false` as an attribute value.
    let content = Value::Struct {
        shape: &shape,
        fields: vec![Value::Primitive(Primitive::Bool(false))],
    };

    let expected = r#"<element Content="false"/>"#;
    let actual = serialize_value_as_element(content, "element").expect("Failed to serialize value");

    assert_eq!(
        actual, expected,
        "`false` should be serialized as string value 'false'"
    );
}
