use xml_struct::{
    serialize_value_as_element, serialize_value_children, NamespaceDecl, ShapeKind, TypeShape,
    Value,
};

// struct UnitStruct;
fn unit_struct_shape() -> TypeShape {
    TypeShape {
        kind: ShapeKind::Struct(vec![]),
        namespace_decls: vec![],
        default_namespace_uri: None,
    }
}

const BAR_PREFIX: &str = "bar";
const BAZ_NAME: &str = "http://baz.example/";

// The same, with a default namespace and two declared prefixes.
fn unit_struct_with_namespaces_shape() -> TypeShape {
    TypeShape {
        kind: ShapeKind::Struct(vec![]),
        namespace_decls: vec![
            NamespaceDecl {
                prefix: String::from(BAR_PREFIX),
                uri: String::from("http://bar.example/"),
            },
            NamespaceDecl {
                prefix: String::from("baz"),
                uri: String::from(BAZ_NAME),
            },
        ],
        default_namespace_uri: Some(String::from("http://foo.example/")),
    }
}

#[test]
fn unit_struct() {
    let shape = unit_struct_shape();
    let content = Value::Struct {
        shape: &shape,
        fields: vec![],
    };
    assert!(content.conforms());

    let expected = "";

    let actual = serialize_value_children(content).expect("Failed to write unit struct");

    assert_eq!(actual, expected, "Unit struct should have no content");
}

#[test]
fn unit_struct_as_element() {
    let shape = unit_struct_shape();
    let content = Value::Struct {
        shape: &shape,
        fields: vec![],
    };

    let expected = "<foo/>";

    let actual = serialize_value_as_element(content, "foo").expect("Failed to write unit struct");

    assert_eq!(
        actual, expected,
        "Unit struct should serialize as empty element"
    );
}

#[test]
fn unit_struct_with_namespaces() {
    let shape = unit_struct_with_namespaces_shape();
    let content = Value::Struct {
        shape: &shape,
        fields: vec![],
    };
    assert!(content.conforms());

    let expected = "";

    let actual = serialize_value_children(content).expect("Failed to write unit struct");

    assert_eq!(actual, expected, "Unit struct should have no content");
}

#[test]
fn unit_struct_with_namespaces_as_element() {
    let shape = unit_struct_with_namespaces_shape();
    let content = Value::Struct {
        shape: &shape,
        fields: vec![],
    };

    let expected = r#"<foo xmlns="http://foo.example/" xmlns:bar="http://bar.example/" xmlns:baz="http://baz.example/"/>"#;

    let actual = serialize_value_as_element(content, "foo").expect("Failed to write unit struct");

    assert_eq!(
        actual, expected,
        "Unit struct should serialize as empty element with namespace attributes"
    );
}
