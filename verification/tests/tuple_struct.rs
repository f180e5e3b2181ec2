use quick_xml::events::{BytesEnd, BytesStart, BytesText, Event};
use xml_struct::{
    serialize_value_as_element, serialize_value_children, FieldDescriptor, NamespaceDecl,
    Placement, Primitive, ShapeKind, TypeShape, Value, XmlSerialize,
};

struct ChildType {
    _grandchild: &'static str,
}

impl ChildType {
    #[allow(dead_code)]
    fn serialize_child_nodes<W>(
        &self,
        _writer: &mut quick_xml::Writer<W>,
    ) -> Result<(), xml_struct::Error>
    where
        W: std::io::Write,
    {
        panic!("`XmlSerialize` calls should not dispatch non-trait functions");
    }
}

// We explicitly implement `XmlSerialize` for this type in a way which doesn't
// match what it holds in order to verify that `ChildType`'s implementation is
// used rather than some other magic.
impl XmlSerialize for ChildType {
    fn serialize_as_element(
        &self,
        writer: &mut quick_xml::Writer<Vec<u8>>,
        name: &str,
    ) -> Result<(), xml_struct::Error> {
        writer.write_event(Event::Start(BytesStart::new(name)))?;

        XmlSerialize::serialize_child_nodes(self, writer)?;

        writer.write_event(Event::End(BytesEnd::new(name)))?;

        Ok(())
    }

    fn serialize_child_nodes(
        &self,
        writer: &mut quick_xml::Writer<Vec<u8>>,
    ) -> Result<(), xml_struct::Error> {
        writer.write_event(Event::Text(BytesText::new("bare text child node")))?;

        Ok(())
    }
}

const CHILD: ChildType = ChildType {
    _grandchild: "this text shouldn't show up",
};

fn positional(declaration_order: usize) -> FieldDescriptor {
    FieldDescriptor {
        name: declaration_order.to_string(),
        placement: Placement::Element,
        ns_prefix: None,
        flatten: true,
        declaration_order,
    }
}

// struct TupleStruct(ChildType, String);
fn tuple_struct_shape() -> TypeShape {
    TypeShape {
        kind: ShapeKind::Struct(vec![positional(0), positional(1)]),
        namespace_decls: vec![],
        default_namespace_uri: None,
    }
}

// The same, with a default namespace and a declared prefix.
fn tuple_struct_with_namespaces_shape() -> TypeShape {
    TypeShape {
        kind: ShapeKind::Struct(vec![positional(0), positional(1)]),
        namespace_decls: vec![NamespaceDecl {
            prefix: String::from("other_ns"),
            uri: String::from("http://bar.example/other_ns"),
        }],
        default_namespace_uri: Some(String::from("http://foo.example/this_ns")),
    }
}

fn content(shape: &TypeShape) -> Value<'_> {
    Value::Struct {
        shape,
        fields: vec![
            Value::Custom(&CHILD),
            Value::Primitive(Primitive::Text(String::from("bare text node"))),
        ],
    }
}

#[test]
fn tuple_struct() {
    let shape = tuple_struct_shape();
    let content = content(&shape);
    assert!(content.conforms());

    let expected = "bare text child nodebare text node";

    let actual = serialize_value_children(content).expect("Failed to write struct");

    assert_eq!(
        actual, expected,
        "Struct fields should each be serialized as a child node"
    );
}

#[test]
fn tuple_struct_as_element() {
    let shape = tuple_struct_shape();
    let content = content(&shape);

    let expected = r#"<parent>bare text child nodebare text node</parent>"#;

    let actual = serialize_value_as_element(content, "parent").expect("Failed to write struct");

    assert_eq!(
        actual, expected,
        "Struct should be serialized as element with fields as attribute and children as appropriate"
    );
}

#[test]
fn tuple_struct_with_namespaces() {
    let shape = tuple_struct_with_namespaces_shape();
    let content = content(&shape);
    assert!(content.conforms());

    let expected = "bare text child nodebare text node";

    let actual = serialize_value_children(content).expect("Failed to write struct");

    assert_eq!(
        actual, expected,
        "Struct fields should each be serialized as a child node"
    );
}

#[test]
fn tuple_struct_with_namespaces_as_element() {
    let shape = tuple_struct_with_namespaces_shape();
    let content = content(&shape);

    let expected = r#"<parent xmlns="http://foo.example/this_ns" xmlns:other_ns="http://bar.example/other_ns">bare text child nodebare text node</parent>"#;

    let actual = serialize_value_as_element(content, "parent").expect("Failed to write struct");

    assert_eq!(
        actual, expected,
        "Struct should be serialized with namespaces as attributes"
    );
}
