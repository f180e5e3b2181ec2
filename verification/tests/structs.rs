use quick_xml::events::{BytesEnd, BytesStart, BytesText, Event};
use xml_struct::{
    serialize_value_as_element, serialize_value_children, FieldDescriptor, NamespaceDecl,
    Placement, Primitive, ShapeKind, TypeShape, Value, XmlSerialize,
};

struct ChildType {
    _grandchild: &'static str,
}

impl ChildType {
    #[allow(dead_code)]
    fn serialize_child_nodes<W>(
        &self,
        _writer: &mut quick_xml::Writer<W>,
    ) -> Result<(), xml_struct::Error>
    where
        W: std::io::Write,
    {
        panic!("`XmlSerialize` calls should not dispatch non-trait functions");
    }
}

// We explicitly implement `XmlSerialize` for this type in a way which doesn't
// match what it holds in order to verify that `ChildType`'s implementation is
// used rather than some other magic.
impl XmlSerialize for ChildType {
    fn serialize_as_element(
        &self,
        writer: &mut quick_xml::Writer<Vec<u8>>,
        name: &str,
    ) -> Result<(), xml_struct::Error> {
        writer.write_event(Event::Start(BytesStart::new(name)))?;

        XmlSerialize::serialize_child_nodes(self, writer)?;

        writer.write_event(Event::End(BytesEnd::new(name)))?;

        Ok(())
    }

    fn serialize_child_nodes(
        &self,
        writer: &mut quick_xml::Writer<Vec<u8>>,
    ) -> Result<(), xml_struct::Error> {
        writer.write_event(Event::Text(BytesText::new("bare text child node")))?;

        Ok(())
    }
}

const CHILD: ChildType = ChildType {
    _grandchild: "this text shouldn't show up",
};

fn field(name: &str, placement: Placement, declaration_order: usize) -> FieldDescriptor {
    FieldDescriptor {
        name: String::from(name),
        placement,
        ns_prefix: None,
        flatten: false,
        declaration_order,
    }
}

fn text(content: &str) -> Value<'static> {
    Value::Primitive(Primitive::Text(String::from(content)))
}

fn fields(flatten_child: bool) -> Vec<FieldDescriptor> {
    let mut string_attr = field("string_attr", Placement::Attribute, 1);
    string_attr.ns_prefix = Some(String::from("other_ns"));
    let mut child = field("child", Placement::Element, 2);
    child.flatten = flatten_child;
    vec![
        field("str_attr", Placement::Attribute, 0),
        string_attr,
        child,
        field("more_complex_field_name", Placement::Element, 3),
    ]
}

// struct Struct {
//     #[attribute] str_attr: &'static str,
//     #[attribute, ns_prefix = "other_ns"] string_attr: String,
//     child: ChildType,
//     more_complex_field_name: String,
// }
fn struct_shape() -> TypeShape {
    TypeShape {
        kind: ShapeKind::Struct(fields(false)),
        namespace_decls: vec![],
        default_namespace_uri: None,
    }
}

// The same, with a default namespace and a declared prefix.
fn struct_with_namespaces_shape() -> TypeShape {
    TypeShape {
        kind: ShapeKind::Struct(fields(false)),
        namespace_decls: vec![NamespaceDecl {
            prefix: String::from("other_ns"),
            uri: String::from("http://bar.example/other_ns"),
        }],
        default_namespace_uri: Some(String::from("http://foo.example/this_ns")),
    }
}

// The same as the first, with `child` flattened.
fn struct_with_flattened_field_shape() -> TypeShape {
    TypeShape {
        kind: ShapeKind::Struct(fields(true)),
        namespace_decls: vec![],
        default_namespace_uri: None,
    }
}

fn content(shape: &TypeShape) -> Value<'_> {
    Value::Struct {
        shape,
        fields: vec![
            text("arbitrary text"),
            text("other text"),
            Value::Custom(&CHILD),
            text("bare text node"),
        ],
    }
}

#[test]
fn struct_() {
    let shape = struct_shape();
    let content = content(&shape);
    assert!(content.conforms());

    let expected = "<Child>bare text child node</Child><MoreComplexFieldName>bare text node</MoreComplexFieldName>";

    let actual = serialize_value_children(content).expect("Failed to write struct");

    assert_eq!(
        actual, expected,
        "Struct fields should each be serialized as a child node"
    );
}

#[test]
fn struct_as_element() {
    let shape = struct_shape();
    let content = content(&shape);

    let expected = r#"<parent StrAttr="arbitrary text" other_ns:StringAttr="other text"><Child>bare text child node</Child><MoreComplexFieldName>bare text node</MoreComplexFieldName></parent>"#;

    let actual = serialize_value_as_element(content, "parent").expect("Failed to write struct");

    assert_eq!(
        actual, expected,
        "Struct should be serialized as element with fields as attribute and children as appropriate"
    );
}

#[test]
fn struct_with_namespaces() {
    let shape = struct_with_namespaces_shape();
    let content = content(&shape);
    assert!(content.conforms());

    let expected = "<Child>bare text child node</Child><MoreComplexFieldName>bare text node</MoreComplexFieldName>";

    let actual = serialize_value_children(content).expect("Failed to write struct");

    assert_eq!(
        actual, expected,
        "Struct fields should each be serialized as a child node"
    );
}

#[test]
fn struct_with_namespaces_as_element() {
    let shape = struct_with_namespaces_shape();
    let content = content(&shape);

    let expected = r#"<parent xmlns="http://foo.example/this_ns" xmlns:other_ns="http://bar.example/other_ns" StrAttr="arbitrary text" other_ns:StringAttr="other text"><Child>bare text child node</Child><MoreComplexFieldName>bare text node</MoreComplexFieldName></parent>"#;

    let actual = serialize_value_as_element(content, "parent").expect("Failed to write struct");

    assert_eq!(
        actual, expected,
        "Struct should be serialized with namespaces as attributes"
    );
}

#[test]
fn struct_with_flattened_field() {
    let shape = struct_with_flattened_field_shape();
    let content = content(&shape);
    assert!(content.conforms());

    let expected =
        "bare text child node<MoreComplexFieldName>bare text node</MoreComplexFieldName>";

    let actual = serialize_value_children(content).expect("Failed to write struct");

    assert_eq!(
        actual, expected,
        "Flattened field should be serialized as content only"
    );
}

#[test]
fn struct_with_flattened_field_as_element() {
    let shape = struct_with_flattened_field_shape();
    let content = content(&shape);

    let expected = r#"<parent StrAttr="arbitrary text" other_ns:StringAttr="other text">bare text child node<MoreComplexFieldName>bare text node</MoreComplexFieldName></parent>"#;

    let actual = serialize_value_as_element(content, "parent").expect("Failed to write struct");

    assert_eq!(
        actual, expected,
        "Flattened field should be serialized as content only"
    );
}
