use quick_xml::events::{BytesStart, Event};
use quick_xml::Writer;
use xml_struct::emit::{
    close_tag, lift, open_tag, open_tag_with_attributes, self_closed_tag, text, text_element,
};
use xml_struct::{
    buffer_writer, into_string, serialize_value_as_element, serialize_value_children, Attribute,
    Error, Primitive,
    ShapeKind, TestError, TypeShape, Value, VariantDescriptor, VariantKind, XmlSerialize,
    XmlSerializeAttr,
};

fn written(writer: Writer<Vec<u8>>) -> String {
    String::from_utf8(writer.into_inner()).expect("the writer wrote UTF-8")
}

fn tag_with<T: XmlSerializeAttr + ?Sized>(value: &T, name: &str) -> String {
    let mut tag = BytesStart::new("t");
    value.serialize_as_attribute(&mut tag, name);
    let mut writer = Writer::new(Vec::new());
    writer
        .write_event(Event::Empty(tag))
        .expect("a buffer takes every write");
    written(writer)
}

#[test]
fn strings_serialize_as_text_nodes() {
    assert_eq!(
        serialize_value_children(String::from("a & b")).unwrap(),
        "a &amp; b"
    );
    assert_eq!(serialize_value_children("plain").unwrap(), "plain");
    assert_eq!(
        serialize_value_as_element(String::from("x"), "name").unwrap(),
        "<name>x</name>"
    );
    assert_eq!(
        serialize_value_as_element("", "name").unwrap(),
        "<name></name>"
    );
    let mut writer = Writer::new(Vec::new());
    "unsized".serialize_as_element(&mut writer, "s").unwrap();
    <str as XmlSerialize>::serialize_child_nodes("tail", &mut writer).unwrap();
    <str as XmlSerialize>::serialize_as_element("in", &mut writer, "e").unwrap();
    assert_eq!(written(writer), "<s>unsized</s>tail<e>in</e>");
}

#[test]
fn integers_serialize_as_decimal_text() {
    assert_eq!(serialize_value_children(0u8).unwrap(), "0");
    assert_eq!(serialize_value_children(-128i8).unwrap(), "-128");
    assert_eq!(serialize_value_children(i16::MIN).unwrap(), "-32768");
    assert_eq!(serialize_value_children(u16::MAX).unwrap(), "65535");
    assert_eq!(serialize_value_children(i32::MIN).unwrap(), "-2147483648");
    assert_eq!(serialize_value_children(u32::MAX).unwrap(), "4294967295");
    assert_eq!(
        serialize_value_children(i64::MIN).unwrap(),
        "-9223372036854775808"
    );
    assert_eq!(
        serialize_value_children(u64::MAX).unwrap(),
        "18446744073709551615"
    );
    assert_eq!(
        serialize_value_as_element(42u32, "answer").unwrap(),
        "<answer>42</answer>"
    );
}

#[test]
fn missing_option_writes_nothing() {
    assert_eq!(
        serialize_value_as_element(None::<String>, "name").unwrap(),
        ""
    );
    assert_eq!(serialize_value_children(None::<u8>).unwrap(), "");
    assert_eq!(
        serialize_value_as_element(Some(String::from("x")), "name").unwrap(),
        "<name>x</name>"
    );
    assert_eq!(serialize_value_children(Some(5u8)).unwrap(), "5");
}

#[test]
fn vector_concatenates_the_child_nodes_of_its_items() {
    let items = vec![String::from("a"), String::from("<"), String::from("c")];
    assert_eq!(serialize_value_children(items).unwrap(), "a&lt;c");
    assert_eq!(serialize_value_children(Vec::<String>::new()).unwrap(), "");
    assert_eq!(
        serialize_value_as_element(vec![1u8, 2, 3], "digits").unwrap(),
        "<digits>123</digits>"
    );
    assert_eq!(
        serialize_value_as_element(Vec::<u8>::new(), "digits").unwrap(),
        "<digits></digits>"
    );
    assert_eq!(
        serialize_value_children(vec![Some(1u8), None, Some(3)]).unwrap(),
        "13"
    );
}

#[test]
fn values_serialize_as_attributes() {
    assert_eq!(tag_with("v", "a"), r#"<t a="v"/>"#);
    assert_eq!(tag_with(&"v", "a"), r#"<t a="v"/>"#);
    assert_eq!(tag_with(&String::from("1 < 2"), "a"), r#"<t a="1 &lt; 2"/>"#);
    assert_eq!(tag_with(&true, "a"), r#"<t a="true"/>"#);
    assert_eq!(tag_with(&false, "a"), r#"<t a="false"/>"#);
    assert_eq!(tag_with(&-5i8, "a"), r#"<t a="-5"/>"#);
    assert_eq!(tag_with(&200u8, "a"), r#"<t a="200"/>"#);
    assert_eq!(tag_with(&-300i16, "a"), r#"<t a="-300"/>"#);
    assert_eq!(tag_with(&60000u16, "a"), r#"<t a="60000"/>"#);
    assert_eq!(tag_with(&-70000i32, "a"), r#"<t a="-70000"/>"#);
    assert_eq!(tag_with(&4000000000u32, "a"), r#"<t a="4000000000"/>"#);
    assert_eq!(tag_with(&i64::MIN, "a"), r#"<t a="-9223372036854775808"/>"#);
    assert_eq!(tag_with(&u64::MAX, "a"), r#"<t a="18446744073709551615"/>"#);
    assert_eq!(tag_with(&Some(7u8), "a"), r#"<t a="7"/>"#);
    assert_eq!(tag_with(&None::<u8>, "a"), "<t/>");
}

#[test]
fn value_serializes_as_attribute_where_it_can() {
    let shape = TypeShape {
        kind: ShapeKind::Enum {
            variants: vec![
                VariantDescriptor {
                    name: String::from("A"),
                    kind: VariantKind::Unit,
                    ns_prefix: None,
                },
                VariantDescriptor {
                    name: String::from("Gamma"),
                    kind: VariantKind::Unit,
                    ns_prefix: None,
                },
            ],
            text_mode: true,
        },
        namespace_decls: vec![],
        default_namespace_uri: None,
    };
    let value = Value::Enum {
        shape: &shape,
        variant: 1,
        fields: vec![],
    };
    assert_eq!(tag_with(&value, "EnumAttr"), r#"<t EnumAttr="Gamma"/>"#);
    assert_eq!(
        tag_with(&Value::Primitive(Primitive::Integer(3)), "n"),
        r#"<t n="3"/>"#
    );
    assert_eq!(tag_with(&Value::Absent, "n"), "<t/>");
    assert_eq!(tag_with(&Value::List(vec![]), "n"), "<t/>");
}

#[test]
fn writer_primitives_write_tags_and_text() {
    let mut writer = Writer::new(vec![b'>']);
    let attributes = vec![
        Attribute {
            name: String::from("k"),
            value: String::from("\"v\""),
        },
        Attribute {
            name: String::from("n:l"),
            value: String::new(),
        },
    ];
    open_tag(&mut writer, "a").unwrap();
    open_tag_with_attributes(&mut writer, "b", &attributes).unwrap();
    text(&mut writer, "x > y").unwrap();
    self_closed_tag(&mut writer, "c", &attributes).unwrap();
    self_closed_tag(&mut writer, "d", &vec![]).unwrap();
    close_tag(&mut writer, "b").unwrap();
    close_tag(&mut writer, "a").unwrap();
    assert_eq!(
        written(writer),
        r#"><a><b k="&quot;v&quot;" n:l="">x &gt; y<c k="&quot;v&quot;" n:l=""/><d/></b></a>"#
    );
}

#[test]
fn serialization_appends_to_what_was_written() {
    let mut writer = Writer::new(Vec::new());
    true.serialize_as_element(&mut writer, "first").unwrap();
    7u8.serialize_child_nodes(&mut writer).unwrap();
    Value::Absent.serialize_as_element(&mut writer, "gone").unwrap();
    String::from("s")
        .serialize_as_element(&mut writer, "last")
        .unwrap();
    assert_eq!(written(writer), "<first>true</first>7<last>s</last>");
}

#[test]
fn writer_errors_become_errors_of_this_crate() {
    let broken = std::io::Error::new(std::io::ErrorKind::Other, "broken pipe");
    let error = Error::from(quick_xml::Error::from(broken));
    assert_eq!(error.message(), "failed to process XML document");
    assert!(matches!(
        error,
        Error::Xml {
            source: quick_xml::Error::Io(_)
        }
    ));
    assert!(lift(Ok(())).is_ok());
    let lifted = lift(Err(quick_xml::Error::UnexpectedToken(String::from("t"))));
    assert!(matches!(
        lifted,
        Err(Error::Xml {
            source: quick_xml::Error::UnexpectedToken(_)
        })
    ));
}

#[test]
fn errors_of_rendering_tell_their_cause() {
    let xml = TestError::from(Error::from(quick_xml::Error::UnexpectedToken(
        String::from("t"),
    )));
    assert!(matches!(xml, TestError::XmlStruct(Error::Xml { .. })));
    assert_eq!(xml.message(), "error in processing XML document");
    let invalid = String::from_utf8(vec![0xff]).unwrap_err();
    let utf8 = TestError::from(invalid);
    assert!(matches!(utf8, TestError::Utf8(_)));
    assert_eq!(utf8.message(), "serialization produced invalid UTF-8");
}

#[test]
fn text_element_wraps_an_escaped_text_node() {
    let mut writer = buffer_writer();
    text_element(&mut writer, "a", "1 < 2").unwrap();
    text_element(&mut writer, "n:b", "").unwrap();
    assert_eq!(into_string(writer).unwrap(), "<a>1 &lt; 2</a><n:b></n:b>");
}

#[test]
fn buffer_writer_starts_empty_and_does_not_indent() {
    assert_eq!(into_string(buffer_writer()).unwrap(), "");
    let mut writer = buffer_writer();
    open_tag(&mut writer, "a").unwrap();
    open_tag(&mut writer, "b").unwrap();
    close_tag(&mut writer, "b").unwrap();
    close_tag(&mut writer, "a").unwrap();
    assert_eq!(into_string(writer).unwrap(), "<a><b></b></a>");
}

#[test]
fn into_string_refuses_what_is_not_utf8() {
    let writer = Writer::new(vec![b'o', b'k']);
    assert_eq!(into_string(writer).unwrap(), "ok");
    let writer = Writer::new(vec![0xff, 0xfe]);
    assert!(matches!(into_string(writer), Err(TestError::Utf8(_))));
}
