//! Serialization of integers, as text nodes and as attribute values.

use crate::emit::{text, text_element};
use crate::encode::{decimal, integer_text};
use crate::error::Error;
use crate::markup::{escaped, wrapped};
use crate::sink::push_attribute;
use crate::traits::{XmlSerialize, XmlSerializeAttr};
use quick_xml::events::BytesStart;
use quick_xml::Writer;
use vstd::prelude::*;

verus! {

impl XmlSerialize for i8 {
    open spec fn serializable(&self) -> bool {
        true
    }

    open spec fn child_nodes(&self) -> Seq<char> {
        escaped(decimal(*self as int))
    }

    open spec fn element(&self, name: Seq<char>) -> Seq<char> {
        wrapped(name, self.child_nodes())
    }

    fn serialize_as_element(&self, writer: &mut Writer<Vec<u8>>, name: &str) -> (outcome: Result<
        (),
        Error,
    >) {
        let string = integer_text(*self as i128);
        text_element(writer, name, string.as_str())
    }

    fn serialize_child_nodes(&self, writer: &mut Writer<Vec<u8>>) -> (outcome: Result<(), Error>) {
        let string = integer_text(*self as i128);
        text(writer, string.as_str())
    }
}

impl XmlSerializeAttr for i8 {
    open spec fn attribute(&self) -> Option<Seq<char>> {
        Some(decimal(*self as int))
    }

    fn serialize_as_attribute(&self, start_tag: &mut BytesStart<'_>, name: &str) {
        let string = integer_text(*self as i128);
        push_attribute(start_tag, name, string.as_str());
    }
}

impl XmlSerialize for u8 {
    open spec fn serializable(&self) -> bool {
        true
    }

    open spec fn child_nodes(&self) -> Seq<char> {
        escaped(decimal(*self as int))
    }

    open spec fn element(&self, name: Seq<char>) -> Seq<char> {
        wrapped(name, self.child_nodes())
    }

    fn serialize_as_element(&self, writer: &mut Writer<Vec<u8>>, name: &str) -> (outcome: Result<
        (),
        Error,
    >) {
        let string = integer_text(*self as i128);
        text_element(writer, name, string.as_str())
    }

    fn serialize_child_nodes(&self, writer: &mut Writer<Vec<u8>>) -> (outcome: Result<(), Error>) {
        let string = integer_text(*self as i128);
        text(writer, string.as_str())
    }
}

impl XmlSerializeAttr for u8 {
    open spec fn attribute(&self) -> Option<Seq<char>> {
        Some(decimal(*self as int))
    }

    fn serialize_as_attribute(&self, start_tag: &mut BytesStart<'_>, name: &str) {
        let string = integer_text(*self as i128);
        push_attribute(start_tag, name, string.as_str());
    }
}

impl XmlSerialize for i16 {
    open spec fn serializable(&self) -> bool {
        true
    }

    open spec fn child_nodes(&self) -> Seq<char> {
        escaped(decimal(*self as int))
    }

    open spec fn element(&self, name: Seq<char>) -> Seq<char> {
        wrapped(name, self.child_nodes())
    }

    fn serialize_as_element(&self, writer: &mut Writer<Vec<u8>>, name: &str) -> (outcome: Result<
        (),
        Error,
    >) {
        let string = integer_text(*self as i128);
        text_element(writer, name, string.as_str())
    }

    fn serialize_child_nodes(&self, writer: &mut Writer<Vec<u8>>) -> (outcome: Result<(), Error>) {
        let string = integer_text(*self as i128);
        text(writer, string.as_str())
    }
}

impl XmlSerializeAttr for i16 {
    open spec fn attribute(&self) -> Option<Seq<char>> {
        Some(decimal(*self as int))
    }

    fn serialize_as_attribute(&self, start_tag: &mut BytesStart<'_>, name: &str) {
        let string = integer_text(*self as i128);
        push_attribute(start_tag, name, string.as_str());
    }
}

impl XmlSerialize for u16 {
    open spec fn serializable(&self) -> bool {
        true
    }

    open spec fn child_nodes(&self) -> Seq<char> {
        escaped(decimal(*self as int))
    }

    open spec fn element(&self, name: Seq<char>) -> Seq<char> {
        wrapped(name, self.child_nodes())
    }

    fn serialize_as_element(&self, writer: &mut Writer<Vec<u8>>, name: &str) -> (outcome: Result<
        (),
        Error,
    >) {
        let string = integer_text(*self as i128);
        text_element(writer, name, string.as_str())
    }

    fn serialize_child_nodes(&self, writer: &mut Writer<Vec<u8>>) -> (outcome: Result<(), Error>) {
        let string = integer_text(*self as i128);
        text(writer, string.as_str())
    }
}

impl XmlSerializeAttr for u16 {
    open spec fn attribute(&self) -> Option<Seq<char>> {
        Some(decimal(*self as int))
    }

    fn serialize_as_attribute(&self, start_tag: &mut BytesStart<'_>, name: &str) {
        let string = integer_text(*self as i128);
        push_attribute(start_tag, name, string.as_str());
    }
}

impl XmlSerialize for i32 {
    open spec fn serializable(&self) -> bool {
        true
    }

    open spec fn child_nodes(&self) -> Seq<char> {
        escaped(decimal(*self as int))
    }

    open spec fn element(&self, name: Seq<char>) -> Seq<char> {
        wrapped(name, self.child_nodes())
    }

    fn serialize_as_element(&self, writer: &mut Writer<Vec<u8>>, name: &str) -> (outcome: Result<
        (),
        Error,
    >) {
        let string = integer_text(*self as i128);
        text_element(writer, name, string.as_str())
    }

    fn serialize_child_nodes(&self, writer: &mut Writer<Vec<u8>>) -> (outcome: Result<(), Error>) {
        let string = integer_text(*self as i128);
        text(writer, string.as_str())
    }
}

impl XmlSerializeAttr for i32 {
    open spec fn attribute(&self) -> Option<Seq<char>> {
        Some(decimal(*self as int))
    }

    fn serialize_as_attribute(&self, start_tag: &mut BytesStart<'_>, name: &str) {
        let string = integer_text(*self as i128);
        push_attribute(start_tag, name, string.as_str());
    }
}

impl XmlSerialize for u32 {
    open spec fn serializable(&self) -> bool {
        true
    }

    open spec fn child_nodes(&self) -> Seq<char> {
        escaped(decimal(*self as int))
    }

    open spec fn element(&self, name: Seq<char>) -> Seq<char> {
        wrapped(name, self.child_nodes())
    }

    fn serialize_as_element(&self, writer: &mut Writer<Vec<u8>>, name: &str) -> (outcome: Result<
        (),
        Error,
    >) {
        let string = integer_text(*self as i128);
        text_element(writer, name, string.as_str())
    }

    fn serialize_child_nodes(&self, writer: &mut Writer<Vec<u8>>) -> (outcome: Result<(), Error>) {
        let string = integer_text(*self as i128);
        text(writer, string.as_str())
    }
}

impl XmlSerializeAttr for u32 {
    open spec fn attribute(&self) -> Option<Seq<char>> {
        Some(decimal(*self as int))
    }

    fn serialize_as_attribute(&self, start_tag: &mut BytesStart<'_>, name: &str) {
        let string = integer_text(*self as i128);
        push_attribute(start_tag, name, string.as_str());
    }
}

impl XmlSerialize for i64 {
    open spec fn serializable(&self) -> bool {
        true
    }

    open spec fn child_nodes(&self) -> Seq<char> {
        escaped(decimal(*self as int))
    }

    open spec fn element(&self, name: Seq<char>) -> Seq<char> {
        wrapped(name, self.child_nodes())
    }

    fn serialize_as_element(&self, writer: &mut Writer<Vec<u8>>, name: &str) -> (outcome: Result<
        (),
        Error,
    >) {
        let string = integer_text(*self as i128);
        text_element(writer, name, string.as_str())
    }

    fn serialize_child_nodes(&self, writer: &mut Writer<Vec<u8>>) -> (outcome: Result<(), Error>) {
        let string = integer_text(*self as i128);
        text(writer, string.as_str())
    }
}

impl XmlSerializeAttr for i64 {
    open spec fn attribute(&self) -> Option<Seq<char>> {
        Some(decimal(*self as int))
    }

    fn serialize_as_attribute(&self, start_tag: &mut BytesStart<'_>, name: &str) {
        let string = integer_text(*self as i128);
        push_attribute(start_tag, name, string.as_str());
    }
}

impl XmlSerialize for u64 {
    open spec fn serializable(&self) -> bool {
        true
    }

    open spec fn child_nodes(&self) -> Seq<char> {
        escaped(decimal(*self as int))
    }

    open spec fn element(&self, name: Seq<char>) -> Seq<char> {
        wrapped(name, self.child_nodes())
    }

    fn serialize_as_element(&self, writer: &mut Writer<Vec<u8>>, name: &str) -> (outcome: Result<
        (),
        Error,
    >) {
        let string = integer_text(*self as i128);
        text_element(writer, name, string.as_str())
    }

    fn serialize_child_nodes(&self, writer: &mut Writer<Vec<u8>>) -> (outcome: Result<(), Error>) {
        let string = integer_text(*self as i128);
        text(writer, string.as_str())
    }
}

impl XmlSerializeAttr for u64 {
    open spec fn attribute(&self) -> Option<Seq<char>> {
        Some(decimal(*self as int))
    }

    fn serialize_as_attribute(&self, start_tag: &mut BytesStart<'_>, name: &str) {
        let string = integer_text(*self as i128);
        push_attribute(start_tag, name, string.as_str());
    }
}

} // verus!
