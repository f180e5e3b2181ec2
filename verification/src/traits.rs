//! The two ways in which a data structure can be serialized: as content
//! nodes, and as the value of an attribute.

use crate::emit::appended;
use crate::error::Error;
use crate::markup::attribute_text;
use crate::sink::{plain, tag_bytes};
use quick_xml::events::BytesStart;
use quick_xml::Writer;
use vstd::prelude::*;
use vstd::utf8::encode_utf8;

verus! {

/// A data structure which can be serialized as XML content nodes.
///
/// The writer writes into a buffer, which takes every write, so both ways
/// of serializing succeed on every value that is serializable.
pub trait XmlSerialize {
    /// Whether the value keeps the rules that serialization relies on.
    /// Unless a type says otherwise, every value of it does.
    open spec fn serializable(&self) -> bool {
        true
    }

    /// The value written as bare child nodes. Unless a type says what it
    /// is, nothing is known of it.
    open spec fn child_nodes(&self) -> Seq<char> {
        arbitrary()
    }

    /// The value written as an element under the given name. Unless a
    /// type says what it is, nothing is known of it.
    open spec fn element(&self, name: Seq<char>) -> Seq<char> {
        arbitrary()
    }

    /// Serializes this value's child content nodes within an enclosing XML
    /// element.
    fn serialize_as_element(&self, writer: &mut Writer<Vec<u8>>, name: &str) -> (outcome: Result<
        (),
        Error,
    >)
        requires
            self.serializable(),
            plain(*old(writer)),
        ensures
            plain(*final(writer)),
            outcome is Ok,
            appended(*old(writer), *final(writer), self.element(name@)),
    ;

    /// Serializes the child content nodes of this value.
    fn serialize_child_nodes(&self, writer: &mut Writer<Vec<u8>>) -> (outcome: Result<(), Error>)
        requires
            self.serializable(),
            plain(*old(writer)),
        ensures
            plain(*final(writer)),
            outcome is Ok,
            appended(*old(writer), *final(writer), self.child_nodes()),
    ;
}

/// A data structure which can be serialized as the value of an XML
/// attribute.
pub trait XmlSerializeAttr {
    /// The value that this gives to an attribute, before escaping, or
    /// `None` if it gives no attribute at all. Unless a type says what it
    /// is, nothing is known of it.
    open spec fn attribute(&self) -> Option<Seq<char>> {
        arbitrary()
    }

    /// Serializes this value as the value of an XML attribute.
    fn serialize_as_attribute(&self, start_tag: &mut BytesStart<'_>, name: &str)
        ensures
            tag_bytes(*final(start_tag)) == tag_bytes(*old(start_tag)) + encode_utf8(
                pushed_attribute(name@, self.attribute()),
            ),
    ;
}

/// What a value adds to a tag: one attribute, or nothing if the value
/// gives none.
pub open spec fn pushed_attribute(name: Seq<char>, value: Option<Seq<char>>) -> Seq<char> {
    match value {
        Some(text) => attribute_text(name, text),
        None => Seq::empty(),
    }
}

} // verus!
