//! Serialization of values of the standard library and of [`Value`].

use crate::document::{attribute_value, children_text, element_text};
use crate::emit::{
    appended, close_wrapped, emit_children, emit_element, lemma_appended_more,
    lemma_appended_nothing, open_tag, text, text_element,
};
use crate::encode::{bool_text, boolean_text};
use crate::error::Error;
use crate::markup::{escaped, wrapped};
use crate::plan::attribute_of;
use crate::sink::{plain, push_attribute};
use crate::traits::{XmlSerialize, XmlSerializeAttr};
use crate::value::Value;
use quick_xml::events::BytesStart;
use quick_xml::Writer;
use vstd::prelude::*;

verus! {

impl XmlSerialize for String {
    open spec fn serializable(&self) -> bool {
        true
    }

    open spec fn child_nodes(&self) -> Seq<char> {
        escaped(self@)
    }

    open spec fn element(&self, name: Seq<char>) -> Seq<char> {
        wrapped(name, self.child_nodes())
    }

    fn serialize_as_element(&self, writer: &mut Writer<Vec<u8>>, name: &str) -> (outcome: Result<
        (),
        Error,
    >) {
        text_element(writer, name, self.as_str())
    }

    fn serialize_child_nodes(&self, writer: &mut Writer<Vec<u8>>) -> (outcome: Result<(), Error>) {
        text(writer, self.as_str())
    }
}

impl XmlSerialize for &str {
    open spec fn serializable(&self) -> bool {
        true
    }

    open spec fn child_nodes(&self) -> Seq<char> {
        escaped(self@)
    }

    open spec fn element(&self, name: Seq<char>) -> Seq<char> {
        wrapped(name, self.child_nodes())
    }

    fn serialize_as_element(&self, writer: &mut Writer<Vec<u8>>, name: &str) -> (outcome: Result<
        (),
        Error,
    >) {
        text_element(writer, name, self)
    }

    fn serialize_child_nodes(&self, writer: &mut Writer<Vec<u8>>) -> (outcome: Result<(), Error>) {
        text(writer, self)
    }
}

impl XmlSerialize for str {
    open spec fn serializable(&self) -> bool {
        true
    }

    open spec fn child_nodes(&self) -> Seq<char> {
        escaped(self@)
    }

    open spec fn element(&self, name: Seq<char>) -> Seq<char> {
        wrapped(name, self.child_nodes())
    }

    fn serialize_as_element(&self, writer: &mut Writer<Vec<u8>>, name: &str) -> (outcome: Result<
        (),
        Error,
    >) {
        text_element(writer, name, self)
    }

    fn serialize_child_nodes(&self, writer: &mut Writer<Vec<u8>>) -> (outcome: Result<(), Error>) {
        text(writer, self)
    }
}

impl XmlSerialize for bool {
    open spec fn serializable(&self) -> bool {
        true
    }

    open spec fn child_nodes(&self) -> Seq<char> {
        escaped(bool_text(*self))
    }

    open spec fn element(&self, name: Seq<char>) -> Seq<char> {
        wrapped(name, self.child_nodes())
    }

    fn serialize_as_element(&self, writer: &mut Writer<Vec<u8>>, name: &str) -> (outcome: Result<
        (),
        Error,
    >) {
        let string = boolean_text(*self);
        text_element(writer, name, string.as_str())
    }

    fn serialize_child_nodes(&self, writer: &mut Writer<Vec<u8>>) -> (outcome: Result<(), Error>) {
        let string = boolean_text(*self);
        text(writer, string.as_str())
    }
}

impl<T: XmlSerialize> XmlSerialize for Option<T> {
    open spec fn serializable(&self) -> bool {
        match self {
            Some(value) => value.serializable(),
            None => true,
        }
    }

    open spec fn child_nodes(&self) -> Seq<char> {
        match self {
            Some(value) => value.child_nodes(),
            None => Seq::empty(),
        }
    }

    open spec fn element(&self, name: Seq<char>) -> Seq<char> {
        match self {
            Some(value) => value.element(name),
            None => Seq::empty(),
        }
    }

    fn serialize_as_element(&self, writer: &mut Writer<Vec<u8>>, name: &str) -> (outcome: Result<
        (),
        Error,
    >) {
        match self {
            Some(value) => value.serialize_as_element(writer, name),
            None => {
                proof {
                    lemma_appended_nothing(*writer);
                }
                Ok(())
            },
        }
    }

    fn serialize_child_nodes(&self, writer: &mut Writer<Vec<u8>>) -> (outcome: Result<(), Error>) {
        match self {
            Some(value) => value.serialize_child_nodes(writer),
            None => {
                proof {
                    lemma_appended_nothing(*writer);
                }
                Ok(())
            },
        }
    }
}

/// The child nodes of the first `n` of the given values, one after the
/// other.
pub open spec fn child_nodes_of<T: XmlSerialize>(values: Seq<T>, n: nat) -> Seq<char>
    decreases n,
{
    if n == 0 || n > values.len() {
        Seq::empty()
    } else {
        child_nodes_of(values, (n - 1) as nat) + values[n - 1].child_nodes()
    }
}

impl<T: XmlSerialize> XmlSerialize for Vec<T> {
    open spec fn serializable(&self) -> bool {
        forall|i: int| 0 <= i < self@.len() ==> (#[trigger] self@[i]).serializable()
    }

    open spec fn child_nodes(&self) -> Seq<char> {
        child_nodes_of(self@, self@.len())
    }

    open spec fn element(&self, name: Seq<char>) -> Seq<char> {
        wrapped(name, self.child_nodes())
    }

    fn serialize_as_element(&self, writer: &mut Writer<Vec<u8>>, name: &str) -> (outcome: Result<
        (),
        Error,
    >) {
        let ghost start = *writer;
        open_tag(writer, name)?;
        let ghost opened = *writer;
        self.serialize_child_nodes(writer)?;
        close_wrapped(writer, name, Ghost(start), Ghost(opened), Ghost(self.child_nodes()))
    }

    fn serialize_child_nodes(&self, writer: &mut Writer<Vec<u8>>) -> (outcome: Result<(), Error>) {
        let ghost start = *writer;
        proof {
            lemma_appended_nothing(start);
        }
        if self.is_empty() {
            return Ok(());
        }
        let mut i: usize = 0;
        while i < self.len()
            invariant
                i <= self.len(),
                self.serializable(),
                plain(*writer),
                appended(start, *writer, child_nodes_of(self@, i as nat)),
            decreases self.len() - i,
        {
            let ghost before = *writer;
            match self[i].serialize_child_nodes(writer) {
                Ok(_) => {},
                Err(e) => {
                    return Err(e);
                },
            }
            proof {
                lemma_appended_more(
                    start,
                    before,
                    *writer,
                    child_nodes_of(self@, i as nat),
                    self@[i as int].child_nodes(),
                );
            }
            i += 1;
        }
        Ok(())
    }
}

impl<'a> XmlSerialize for Value<'a> {
    open spec fn serializable(&self) -> bool {
        self.well_formed()
    }

    open spec fn child_nodes(&self) -> Seq<char> {
        children_text(*self)
    }

    open spec fn element(&self, name: Seq<char>) -> Seq<char> {
        element_text(*self, name)
    }

    fn serialize_as_element(&self, writer: &mut Writer<Vec<u8>>, name: &str) -> (outcome: Result<
        (),
        Error,
    >) {
        emit_element(self, writer, name)
    }

    fn serialize_child_nodes(&self, writer: &mut Writer<Vec<u8>>) -> (outcome: Result<(), Error>) {
        emit_children(self, writer)
    }
}

impl XmlSerializeAttr for String {
    open spec fn attribute(&self) -> Option<Seq<char>> {
        Some(self@)
    }

    fn serialize_as_attribute(&self, start_tag: &mut BytesStart<'_>, name: &str) {
        push_attribute(start_tag, name, self.as_str());
    }
}

impl XmlSerializeAttr for &str {
    open spec fn attribute(&self) -> Option<Seq<char>> {
        Some(self@)
    }

    fn serialize_as_attribute(&self, start_tag: &mut BytesStart<'_>, name: &str) {
        push_attribute(start_tag, name, self);
    }
}

impl XmlSerializeAttr for str {
    open spec fn attribute(&self) -> Option<Seq<char>> {
        Some(self@)
    }

    fn serialize_as_attribute(&self, start_tag: &mut BytesStart<'_>, name: &str) {
        push_attribute(start_tag, name, self);
    }
}

impl XmlSerializeAttr for bool {
    open spec fn attribute(&self) -> Option<Seq<char>> {
        Some(bool_text(*self))
    }

    fn serialize_as_attribute(&self, start_tag: &mut BytesStart<'_>, name: &str) {
        let string = boolean_text(*self);
        push_attribute(start_tag, name, string.as_str());
    }
}

impl<T: XmlSerializeAttr> XmlSerializeAttr for Option<T> {
    open spec fn attribute(&self) -> Option<Seq<char>> {
        match self {
            Some(value) => value.attribute(),
            None => None,
        }
    }

    fn serialize_as_attribute(&self, start_tag: &mut BytesStart<'_>, name: &str) {
        match self {
            Some(value) => value.serialize_as_attribute(start_tag, name),
            None => {
                assert(vstd::utf8::encode_utf8(Seq::<char>::empty()) == Seq::<u8>::empty());
                assert(crate::sink::tag_bytes(*start_tag) + Seq::<u8>::empty()
                    == crate::sink::tag_bytes(*start_tag));
            },
        }
    }
}

impl<'a> XmlSerializeAttr for Value<'a> {
    open spec fn attribute(&self) -> Option<Seq<char>> {
        attribute_value(*self)
    }

    fn serialize_as_attribute(&self, start_tag: &mut BytesStart<'_>, name: &str) {
        match attribute_of(self) {
            Some(value) => push_attribute(start_tag, name, value.as_str()),
            None => {
                assert(vstd::utf8::encode_utf8(Seq::<char>::empty()) == Seq::<u8>::empty());
                assert(crate::sink::tag_bytes(*start_tag) + Seq::<u8>::empty()
                    == crate::sink::tag_bytes(*start_tag));
            },
        }
    }
}

} // verus!
