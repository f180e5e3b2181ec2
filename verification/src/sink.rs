//! The boundary with the XML token writer.
//!
//! Everything in this module is a statement about `quick_xml` or about a
//! function of the standard library that the verifier takes on trust; the
//! rest of the crate is proved against these statements.

use crate::markup::{attribute_text, close_tag, escaped};
use quick_xml::events::{BytesEnd, BytesStart, BytesText, Event};
use quick_xml::Error as XmlError;
use quick_xml::Writer;
use std::string::FromUtf8Error;
use vstd::prelude::*;
use vstd::utf8::{encode_utf8, valid_utf8};

verus! {

#[verifier::external_type_specification]
#[verifier::external_body]
#[verifier::reject_recursive_types(W)]
pub struct ExWriter<W>(Writer<W>);

#[verifier::external_type_specification]
#[verifier::external_body]
pub struct ExBytesStart<'a>(BytesStart<'a>);

#[verifier::external_type_specification]
#[verifier::external_body]
pub struct ExXmlError(XmlError);

#[verifier::external_type_specification]
#[verifier::external_body]
pub struct ExFromUtf8Error(FromUtf8Error);

/// The bytes that a writer has put into its buffer so far.
pub uninterp spec fn written(writer: Writer<Vec<u8>>) -> Seq<u8>;

/// Whether a writer emits events exactly as given, with no line breaks or
/// indentation of its own. `Writer::new` makes such a writer;
/// `Writer::new_with_indent` does not.
pub uninterp spec fn plain(writer: Writer<Vec<u8>>) -> bool;

/// The raw bytes of a start tag under construction: its name followed by the
/// attributes pushed so far.
pub uninterp spec fn tag_bytes(tag: BytesStart<'_>) -> Seq<u8>;

/// `Writer::new` over an empty buffer: the writer starts with nothing
/// written and does not indent.
#[verifier::external_body]
pub(crate) fn new_writer() -> (writer: Writer<Vec<u8>>)
    ensures
        written(writer) == Seq::<u8>::empty(),
        plain(writer),
{
    Writer::new(Vec::new())
}

/// `Writer::into_inner`: hands back the buffer, which holds exactly the bytes
/// written.
#[verifier::external_body]
pub(crate) fn into_bytes(writer: Writer<Vec<u8>>) -> (bytes: Vec<u8>)
    ensures
        bytes@ == written(writer),
{
    writer.into_inner()
}

/// `BytesStart::new`: a start tag that holds the bytes of the name and no
/// attributes. The name is taken as it is, unchecked and unescaped.
#[verifier::external_body]
pub(crate) fn start_tag(name: &str) -> (tag: BytesStart<'_>)
    ensures
        tag_bytes(tag) == encode_utf8(name@),
{
    BytesStart::new(name)
}

/// `BytesStart::push_attribute` with a pair of strings: the tag grows by a
/// space, the key as it is, `="`, the value with the five reserved
/// characters escaped, and a closing `"`.
#[verifier::external_body]
pub(crate) fn push_attribute(tag: &mut BytesStart<'_>, key: &str, value: &str)
    ensures
        tag_bytes(*final(tag)) == tag_bytes(*old(tag)) + encode_utf8(attribute_text(key@, value@)),
{
    tag.push_attribute((key, value))
}

/// `Writer::write_event` with `Event::Start`: a writer that does not indent
/// writes `<`, the bytes of the tag and `>`.
///
/// The only error that `write_event` can hand back is one of its sink. The
/// sink here is a `Vec<u8>`, which takes every write by appending and grows
/// as needed, so the call succeeds. The same holds of the three functions
/// that follow.
#[verifier::external_body]
pub(crate) fn write_start(writer: &mut Writer<Vec<u8>>, tag: BytesStart<'_>) -> (outcome: Result<
    (),
    XmlError,
>)
    requires
        plain(*old(writer)),
    ensures
        plain(*final(writer)),
        outcome is Ok,
        written(*final(writer)) == written(*old(writer)) + encode_utf8(seq!['<']) + tag_bytes(
            tag,
        ) + encode_utf8(seq!['>']),
{
    writer.write_event(Event::Start(tag))
}

/// `Writer::write_event` with `Event::Empty`: a writer that does not indent
/// writes `<`, the bytes of the tag and `/>`.
#[verifier::external_body]
pub(crate) fn write_empty(writer: &mut Writer<Vec<u8>>, tag: BytesStart<'_>) -> (outcome: Result<
    (),
    XmlError,
>)
    requires
        plain(*old(writer)),
    ensures
        plain(*final(writer)),
        outcome is Ok,
        written(*final(writer)) == written(*old(writer)) + encode_utf8(seq!['<']) + tag_bytes(
            tag,
        ) + encode_utf8(seq!['/', '>']),
{
    writer.write_event(Event::Empty(tag))
}

/// `Writer::write_event` with `Event::End` of `BytesEnd::new`: a writer that
/// does not indent writes `</`, the name as it is, and `>`.
#[verifier::external_body]
pub(crate) fn write_end(writer: &mut Writer<Vec<u8>>, name: &str) -> (outcome: Result<
    (),
    XmlError,
>)
    requires
        plain(*old(writer)),
    ensures
        plain(*final(writer)),
        outcome is Ok,
        written(*final(writer)) == written(*old(writer)) + encode_utf8(close_tag(name@)),
{
    writer.write_event(Event::End(BytesEnd::new(name)))
}

/// `Writer::write_event` with `Event::Text` of `BytesText::new`: the text is
/// written with the five reserved characters escaped, and nothing else.
#[verifier::external_body]
pub(crate) fn write_text(writer: &mut Writer<Vec<u8>>, text: &str) -> (outcome: Result<
    (),
    XmlError,
>)
    requires
        plain(*old(writer)),
    ensures
        plain(*final(writer)),
        outcome is Ok,
        written(*final(writer)) == written(*old(writer)) + encode_utf8(escaped(text@)),
{
    writer.write_event(Event::Text(BytesText::new(text)))
}

/// `String::from_utf8`: succeeds on valid UTF-8, and a string that comes
/// back holds the given bytes.
#[verifier::external_body]
pub(crate) fn string_from_utf8(bytes: Vec<u8>) -> (outcome: Result<String, FromUtf8Error>)
    ensures
        valid_utf8(bytes@) ==> outcome is Ok,
        outcome matches Ok(text) ==> encode_utf8(text@) == bytes@,
{
    String::from_utf8(bytes)
}

/// `String::push`: the string grows by one character.
#[verifier::external_body]
pub(crate) fn push_char(text: &mut String, c: char)
    ensures
        final(text)@ == old(text)@.push(c),
{
    text.push(c)
}

} // verus!
