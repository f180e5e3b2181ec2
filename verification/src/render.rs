//! Serialization into a string.

use crate::error::TestError;
use crate::sink::{into_bytes, new_writer, plain, string_from_utf8, written};
use crate::traits::XmlSerialize;
use quick_xml::Writer;
use vstd::prelude::*;
use vstd::utf8::{encode_utf8, encode_utf8_decode_utf8, encode_utf8_valid_utf8, valid_utf8};

verus! {

/// Two texts with the same encoding are the same text.
pub proof fn lemma_encode_injective(a: Seq<char>, b: Seq<char>)
    requires
        encode_utf8(a) == encode_utf8(b),
    ensures
        a == b,
{
    encode_utf8_decode_utf8(a);
    encode_utf8_decode_utf8(b);
}

/// Makes a writer over an empty buffer that writes events as they are
/// given, with no indentation of its own. Such a writer is what the
/// functions that serialize ask for.
pub fn buffer_writer() -> (writer: Writer<Vec<u8>>)
    ensures
        plain(writer),
        written(writer) == Seq::<u8>::empty(),
{
    new_writer()
}

/// Takes the text that a writer wrote out of it. There is a string
/// exactly when what was written is valid UTF-8, and its encoding is then
/// what was written.
pub fn into_string(writer: Writer<Vec<u8>>) -> (outcome: Result<String, TestError>)
    ensures
        outcome is Ok <==> valid_utf8(written(writer)),
        outcome matches Ok(out) ==> encode_utf8(out@) == written(writer),
        outcome matches Err(e) ==> e is Utf8,
{
    match string_from_utf8(into_bytes(writer)) {
        Ok(out) => {
            proof {
                encode_utf8_valid_utf8(out@);
            }
            Ok(out)
        },
        Err(e) => Err(TestError::from(e)),
    }
}

/// Serializes a value as an element under the given name, into a string.
/// The call succeeds on every serializable value.
pub fn serialize_value_as_element<T>(value: T, root_name: &str) -> (outcome: Result<
    String,
    TestError,
>) where T: XmlSerialize
    requires
        value.serializable(),
    ensures
        outcome matches Ok(out) && out@ == value.element(root_name@),
{
    let mut writer = buffer_writer();
    match value.serialize_as_element(&mut writer, root_name) {
        Ok(_) => {},
        Err(e) => {
            return Err(TestError::from(e));
        },
    }
    assert(written(writer) == encode_utf8(value.element(root_name@)));
    let outcome = into_string(writer);
    proof {
        encode_utf8_valid_utf8(value.element(root_name@));
        if outcome is Ok {
            lemma_encode_injective(outcome->Ok_0@, value.element(root_name@));
        }
    }
    outcome
}

/// Serializes a value as bare child nodes, into a string. The call
/// succeeds on every serializable value.
pub fn serialize_value_children<T>(value: T) -> (outcome: Result<String, TestError>) where
    T: XmlSerialize,

    requires
        value.serializable(),
    ensures
        outcome matches Ok(out) && out@ == value.child_nodes(),
{
    let mut writer = buffer_writer();
    match value.serialize_child_nodes(&mut writer) {
        Ok(_) => {},
        Err(e) => {
            return Err(TestError::from(e));
        },
    }
    assert(written(writer) == encode_utf8(value.child_nodes()));
    let outcome = into_string(writer);
    proof {
        encode_utf8_valid_utf8(value.child_nodes());
        if outcome is Ok {
            lemma_encode_injective(outcome->Ok_0@, value.child_nodes());
        }
    }
    outcome
}

} // verus!
