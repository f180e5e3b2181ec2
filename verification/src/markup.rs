//! The written form of XML tokens, as sequences of characters.
//!
//! These functions say what text a tag, an attribute or a text node becomes
//! on the wire. The rest of the crate states what it writes in terms of them.

use vstd::prelude::*;
use vstd::utf8::encode_utf8;

verus! {

/// What a single character of text or of an attribute value is written as.
/// The five characters that XML reserves become entity references; every
/// other character stands for itself.
pub open spec fn escaped_char(c: char) -> Seq<char> {
    if c == '<' {
        seq!['&', 'l', 't', ';']
    } else if c == '>' {
        seq!['&', 'g', 't', ';']
    } else if c == '&' {
        seq!['&', 'a', 'm', 'p', ';']
    } else if c == '\'' {
        seq!['&', 'a', 'p', 'o', 's', ';']
    } else if c == '"' {
        seq!['&', 'q', 'u', 'o', 't', ';']
    } else {
        seq![c]
    }
}

/// The escaped form of a piece of text: each character replaced by its
/// escaped form, in order.
pub open spec fn escaped(text: Seq<char>) -> Seq<char>
    decreases text.len(),
{
    if text.len() == 0 {
        Seq::empty()
    } else {
        escaped(text.drop_last()) + escaped_char(text.last())
    }
}

/// A tag or attribute name with its namespace prefix, if it has one.
pub open spec fn qualified_name(prefix: Option<Seq<char>>, local: Seq<char>) -> Seq<char> {
    match prefix {
        Some(p) => p + seq![':'] + local,
        None => local,
    }
}

/// One attribute as it stands inside a tag: a space, the key, and the
/// escaped value in double quotes.
pub open spec fn attribute_text(key: Seq<char>, value: Seq<char>) -> Seq<char> {
    seq![' '] + key + seq!['=', '"'] + escaped(value) + seq!['"']
}

/// `<content>`, where `content` is a name followed by its attributes.
pub open spec fn open_tag(content: Seq<char>) -> Seq<char> {
    seq!['<'] + content + seq!['>']
}

/// `<content/>`, where `content` is a name followed by its attributes.
pub open spec fn empty_tag(content: Seq<char>) -> Seq<char> {
    seq!['<'] + content + seq!['/', '>']
}

/// `</name>`.
pub open spec fn close_tag(name: Seq<char>) -> Seq<char> {
    seq!['<', '/'] + name + seq!['>']
}

/// An element without attributes around the given content. The pair of tags
/// is written even when the content is empty.
pub open spec fn wrapped(name: Seq<char>, content: Seq<char>) -> Seq<char> {
    open_tag(name) + content + close_tag(name)
}

/// An element with the given attributes around the given content. With no
/// content the element is a single self-closed tag.
pub open spec fn tagged(name: Seq<char>, attributes: Seq<char>, content: Seq<char>) -> Seq<char> {
    if content.len() == 0 {
        empty_tag(name + attributes)
    } else {
        open_tag(name + attributes) + content + close_tag(name)
    }
}

/// Escaping never makes text vanish, and never makes text out of nothing.
pub proof fn lemma_escaped_is_empty(text: Seq<char>)
    ensures
        escaped(text).len() == 0 <==> text.len() == 0,
{
    if text.len() > 0 {
        assert(escaped_char(text.last()).len() > 0);
    }
}

/// The UTF-8 encoding of a concatenation is the concatenation of the
/// encodings.
pub proof fn lemma_encode_concat(a: Seq<char>, b: Seq<char>)
    ensures
        encode_utf8(a + b) == encode_utf8(a) + encode_utf8(b),
    decreases a.len(),
{
    if a.len() == 0 {
        assert(a + b == b);
        assert(encode_utf8(a) + encode_utf8(b) == encode_utf8(b));
    } else {
        assert((a + b).drop_first() == a.drop_first() + b);
        assert((a + b)[0] == a[0]);
        lemma_encode_concat(a.drop_first(), b);
        let head = vstd::utf8::encode_scalar(a[0] as u32);
        assert(encode_utf8(a + b) == head + (encode_utf8(a.drop_first()) + encode_utf8(b)));
        assert(head + (encode_utf8(a.drop_first()) + encode_utf8(b)) == (head + encode_utf8(
            a.drop_first(),
        )) + encode_utf8(b));
    }
}

/// Text is encoded as nothing exactly when it is empty.
pub proof fn lemma_encode_is_empty(text: Seq<char>)
    ensures
        encode_utf8(text).len() == 0 <==> text.len() == 0,
{
    if text.len() > 0 {
        assert(vstd::utf8::encode_scalar(text[0] as u32).len() > 0);
    }
}

} // verus!
