//! The emitter: writes a value through the XML writer, as an element or as
//! bare child nodes, by carrying out the plan of the value.

use crate::document::{
    attributes_text, children_text, content_text, element_text, own_attributes, AttributePair,
};
use crate::error::Error;
use crate::markup;
use crate::markup::{attribute_text, escaped, lemma_encode_concat, tagged, wrapped};
use crate::plan::{
    attribute_pairs, child_steps, content_ops, drawn_from,
    lemma_content_steps_drawn, lemma_content_steps_text, lemma_steps_text_push, plan,
    step_text, step_value, steps_text, Attribute, ChildOp, ChildStep,
};
use crate::sink::{
    plain, push_attribute, start_tag, tag_bytes, write_empty, write_end, write_start,
    write_text, written,
};
use crate::value::{find_variant, lemma_own_fields_fit, lemma_part_is_smaller, Value};
use quick_xml::events::BytesStart;
use quick_xml::Error as XmlError;
use quick_xml::Writer;
use vstd::prelude::*;
use vstd::utf8::encode_utf8;

verus! {

/// Between `before` and `after` the writer wrote the given text, encoded as
/// UTF-8, and nothing else.
pub open spec fn appended(before: Writer<Vec<u8>>, after: Writer<Vec<u8>>, text: Seq<char>) -> bool {
    written(after) == written(before) + encode_utf8(text)
}

/// A writer that is left alone wrote nothing.
pub proof fn lemma_appended_nothing(writer: Writer<Vec<u8>>)
    ensures
        appended(writer, writer, Seq::empty()),
{
    assert(encode_utf8(Seq::empty()) == Seq::<u8>::empty());
    assert(written(writer) + Seq::<u8>::empty() == written(writer));
}

/// What a writer wrote in two stretches is what it wrote in the first,
/// then in the second.
pub proof fn lemma_appended_more(
    before: Writer<Vec<u8>>,
    between: Writer<Vec<u8>>,
    after: Writer<Vec<u8>>,
    first: Seq<char>,
    second: Seq<char>,
)
    requires
        appended(before, between, first),
        appended(between, after, second),
    ensures
        appended(before, after, first + second),
{
    lemma_encode_concat(first, second);
    assert(written(before) + encode_utf8(first) + encode_utf8(second) == written(before) + (
    encode_utf8(first) + encode_utf8(second)));
}

/// The outcome of a write, with the writer's error as an [`Error`].
pub fn lift(outcome: Result<(), XmlError>) -> (lifted: Result<(), Error>)
    ensures
        match outcome {
            Ok(_) => lifted is Ok,
            Err(source) => lifted == Err::<(), Error>(Error::Xml { source }),
        },
{
    match outcome {
        Ok(_) => Ok(()),
        Err(source) => Err(Error::from(source)),
    }
}

/// Writes `<name>`.
pub fn open_tag(writer: &mut Writer<Vec<u8>>, name: &str) -> (outcome: Result<(), Error>)
    requires
        plain(*old(writer)),
    ensures
        plain(*final(writer)),
        outcome is Ok,
        appended(*old(writer), *final(writer), markup::open_tag(name@)),
{
    let tag = start_tag(name);
    let outcome = write_start(writer, tag);
    proof {
        lemma_encode_tag(written(*old(writer)), seq!['<'], name@, seq!['>']);
    }
    lift(outcome)
}

/// Writes `</name>`.
pub fn close_tag(writer: &mut Writer<Vec<u8>>, name: &str) -> (outcome: Result<(), Error>)
    requires
        plain(*old(writer)),
    ensures
        plain(*final(writer)),
        outcome is Ok,
        appended(*old(writer), *final(writer), markup::close_tag(name@)),
{
    lift(write_end(writer, name))
}

/// Writes a text node, escaped.
pub fn text(writer: &mut Writer<Vec<u8>>, content: &str) -> (outcome: Result<(), Error>)
    requires
        plain(*old(writer)),
    ensures
        plain(*final(writer)),
        outcome is Ok,
        appended(*old(writer), *final(writer), escaped(content@)),
{
    lift(write_text(writer, content))
}

/// Closes an element that was opened at `opened` and filled since, and
/// concludes that all of it was written since `start`.
pub(crate) fn close_wrapped(
    writer: &mut Writer<Vec<u8>>,
    name: &str,
    Ghost(start): Ghost<Writer<Vec<u8>>>,
    Ghost(opened): Ghost<Writer<Vec<u8>>>,
    Ghost(content): Ghost<Seq<char>>,
) -> (outcome: Result<(), Error>)
    requires
        plain(*old(writer)),
        appended(start, opened, markup::open_tag(name@)),
        appended(opened, *old(writer), content),
    ensures
        plain(*final(writer)),
        outcome is Ok,
        appended(start, *final(writer), wrapped(name@, content)),
{
    let ghost filled = *writer;
    let outcome = close_tag(writer, name);
    proof {
        lemma_appended_more(start, opened, filled, markup::open_tag(name@), content);
        lemma_appended_more(
            start,
            filled,
            *writer,
            markup::open_tag(name@) + content,
            markup::close_tag(name@),
        );
    }
    outcome
}

/// Writes a text node, escaped, between an opening and a closing tag of
/// the given name. This is how a value that is a single piece of text is
/// written as an element.
pub fn text_element(writer: &mut Writer<Vec<u8>>, name: &str, content: &str) -> (outcome: Result<
    (),
    Error,
>)
    requires
        plain(*old(writer)),
    ensures
        plain(*final(writer)),
        outcome is Ok,
        appended(*old(writer), *final(writer), wrapped(name@, escaped(content@))),
{
    let ghost start = *writer;
    open_tag(writer, name)?;
    let ghost opened = *writer;
    text(writer, content)?;
    close_wrapped(writer, name, Ghost(start), Ghost(opened), Ghost(escaped(content@)))
}

/// Writes `<name/>` with the given attributes on it.
pub fn self_closed_tag(writer: &mut Writer<Vec<u8>>, name: &str, attributes: &Vec<Attribute>) -> (outcome:
    Result<(), Error>)
    requires
        plain(*old(writer)),
    ensures
        plain(*final(writer)),
        outcome is Ok,
        appended(
            *old(writer),
            *final(writer),
            markup::empty_tag(name@ + attributes_text(attribute_pairs(attributes@))),
        ),
{
    let tag = tag_with_attributes(name, attributes);
    let outcome = write_empty(writer, tag);
    proof {
        lemma_encode_tag(
            written(*old(writer)),
            seq!['<'],
            name@ + attributes_text(attribute_pairs(attributes@)),
            seq!['/', '>'],
        );
    }
    lift(outcome)
}

/// Writes `<name>` with the given attributes on it.
pub fn open_tag_with_attributes(
    writer: &mut Writer<Vec<u8>>,
    name: &str,
    attributes: &Vec<Attribute>,
) -> (outcome: Result<(), Error>)
    requires
        plain(*old(writer)),
    ensures
        plain(*final(writer)),
        outcome is Ok,
        appended(
            *old(writer),
            *final(writer),
            markup::open_tag(name@ + attributes_text(attribute_pairs(attributes@))),
        ),
{
    let tag = tag_with_attributes(name, attributes);
    let outcome = write_start(writer, tag);
    proof {
        lemma_encode_tag(
            written(*old(writer)),
            seq!['<'],
            name@ + attributes_text(attribute_pairs(attributes@)),
            seq!['>'],
        );
    }
    lift(outcome)
}

/// The encoding of a tag is that of its opening, its content and its
/// closing, one after the other.
proof fn lemma_encode_tag(
    before: Seq<u8>,
    opening: Seq<char>,
    content: Seq<char>,
    closing: Seq<char>,
)
    ensures
        before + encode_utf8(opening) + encode_utf8(content) + encode_utf8(closing) == before
            + encode_utf8(opening + content + closing),
{
    lemma_encode_concat(opening, content);
    lemma_encode_concat(opening + content, closing);
    assert(before + encode_utf8(opening) + encode_utf8(content) + encode_utf8(closing) == before
        + (encode_utf8(opening) + encode_utf8(content) + encode_utf8(closing)));
}

/// The text of a list of attributes with one more.
proof fn lemma_attributes_text_push(attributes: Seq<AttributePair>, attribute: AttributePair)
    ensures
        attributes_text(attributes.push(attribute)) == attributes_text(attributes)
            + attribute_text(attribute.0, attribute.1),
{
    assert(attributes.push(attribute).drop_last() == attributes);
}

/// Builds a start tag that holds the name and the given attributes, in
/// order.
fn tag_with_attributes<'t>(name: &'t str, attributes: &Vec<Attribute>) -> (tag: BytesStart<'t>)
    ensures
        tag_bytes(tag) == encode_utf8(name@ + attributes_text(attribute_pairs(attributes@))),
{
    let mut tag = start_tag(name);
    let mut i: usize = 0;
    assert(attribute_pairs(attributes@).take(0) == Seq::<AttributePair>::empty());
    assert(name@ + Seq::<char>::empty() == name@);
    while i < attributes.len()
        invariant
            i <= attributes.len(),
            tag_bytes(tag) == encode_utf8(
                name@ + attributes_text(attribute_pairs(attributes@).take(i as int)),
            ),
        decreases attributes.len() - i,
    {
        let ghost pairs = attribute_pairs(attributes@);
        let ghost so_far = attributes_text(pairs.take(i as int));
        push_attribute(&mut tag, attributes[i].name.as_str(), attributes[i].value.as_str());
        proof {
            assert(pairs.take(i + 1) == pairs.take(i as int).push(pairs[i as int]));
            lemma_attributes_text_push(pairs.take(i as int), pairs[i as int]);
            let more = attribute_text(pairs[i as int].0, pairs[i as int].1);
            lemma_encode_concat(name@ + so_far, more);
            assert(name@ + so_far + more == name@ + (so_far + more));
        }
        i += 1;
    }
    assert(attribute_pairs(attributes@).take(attributes@.len() as int) == attribute_pairs(
        attributes@,
    ));
    tag
}

/// Carries out the operations of the content of `owner`, in order.
fn run_ops(ops: &Vec<ChildOp<'_>>, writer: &mut Writer<Vec<u8>>, Ghost(owner): Ghost<Value<'_>>) -> (outcome:
    Result<(), Error>)
    requires
        owner.well_formed(),
        drawn_from(child_steps(ops@), owner.parts()),
        plain(*old(writer)),
    ensures
        plain(*final(writer)),
        outcome is Ok,
        appended(*old(writer), *final(writer), steps_text(child_steps(ops@))),
    decreases owner, 0int,
{
    let ghost steps = child_steps(ops@);
    let ghost start = *writer;
    let mut i: usize = 0;
    proof {
        lemma_appended_nothing(start);
        lemma_own_fields_fit(owner);
        assert(steps.take(0) == Seq::<ChildStep<'_>>::empty());
    }
    while i < ops.len()
        invariant
            i <= ops.len(),
            steps == child_steps(ops@),
            owner.well_formed(),
            drawn_from(steps, owner.parts()),
            forall|j: int|
                0 <= j < owner.parts().len() ==> (#[trigger] owner.parts()[j]).well_formed(),
            plain(*writer),
            appended(start, *writer, steps_text(steps.take(i as int))),
        decreases ops.len() - i,
    {
        let ghost before = *writer;
        let ghost step = steps[i as int];
        proof {
            assert(step == ops@[i as int]@);
            match step_value(step) {
                Some(part) => {
                    lemma_part_is_smaller(owner, part);
                    let j = choose|j: int|
                        0 <= j < owner.parts().len() && owner.parts()[j] == part;
                    assert(owner.parts()[j].well_formed());
                },
                None => {},
            }
        }
        let outcome = match &ops[i] {
            ChildOp::WrapAndEmit { tag, value } => emit_element(value, writer, tag.as_str()),
            ChildOp::SpliceChildren { value } => emit_children(value, writer),
            ChildOp::Text { text: content } => text(writer, content.as_str()),
        };
        match outcome {
            Ok(_) => {},
            Err(e) => {
                return Err(e);
            },
        }
        proof {
            assert(appended(before, *writer, step_text(step)));
            lemma_appended_more(
                start,
                before,
                *writer,
                steps_text(steps.take(i as int)),
                step_text(step),
            );
            lemma_steps_text_push(steps.take(i as int), step);
            assert(steps.take(i + 1) == steps.take(i as int).push(step));
        }
        i += 1;
    }
    assert(steps.take(ops@.len() as int) == steps);
    Ok(())
}

/// Writes a value under its own tag: the attributes of the plan on the
/// tag, and the tag closed at once if the plan says so; else the content
/// of the plan between an opening and a closing tag.
fn emit_own_tag(value: &Value<'_>, writer: &mut Writer<Vec<u8>>, name: &str) -> (outcome: Result<
    (),
    Error,
>)
    requires
        value.well_formed(),
        !(*value is Custom),
        plain(*old(writer)),
    ensures
        plain(*final(writer)),
        outcome is Ok,
        appended(
            *old(writer),
            *final(writer),
            tagged(name@, attributes_text(own_attributes(*value)), content_text(*value)),
        ),
    decreases *value, 1int,
{
    let planned = plan(value);
    let ghost attributes = attributes_text(own_attributes(*value));
    let ghost start = *writer;
    proof {
        lemma_content_steps_text(*value);
        lemma_content_steps_drawn(*value);
    }
    if planned.self_closing {
        self_closed_tag(writer, name, &planned.attributes)
    } else {
        match open_tag_with_attributes(writer, name, &planned.attributes) {
            Ok(_) => {},
            Err(e) => {
                return Err(e);
            },
        }
        let ghost opened = *writer;
        match run_ops(&planned.children, writer, Ghost(*value)) {
            Ok(_) => {},
            Err(e) => {
                return Err(e);
            },
        }
        let ghost filled = *writer;
        let outcome = close_tag(writer, name);
        proof {
            if outcome is Ok {
                lemma_appended_more(
                    start,
                    opened,
                    filled,
                    markup::open_tag(name@ + attributes),
                    content_text(*value),
                );
                lemma_appended_more(
                    start,
                    filled,
                    *writer,
                    markup::open_tag(name@ + attributes) + content_text(*value),
                    markup::close_tag(name@),
                );
            }
        }
        outcome
    }
}

/// Writes a value as bare child nodes. The buffer takes every write, so
/// the call succeeds.
pub fn emit_children(value: &Value<'_>, writer: &mut Writer<Vec<u8>>) -> (outcome: Result<
    (),
    Error,
>)
    requires
        value.well_formed(),
        plain(*old(writer)),
    ensures
        plain(*final(writer)),
        outcome is Ok,
        appended(*old(writer), *final(writer), children_text(*value)),
    decreases *value, 2int,
{
    if let Value::Custom(custom) = value {
        return custom.serialize_child_nodes(writer);
    }
    let variant = match value {
        Value::Enum { shape, variant, fields } => if value.is_written_as_text() {
            None
        } else {
            find_variant(shape, *variant)
        },
        _ => None,
    };
    match variant {
        Some(v) => {
            let name = v.qualified_name();
            emit_own_tag(value, writer, name.as_str())
        },
        None => {
            let ops = content_ops(value);
            proof {
                lemma_content_steps_text(*value);
                lemma_content_steps_drawn(*value);
                lemma_own_fields_fit(*value);
            }
            run_ops(&ops, writer, Ghost(*value))
        },
    }
}

/// Writes a value as an element under the given name. The buffer takes
/// every write, so the call succeeds.
pub fn emit_element(value: &Value<'_>, writer: &mut Writer<Vec<u8>>, name: &str) -> (outcome:
    Result<(), Error>)
    requires
        value.well_formed(),
        plain(*old(writer)),
    ensures
        plain(*final(writer)),
        outcome is Ok,
        appended(*old(writer), *final(writer), element_text(*value, name@)),
    decreases *value, 3int,
{
    let ghost start = *writer;
    match value {
        Value::Absent => {
            proof {
                lemma_appended_nothing(start);
            }
            Ok(())
        },
        Value::Struct { shape, fields } => emit_own_tag(value, writer, name),
        Value::Custom(custom) => custom.serialize_as_element(writer, name),
        _ => {
            match open_tag(writer, name) {
                Ok(_) => {},
                Err(e) => {
                    return Err(e);
                },
            }
            let ghost opened = *writer;
            match emit_children(value, writer) {
                Ok(_) => {},
                Err(e) => {
                    return Err(e);
                },
            }
            let ghost filled = *writer;
            let outcome = close_tag(writer, name);
            proof {
                if outcome is Ok {
                    lemma_appended_more(
                        start,
                        opened,
                        filled,
                        markup::open_tag(name@),
                        children_text(*value),
                    );
                    lemma_appended_more(
                        start,
                        filled,
                        *writer,
                        markup::open_tag(name@) + children_text(*value),
                        markup::close_tag(name@),
                    );
                }
            }
            outcome
        },
    }
}

} // verus!
