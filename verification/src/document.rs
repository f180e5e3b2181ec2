//! What a value is written as.
//!
//! A value has two written forms: as an element under a given name, and as
//! the bare child nodes that make up its content. The functions here give
//! both as text; the functions that write are held to them.

use crate::markup::{attribute_text, escaped, tagged, wrapped};
use crate::shape::{FieldDescriptor, NamespaceDecl, TypeShape};
use crate::value::{variant_at, Value};
use vstd::prelude::*;

verus! {

/// An attribute as a pair of its qualified name and its value, before
/// escaping.
pub type AttributePair = (Seq<char>, Seq<char>);

/// The name of the attribute that declares the default namespace.
pub open spec fn xmlns() -> Seq<char> {
    seq!['x', 'm', 'l', 'n', 's']
}

/// The name of the attribute that declares a namespace prefix.
pub open spec fn xmlns_for(prefix: Seq<char>) -> Seq<char> {
    xmlns() + seq![':'] + prefix
}

/// The attributes that declare the first `n` of the given namespace
/// prefixes, in order.
pub open spec fn declared_namespaces(decls: Seq<NamespaceDecl>, n: nat) -> Seq<AttributePair>
    decreases n,
{
    if n == 0 || n > decls.len() {
        Seq::empty()
    } else {
        declared_namespaces(decls, (n - 1) as nat).push(
            (xmlns_for(decls[n - 1].prefix@), decls[n - 1].uri@),
        )
    }
}

/// The attributes that declare the namespaces of a type: the default
/// namespace first, then the prefixes in declaration order.
pub open spec fn namespace_attributes(shape: TypeShape) -> Seq<AttributePair> {
    let declared = declared_namespaces(shape.namespace_decls@, shape.namespace_decls@.len());
    match shape.default_namespace_uri {
        Some(uri) => seq![(xmlns(), uri@)] + declared,
        None => declared,
    }
}

/// The value that `value` gives to an attribute, if it gives one: the text
/// of a primitive, the name of the variant of an enum written as text.
/// A missing value gives none.
pub open spec fn attribute_value(value: Value<'_>) -> Option<Seq<char>> {
    match value {
        Value::Primitive(p) => Some(p.text()),
        Value::Enum { shape, variant, fields } => match variant_at(*shape, variant as int) {
            Some(v) => if shape.is_text_enum() {
                Some(v.name@)
            } else {
                None
            },
            None => None,
        },
        _ => None,
    }
}

/// The attributes that the first `n` fields put on their owner's tag: one
/// for each field in an attribute's place whose value is present, in
/// declaration order.
pub open spec fn field_attributes(
    descriptors: Seq<FieldDescriptor>,
    values: Seq<Value<'_>>,
    n: nat,
) -> Seq<AttributePair>
    decreases n,
{
    if n == 0 || n > values.len() || n > descriptors.len() {
        Seq::empty()
    } else {
        let before = field_attributes(descriptors, values, (n - 1) as nat);
        match attribute_value(values[n - 1]) {
            Some(text) => if descriptors[n - 1].placement is Attribute {
                before.push((descriptors[n - 1].emitted_name(), text))
            } else {
                before
            },
            None => before,
        }
    }
}

/// The text of a list of attributes inside a tag, one after the other.
pub open spec fn attributes_text(attributes: Seq<AttributePair>) -> Seq<char>
    decreases attributes.len(),
{
    if attributes.len() == 0 {
        Seq::empty()
    } else {
        attributes_text(attributes.drop_last()) + attribute_text(
            attributes.last().0,
            attributes.last().1,
        )
    }
}

/// The attributes on the tag that a value itself is written under: for a
/// struct, the namespaces of its type and then its fields; for an enum, the
/// fields of its variant; for any other value, none.
pub open spec fn own_attributes(value: Value<'_>) -> Seq<AttributePair> {
    let from_fields = field_attributes(
        value.descriptors(),
        value.field_values(),
        value.field_values().len(),
    );
    match value {
        Value::Struct { shape, fields } => namespace_attributes(*shape) + from_fields,
        _ => from_fields,
    }
}

/// What one field contributes to the content of its owner: the child nodes
/// of its value if the field is flattened, else its value as an element
/// under the field's name. A field in an attribute's place contributes
/// nothing here.
pub open spec fn field_text(descriptor: FieldDescriptor, value: Value<'_>) -> Seq<char>
    decreases value, 2int,
{
    if descriptor.placement is Attribute {
        Seq::empty()
    } else if descriptor.flatten {
        children_text(value)
    } else {
        element_text(value, descriptor.emitted_name())
    }
}

/// What the first `n` fields contribute to the content of their owner, in
/// declaration order.
pub open spec fn fields_text(descriptors: Seq<FieldDescriptor>, values: Seq<Value<'_>>, n: nat)
    -> Seq<char>
    decreases values, n,
{
    if n == 0 || n > values.len() {
        Seq::empty()
    } else {
        fields_text(descriptors, values, (n - 1) as nat) + field_text(
            descriptors[n - 1],
            values[n - 1],
        )
    }
}

/// The child nodes of the first `n` items of a list, one after the other.
pub open spec fn items_text(items: Seq<Value<'_>>, n: nat) -> Seq<char>
    decreases items, n,
{
    if n == 0 || n > items.len() {
        Seq::empty()
    } else {
        items_text(items, (n - 1) as nat) + children_text(items[n - 1])
    }
}

/// The value written as bare child nodes.
///
/// A primitive is a text node. A missing value is nothing. A list is the
/// child nodes of its items, with nothing between or around them. A struct
/// is what its fields contribute, and neither its attributes nor the
/// namespaces of its type appear. An enum written as text is a text node
/// with the name of the variant; any other enum is one element under the
/// variant's name, with the variant's fields as a struct's. A value that
/// serializes itself is what its own type says.
pub open spec fn children_text(value: Value<'_>) -> Seq<char>
    decreases value, 0int,
{
    match value {
        Value::Primitive(p) => escaped(p.text()),
        Value::Absent => Seq::empty(),
        Value::Custom(custom) => custom.child_nodes(),
        Value::List(items) => items_text(items@, items@.len()),
        Value::Struct { shape, fields } => fields_text(
            value.descriptors(),
            fields@,
            fields@.len(),
        ),
        Value::Enum { shape, variant, fields } => match variant_at(*shape, variant as int) {
            Some(v) => if shape.is_text_enum() {
                escaped(v.name@)
            } else {
                tagged(
                    v.emitted_name(),
                    attributes_text(own_attributes(value)),
                    fields_text(value.descriptors(), fields@, fields@.len()),
                )
            },
            None => Seq::empty(),
        },
    }
}

/// The value written as an element under the given name.
///
/// A missing value is nothing, not even a tag. A struct is one element
/// with the namespaces of its type and its attributes on the tag, around
/// what its fields contribute; it is a single self-closed tag when they
/// contribute nothing. A value that serializes itself is what its own
/// type says. Any other value is an opening and a closing tag around its
/// child nodes.
pub open spec fn element_text(value: Value<'_>, name: Seq<char>) -> Seq<char>
    decreases value, 1int,
{
    match value {
        Value::Absent => Seq::empty(),
        Value::Custom(custom) => custom.element(name),
        Value::Struct { shape, fields } => tagged(
            name,
            attributes_text(own_attributes(value)),
            fields_text(value.descriptors(), fields@, fields@.len()),
        ),
        _ => wrapped(name, children_text(value)),
    }
}

/// Whether the value is an enum that is written as an element under the
/// name of its variant.
pub open spec fn is_variant_element(value: Value<'_>) -> bool {
    value matches Value::Enum { shape, variant, fields } && variant_at(*shape, variant as int)
        is Some && !shape.is_text_enum()
}

/// What stands between the opening and the closing of a value's own tag.
/// For a struct, and for an enum written as an element, it is what the
/// fields contribute; for any other value, its child nodes.
pub open spec fn content_text(value: Value<'_>) -> Seq<char> {
    if value is Struct || is_variant_element(value) {
        fields_text(value.descriptors(), value.field_values(), value.field_values().len())
    } else {
        children_text(value)
    }
}

/// The fields contribute in turn: what the first fields contribute opens
/// what more of them contribute.
pub proof fn lemma_fields_text_grows(
    descriptors: Seq<FieldDescriptor>,
    values: Seq<Value<'_>>,
    m: nat,
    n: nat,
)
    requires
        m <= n <= values.len(),
    ensures
        fields_text(descriptors, values, m).is_prefix_of(fields_text(descriptors, values, n)),
    decreases n - m,
{
    if m < n {
        lemma_fields_text_grows(descriptors, values, m, (n - 1) as nat);
    }
}

/// The items of a list contribute in turn.
pub proof fn lemma_items_text_grows(items: Seq<Value<'_>>, m: nat, n: nat)
    requires
        m <= n <= items.len(),
    ensures
        items_text(items, m).is_prefix_of(items_text(items, n)),
    decreases n - m,
{
    if m < n {
        lemma_items_text_grows(items, m, (n - 1) as nat);
    }
}

} // verus!
