//! What holds of every value that is serialized.

use crate::document::{
    attribute_value, attributes_text, children_text, element_text, field_attributes,
    field_text, fields_text, namespace_attributes, own_attributes, AttributePair,
};
use crate::markup::{attribute_text, close_tag, empty_tag, escaped, open_tag, tagged, wrapped};
use crate::plan::{
    content_steps, field_step, field_steps, lemma_field_steps_text, steps_text, ChildStep,
};
use crate::shape::FieldDescriptor;
use crate::value::{lemma_own_fields_fit, variant_at, Value};
use vstd::prelude::*;

verus! {

/// A struct whose fields contribute no content is written as a single
/// self-closed tag that carries its attributes, and a struct is never
/// written as an opening tag with the closing tag right behind it. A
/// struct without a field in a child's place is such a struct.
pub proof fn law_struct_without_content_closes_itself(value: Value<'_>, name: Seq<char>)
    requires
        value is Struct,
        value.well_formed(),
    ensures
        children_text(value).len() == 0 ==> element_text(value, name) == empty_tag(
            name + attributes_text(own_attributes(value)),
        ),
        element_text(value, name) != open_tag(name + attributes_text(own_attributes(value)))
            + close_tag(name),
        (forall|i: int|
            0 <= i < value.descriptors().len() ==> value.descriptors()[i].placement is Attribute)
            ==> children_text(value).len() == 0,
{
    let attributes = attributes_text(own_attributes(value));
    let content = children_text(value);
    let pair = open_tag(name + attributes) + close_tag(name);
    if content.len() == 0 {
        assert(element_text(value, name).len() != pair.len());
    } else {
        assert(element_text(value, name).len() != pair.len());
    }
    if forall|i: int|
        0 <= i < value.descriptors().len() ==> value.descriptors()[i].placement is Attribute {
        lemma_own_fields_fit(value);
        lemma_attribute_fields_write_nothing(
            value.descriptors(),
            value.field_values(),
            value.field_values().len(),
        );
    }
}

/// Fields in an attribute's place contribute nothing to the content.
proof fn lemma_attribute_fields_write_nothing(
    descriptors: Seq<FieldDescriptor>,
    values: Seq<Value<'_>>,
    n: nat,
)
    requires
        n <= values.len(),
        n <= descriptors.len(),
        forall|i: int| 0 <= i < descriptors.len() ==> descriptors[i].placement is Attribute,
    ensures
        fields_text(descriptors, values, n).len() == 0,
    decreases n,
{
    if n > 0 {
        lemma_attribute_fields_write_nothing(descriptors, values, (n - 1) as nat);
        assert(descriptors[n - 1].placement is Attribute);
        assert(field_text(descriptors[n - 1], values[n - 1]).len() == 0);
    }
}

/// A value that is present and is not a struct is written as an element by
/// putting its child nodes between an opening and a closing tag, unless
/// its own type says how it is written.
pub proof fn law_element_wraps_child_nodes(value: Value<'_>, name: Seq<char>)
    requires
        !(value is Struct),
        !(value is Absent),
        !(value is Custom),
    ensures
        element_text(value, name) == wrapped(name, children_text(value)),
{
}

/// A struct is written as an element by putting its child nodes inside a
/// tag that carries its attributes; the child nodes themselves hold none
/// of them.
pub proof fn law_struct_element_holds_child_nodes(value: Value<'_>, name: Seq<char>)
    requires
        value is Struct,
    ensures
        element_text(value, name) == tagged(
            name,
            attributes_text(own_attributes(value)),
            children_text(value),
        ),
{
}

/// The child nodes of a struct do not depend on the fields in an
/// attribute's place: two structs of one shape that agree on every field
/// in a child's place have the same child nodes.
pub proof fn law_child_nodes_hold_no_attribute(first: Value<'_>, second: Value<'_>)
    requires
        first is Struct,
        second is Struct,
        first.well_formed(),
        second.well_formed(),
        first.descriptors() == second.descriptors(),
        forall|i: int|
            0 <= i < first.descriptors().len() && first.descriptors()[i].placement is Element
                ==> first.field_values()[i] == second.field_values()[i],
    ensures
        children_text(first) == children_text(second),
{
    lemma_own_fields_fit(first);
    lemma_own_fields_fit(second);
    lemma_fields_text_agrees(
        first.descriptors(),
        first.field_values(),
        second.field_values(),
        first.field_values().len(),
    );
}

proof fn lemma_fields_text_agrees(
    descriptors: Seq<FieldDescriptor>,
    first: Seq<Value<'_>>,
    second: Seq<Value<'_>>,
    n: nat,
)
    requires
        n <= first.len(),
        first.len() == second.len(),
        first.len() == descriptors.len(),
        forall|i: int|
            0 <= i < descriptors.len() && descriptors[i].placement is Element ==> first[i]
                == second[i],
    ensures
        fields_text(descriptors, first, n) == fields_text(descriptors, second, n),
    decreases n,
{
    if n > 0 {
        lemma_fields_text_agrees(descriptors, first, second, (n - 1) as nat);
        if descriptors[n - 1].placement is Element {
            assert(first[n - 1] == second[n - 1]);
        }
        assert(field_text(descriptors[n - 1], first[n - 1]) == field_text(
            descriptors[n - 1],
            second[n - 1],
        ));
    }
}

/// The positions, among the first `n` fields, of those in a child's place,
/// in ascending order.
pub open spec fn child_positions(descriptors: Seq<FieldDescriptor>, n: nat) -> Seq<int>
    decreases n,
{
    if n == 0 || n > descriptors.len() {
        Seq::empty()
    } else if descriptors[n - 1].placement is Element {
        child_positions(descriptors, (n - 1) as nat).push(n - 1)
    } else {
        child_positions(descriptors, (n - 1) as nat)
    }
}

/// The positions, among the first `n` fields, of those that put an
/// attribute on the tag, in ascending order.
pub open spec fn attribute_positions(
    descriptors: Seq<FieldDescriptor>,
    values: Seq<Value<'_>>,
    n: nat,
) -> Seq<int>
    decreases n,
{
    if n == 0 || n > descriptors.len() || n > values.len() {
        Seq::empty()
    } else if descriptors[n - 1].placement is Attribute && attribute_value(values[n - 1])
        is Some {
        attribute_positions(descriptors, values, (n - 1) as nat).push(n - 1)
    } else {
        attribute_positions(descriptors, values, (n - 1) as nat)
    }
}

/// There is one step for each of the first `n` fields in a child's place,
/// the steps stand in the order of the fields, and they write what the
/// fields contribute.
pub proof fn lemma_steps_follow_positions(
    descriptors: Seq<FieldDescriptor>,
    values: Seq<Value<'_>>,
    n: nat,
)
    requires
        n <= values.len(),
        values.len() == descriptors.len(),
    ensures
        ({
            let steps = field_steps(descriptors, values, n);
            let positions = child_positions(descriptors, n);
            &&& steps.len() == positions.len()
            &&& forall|k: int|
                0 <= k < steps.len() ==> 0 <= #[trigger] positions[k] < n
                    && descriptors[positions[k]].placement is Element && steps[k] == field_step(
                    descriptors[positions[k]],
                    values[positions[k]],
                )
            &&& forall|k: int, l: int| 0 <= k < l < positions.len() ==> positions[k] < positions[l]
            &&& forall|i: int|
                0 <= i < n && descriptors[i].placement is Element ==> #[trigger] positions.contains(
                    i,
                )
            &&& steps_text(steps) == fields_text(descriptors, values, n)
        }),
    decreases n,
{
    lemma_field_steps_text(descriptors, values, n);
    if n > 0 {
        lemma_steps_follow_positions(descriptors, values, (n - 1) as nat);
        let before = child_positions(descriptors, (n - 1) as nat);
        let positions = child_positions(descriptors, n);
        let emits = descriptors[n - 1].placement is Element;
        assert forall|i: int|
            0 <= i < n && descriptors[i].placement is Element implies #[trigger] positions.contains(
            i,
        ) by {
            if i < n - 1 {
                assert(before.contains(i));
                let k = choose|k: int| 0 <= k < before.len() && before[k] == i;
                assert(positions[k] == i);
            } else {
                assert(positions[positions.len() - 1] == i);
            }
        }
    }
}

/// There is one attribute for each of the first `n` fields in an
/// attribute's place whose value is present, under the field's name and
/// with the field's value, and the attributes stand in the order of the
/// fields.
pub proof fn lemma_attributes_follow_positions(
    descriptors: Seq<FieldDescriptor>,
    values: Seq<Value<'_>>,
    n: nat,
)
    requires
        n <= values.len(),
        values.len() == descriptors.len(),
    ensures
        ({
            let attributes = field_attributes(descriptors, values, n);
            let positions = attribute_positions(descriptors, values, n);
            &&& attributes.len() == positions.len()
            &&& forall|k: int|
                0 <= k < attributes.len() ==> 0 <= #[trigger] positions[k] < n
                    && descriptors[positions[k]].placement is Attribute && attributes[k] == (
                    descriptors[positions[k]].emitted_name(),
                    attribute_value(values[positions[k]]).unwrap(),
                )
            &&& forall|k: int, l: int| 0 <= k < l < positions.len() ==> positions[k] < positions[l]
            &&& forall|i: int|
                0 <= i < n && descriptors[i].placement is Attribute && attribute_value(values[i])
                    is Some ==> #[trigger] positions.contains(i)
        }),
    decreases n,
{
    if n > 0 {
        lemma_attributes_follow_positions(descriptors, values, (n - 1) as nat);
        let before = attribute_positions(descriptors, values, (n - 1) as nat);
        let positions = attribute_positions(descriptors, values, n);
        assert forall|i: int|
            0 <= i < n && descriptors[i].placement is Attribute && attribute_value(values[i])
                is Some implies #[trigger] positions.contains(i) by {
            if i < n - 1 {
                assert(before.contains(i));
                let k = choose|k: int| 0 <= k < before.len() && before[k] == i;
                assert(positions[k] == i);
            } else {
                assert(positions[positions.len() - 1] == i);
            }
        }
    }
}

/// The child nodes of a struct are emitted in declaration order. They are
/// what the steps of the struct write, one after the other; there is one
/// step for each field in a child's place and none for any other field;
/// and a step stands before another exactly when its field is declared
/// before the other's.
pub proof fn law_children_in_declaration_order(value: Value<'_>)
    requires
        value is Struct,
        value.well_formed(),
    ensures
        ({
            let descriptors = value.descriptors();
            let values = value.field_values();
            let steps = content_steps(value);
            let positions = child_positions(descriptors, descriptors.len());
            &&& children_text(value) == steps_text(steps)
            &&& steps.len() == positions.len()
            &&& forall|k: int|
                0 <= k < steps.len() ==> 0 <= #[trigger] positions[k] < descriptors.len()
                    && descriptors[positions[k]].placement is Element
                    && descriptors[positions[k]].declaration_order == positions[k] && steps[k]
                    == field_step(descriptors[positions[k]], values[positions[k]])
            &&& forall|k: int, l: int| 0 <= k < l < positions.len() ==> positions[k] < positions[l]
            &&& forall|i: int|
                0 <= i < descriptors.len() && descriptors[i].placement is Element
                    ==> #[trigger] positions.contains(i)
        }),
{
    lemma_own_fields_fit(value);
    lemma_steps_follow_positions(
        value.descriptors(),
        value.field_values(),
        value.field_values().len(),
    );
}

/// The attributes on the tag of a struct are emitted in declaration
/// order. The namespaces of the type come first. Behind them there is one
/// attribute for each field in an attribute's place whose value is
/// present, under the field's name and with the field's value, and none
/// for any other field; and an attribute stands before another exactly
/// when its field is declared before the other's.
pub proof fn law_attributes_in_declaration_order(value: Value<'_>)
    requires
        value is Struct,
        value.well_formed(),
    ensures
        ({
            let descriptors = value.descriptors();
            let values = value.field_values();
            let attributes = field_attributes(descriptors, values, values.len());
            let positions = attribute_positions(descriptors, values, values.len());
            &&& value matches Value::Struct { shape, fields } ==> own_attributes(value)
                == namespace_attributes(*shape) + attributes
            &&& attributes.len() == positions.len()
            &&& forall|k: int|
                0 <= k < attributes.len() ==> 0 <= #[trigger] positions[k] < descriptors.len()
                    && descriptors[positions[k]].placement is Attribute
                    && descriptors[positions[k]].declaration_order == positions[k]
                    && attributes[k] == (
                    descriptors[positions[k]].emitted_name(),
                    attribute_value(values[positions[k]]).unwrap(),
                )
            &&& forall|k: int, l: int| 0 <= k < l < positions.len() ==> positions[k] < positions[l]
            &&& forall|i: int|
                0 <= i < descriptors.len() && descriptors[i].placement is Attribute
                    && attribute_value(values[i]) is Some ==> #[trigger] positions.contains(i)
        }),
{
    lemma_own_fields_fit(value);
    lemma_attributes_follow_positions(
        value.descriptors(),
        value.field_values(),
        value.field_values().len(),
    );
}

/// What the fields from position `m` up to position `n` contribute to the
/// content of their owner.
pub open spec fn fields_text_between(
    descriptors: Seq<FieldDescriptor>,
    values: Seq<Value<'_>>,
    m: nat,
    n: nat,
) -> Seq<char>
    decreases n,
{
    if n <= m || n > values.len() {
        Seq::empty()
    } else {
        fields_text_between(descriptors, values, m, (n - 1) as nat) + field_text(
            descriptors[n - 1],
            values[n - 1],
        )
    }
}

/// The content splits at any position into what the fields before it
/// contribute and what the fields from it on contribute.
pub proof fn lemma_fields_text_splits(
    descriptors: Seq<FieldDescriptor>,
    values: Seq<Value<'_>>,
    m: nat,
    n: nat,
)
    requires
        m <= n <= values.len(),
    ensures
        fields_text(descriptors, values, n) == fields_text(descriptors, values, m)
            + fields_text_between(descriptors, values, m, n),
    decreases n,
{
    if m < n {
        lemma_fields_text_splits(descriptors, values, m, (n - 1) as nat);
        let last = field_text(descriptors[n - 1], values[n - 1]);
        let head = fields_text(descriptors, values, m);
        let middle = fields_text_between(descriptors, values, m, (n - 1) as nat);
        assert(head + middle + last == head + (middle + last));
    } else {
        assert(fields_text(descriptors, values, m) + Seq::<char>::empty() == fields_text(
            descriptors,
            values,
            m,
        ));
    }
}

/// A flattened field gets no tag of its own: it contributes the child
/// nodes of its value and nothing else, and they stand in the content of
/// the owner at the field's position, behind what the fields before it
/// contribute and before what the fields after it contribute.
pub proof fn law_flattened_field_is_spliced(value: Value<'_>, i: int)
    requires
        value is Struct,
        0 <= i < value.field_values().len(),
        value.descriptors()[i].placement is Element,
        value.descriptors()[i].flatten,
    ensures
        field_text(value.descriptors()[i], value.field_values()[i]) == children_text(
            value.field_values()[i],
        ),
        children_text(value) == fields_text(value.descriptors(), value.field_values(), i as nat)
            + children_text(value.field_values()[i]) + fields_text_between(
            value.descriptors(),
            value.field_values(),
            (i + 1) as nat,
            value.field_values().len(),
        ),
{
    let descriptors = value.descriptors();
    let values = value.field_values();
    lemma_fields_text_splits(descriptors, values, (i + 1) as nat, values.len());
}

/// The namespaces of a struct's type are declared on the struct's own tag,
/// ahead of the attributes of its fields, and nowhere else: the child
/// nodes of the struct, which hold every tag inside it, are the same
/// whatever namespaces the type declares.
pub proof fn law_namespaces_on_own_tag_only(value: Value<'_>, other: Value<'_>, name: Seq<char>)
    requires
        value is Struct,
        other is Struct,
        value.descriptors() == other.descriptors(),
        value.field_values() == other.field_values(),
    ensures
        children_text(value) == children_text(other),
        value matches Value::Struct { shape, fields } ==> element_text(value, name) == tagged(
            name,
            attributes_text(namespace_attributes(*shape)) + attributes_text(
                field_attributes(value.descriptors(), fields@, fields@.len()),
            ),
            children_text(value),
        ),
{
    match value {
        Value::Struct { shape, fields } => {
            lemma_attributes_text_concat(
                namespace_attributes(*shape),
                field_attributes(value.descriptors(), fields@, fields@.len()),
            );
        },
        _ => {},
    }
}

/// The tag of an enum's variant never declares a namespace: what an enum
/// is written as is the same whatever namespaces its type declares.
pub proof fn law_variant_tag_declares_no_namespace(
    value: Value<'_>,
    other: Value<'_>,
    name: Seq<char>,
)
    requires
        value matches Value::Enum { shape, variant, fields } && other matches Value::Enum {
            shape: other_shape,
            variant: other_variant,
            fields: other_fields,
        } && shape.kind == other_shape.kind && variant == other_variant && fields@
            == other_fields@,
    ensures
        children_text(value) == children_text(other),
        element_text(value, name) == element_text(other, name),
{
}

/// The text of two lists of attributes, one after the other.
pub proof fn lemma_attributes_text_concat(first: Seq<AttributePair>, second: Seq<AttributePair>)
    ensures
        attributes_text(first + second) == attributes_text(first) + attributes_text(second),
    decreases second.len(),
{
    if second.len() == 0 {
        assert(first + second == first);
        assert(attributes_text(first) + Seq::<char>::empty() == attributes_text(first));
    } else {
        assert((first + second).drop_last() == first + second.drop_last());
        lemma_attributes_text_concat(first, second.drop_last());
        let last = attribute_text(second.last().0, second.last().1);
        assert(attributes_text(first) + attributes_text(second.drop_last()) + last
            == attributes_text(first) + (attributes_text(second.drop_last()) + last));
    }
}

/// An enum that is written as text has one text node for its child nodes,
/// which holds the name of its variant; as an attribute it gives the same
/// name; and a field that holds it is still wrapped in the field's name.
pub proof fn law_text_enum_is_its_variant_name(value: Value<'_>, field: FieldDescriptor)
    requires
        value.is_text_enum(),
        value matches Value::Enum { shape, variant, fields } && variant_at(*shape, variant as int)
            is Some,
    ensures
        value matches Value::Enum { shape, variant, fields } ==> {
            let name = variant_at(*shape, variant as int).unwrap().name@;
            &&& children_text(value) == escaped(name)
            &&& content_steps(value) == seq![ChildStep::Text(name)]
            &&& attribute_value(value) == Some(name)
            &&& field.placement is Element && !field.flatten ==> field_text(field, value)
                == wrapped(field.emitted_name(), escaped(name))
        },
{
}

} // verus!
