//! The mapping from a value and its shape to what is emitted for it.
//!
//! For one value the mapping gives the attributes of the value's own tag,
//! the operations that emit its content, each in declaration order, and
//! whether the tag closes itself. A plan is made for one call and
//! forgotten.

use crate::document::{
    attribute_value, content_text, declared_namespaces, lemma_fields_text_grows,
    lemma_items_text_grows, children_text, element_text, field_attributes, field_text, fields_text,
    items_text,
    namespace_attributes, own_attributes, xmlns, xmlns_for, AttributePair,
};
use crate::encode::{encode_attribute, encode_content, lemma_decimal_nonempty, Primitive};
use crate::markup::{escaped, lemma_encode_is_empty, lemma_escaped_is_empty};
use crate::sink::{into_bytes, new_writer, written};
use crate::shape::{optional_text, FieldDescriptor, NamespaceDecl, TypeShape};
use crate::value::{find_variant, fit, lemma_own_fields_fit, variant_at, Value};
use vstd::prelude::*;
use vstd::string::StringExecFns;
use vstd::utf8::encode_utf8;

verus! {

/// An attribute on a tag: its qualified name and its value, before
/// escaping.
#[derive(Debug)]
pub struct Attribute {
    pub name: String,
    pub value: String,
}

impl View for Attribute {
    type V = AttributePair;

    open spec fn view(&self) -> AttributePair {
        (self.name@, self.value@)
    }
}

/// One operation that emits part of the content of an element.
pub enum ChildOp<'a> {
    /// Emit the value as an element under the given tag.
    WrapAndEmit { tag: String, value: &'a Value<'a> },
    /// Emit the child nodes of the value, with no tag around them.
    SpliceChildren { value: &'a Value<'a> },
    /// Emit a text node.
    Text { text: String },
}

/// What a [`ChildOp`] stands for.
pub enum ChildStep<'a> {
    WrapAndEmit(Seq<char>, Value<'a>),
    SpliceChildren(Value<'a>),
    Text(Seq<char>),
}

impl<'a> View for ChildOp<'a> {
    type V = ChildStep<'a>;

    open spec fn view(&self) -> ChildStep<'a> {
        match self {
            ChildOp::WrapAndEmit { tag, value } => ChildStep::WrapAndEmit(tag@, **value),
            ChildOp::SpliceChildren { value } => ChildStep::SpliceChildren(**value),
            ChildOp::Text { text } => ChildStep::Text(text@),
        }
    }
}

/// What is emitted for one value: the attributes of its own tag, the
/// operations for its content, and whether the tag closes itself.
pub struct EmissionPlan<'a> {
    pub attributes: Vec<Attribute>,
    pub children: Vec<ChildOp<'a>>,
    pub self_closing: bool,
}

/// What an [`EmissionPlan`] stands for.
pub struct PlanView<'a> {
    pub attributes: Seq<AttributePair>,
    pub children: Seq<ChildStep<'a>>,
    pub self_closing: bool,
}

/// The pairs that a list of attributes stands for.
pub open spec fn attribute_pairs(attributes: Seq<Attribute>) -> Seq<AttributePair> {
    Seq::new(attributes.len(), |i: int| attributes[i]@)
}

/// The steps that a list of operations stands for.
pub open spec fn child_steps(ops: Seq<ChildOp<'_>>) -> Seq<ChildStep<'_>> {
    Seq::new(ops.len(), |i: int| ops[i]@)
}

impl<'a> View for EmissionPlan<'a> {
    type V = PlanView<'a>;

    open spec fn view(&self) -> PlanView<'a> {
        PlanView {
            attributes: attribute_pairs(self.attributes@),
            children: child_steps(self.children@),
            self_closing: self.self_closing,
        }
    }
}

/// The step for one field in a child's place: splice the value if the
/// field is flattened, else wrap it in the field's name.
pub open spec fn field_step<'a>(descriptor: FieldDescriptor, value: Value<'a>) -> ChildStep<'a> {
    if descriptor.flatten {
        ChildStep::SpliceChildren(value)
    } else {
        ChildStep::WrapAndEmit(descriptor.emitted_name(), value)
    }
}

/// The steps for the first `n` fields: one for each field in a child's
/// place, in declaration order.
pub open spec fn field_steps<'a>(
    descriptors: Seq<FieldDescriptor>,
    values: Seq<Value<'a>>,
    n: nat,
) -> Seq<ChildStep<'a>>
    decreases n,
{
    if n == 0 || n > values.len() || n > descriptors.len() {
        Seq::empty()
    } else {
        let before = field_steps(descriptors, values, (n - 1) as nat);
        if descriptors[n - 1].placement is Element {
            before.push(field_step(descriptors[n - 1], values[n - 1]))
        } else {
            before
        }
    }
}

/// The steps for the first `n` items of a list: splice each, in order.
pub open spec fn item_steps<'a>(items: Seq<Value<'a>>, n: nat) -> Seq<ChildStep<'a>>
    decreases n,
{
    if n == 0 || n > items.len() {
        Seq::empty()
    } else {
        item_steps(items, (n - 1) as nat).push(ChildStep::SpliceChildren(items[n - 1]))
    }
}

/// The steps that emit the content of a value's own tag.
///
/// For a struct, and for an enum that is not written as text, these are
/// the steps of the fields. A primitive is one text node, as is an enum
/// written as text; a list splices its items; a missing value has no
/// steps; a value that serializes itself splices its own child nodes.
pub open spec fn content_steps<'a>(value: Value<'a>) -> Seq<ChildStep<'a>> {
    match value {
        Value::Primitive(p) => seq![ChildStep::Text(p.text())],
        Value::Absent => Seq::empty(),
        Value::Custom(_) => seq![ChildStep::SpliceChildren(value)],
        Value::List(items) => item_steps(items@, items@.len()),
        Value::Struct { shape, fields } => field_steps(
            value.descriptors(),
            fields@,
            fields@.len(),
        ),
        Value::Enum { shape, variant, fields } => match variant_at(*shape, variant as int) {
            Some(v) => if shape.is_text_enum() {
                seq![ChildStep::Text(v.name@)]
            } else {
                field_steps(value.descriptors(), fields@, fields@.len())
            },
            None => Seq::empty(),
        },
    }
}

/// The value that a step emits, if it emits one.
pub open spec fn step_value<'a>(step: ChildStep<'a>) -> Option<Value<'a>> {
    match step {
        ChildStep::WrapAndEmit(tag, value) => Some(value),
        ChildStep::SpliceChildren(value) => Some(value),
        ChildStep::Text(text) => None,
    }
}

/// Every value that the steps emit is one of the given values.
pub open spec fn drawn_from<'a>(steps: Seq<ChildStep<'a>>, values: Seq<Value<'a>>) -> bool {
    forall|k: int|
        0 <= k < steps.len() ==> match step_value(#[trigger] steps[k]) {
            Some(value) => values.contains(value),
            None => true,
        }
}

/// What one step writes.
pub open spec fn step_text(step: ChildStep<'_>) -> Seq<char> {
    match step {
        ChildStep::WrapAndEmit(tag, value) => element_text(value, tag),
        ChildStep::SpliceChildren(value) => children_text(value),
        ChildStep::Text(text) => escaped(text),
    }
}

/// What a list of steps writes: what each step writes, one after the
/// other.
pub open spec fn steps_text(steps: Seq<ChildStep<'_>>) -> Seq<char>
    decreases steps.len(),
{
    if steps.len() == 0 {
        Seq::empty()
    } else {
        steps_text(steps.drop_last()) + step_text(steps.last())
    }
}

/// The plan of a value: the attributes of its own tag, the steps of its
/// content, and a tag that closes itself exactly when the steps write
/// nothing.
pub open spec fn plan_of<'a>(value: Value<'a>) -> PlanView<'a> {
    PlanView {
        attributes: own_attributes(value),
        children: content_steps(value),
        self_closing: steps_text(content_steps(value)).len() == 0,
    }
}

/// A step more writes what the steps before it write, and then its own.
pub proof fn lemma_steps_text_push(steps: Seq<ChildStep<'_>>, step: ChildStep<'_>)
    ensures
        steps_text(steps.push(step)) == steps_text(steps) + step_text(step),
{
    assert(steps.push(step).drop_last() == steps);
}

/// The pairs of a list of attributes with one more are the pairs of the
/// list with the pair of the one more.
pub proof fn lemma_attribute_pairs_push(attributes: Seq<Attribute>, attribute: Attribute)
    ensures
        attribute_pairs(attributes.push(attribute)) == attribute_pairs(attributes).push(
            attribute@,
        ),
{
}

/// The steps of a list of operations with one more are the steps of the
/// list with the step of the one more.
pub proof fn lemma_child_steps_push<'a>(ops: Seq<ChildOp<'a>>, op: ChildOp<'a>)
    ensures
        child_steps(ops.push(op)) == child_steps(ops).push(op@),
{
}

/// The steps of the fields write what the fields contribute.
pub proof fn lemma_field_steps_text(
    descriptors: Seq<FieldDescriptor>,
    values: Seq<Value<'_>>,
    n: nat,
)
    requires
        n <= values.len(),
        values.len() == descriptors.len(),
    ensures
        steps_text(field_steps(descriptors, values, n)) == fields_text(descriptors, values, n),
    decreases n,
{
    if n > 0 {
        let before = field_steps(descriptors, values, (n - 1) as nat);
        lemma_field_steps_text(descriptors, values, (n - 1) as nat);
        let written = fields_text(descriptors, values, (n - 1) as nat);
        if descriptors[n - 1].placement is Element {
            lemma_steps_text_push(before, field_step(descriptors[n - 1], values[n - 1]));
            assert(step_text(field_step(descriptors[n - 1], values[n - 1])) == field_text(
                descriptors[n - 1],
                values[n - 1],
            ));
        } else {
            assert(field_text(descriptors[n - 1], values[n - 1]) == Seq::<char>::empty());
            assert(written + Seq::<char>::empty() == written);
        }
    }
}

/// The steps of a list write the child nodes of its items.
pub proof fn lemma_item_steps_text(items: Seq<Value<'_>>, n: nat)
    requires
        n <= items.len(),
    ensures
        steps_text(item_steps(items, n)) == items_text(items, n),
    decreases n,
{
    if n > 0 {
        lemma_item_steps_text(items, (n - 1) as nat);
        lemma_steps_text_push(
            item_steps(items, (n - 1) as nat),
            ChildStep::SpliceChildren(items[n - 1]),
        );
    }
}

/// Every opening or closing tag is at least a character long, so an
/// element that the library itself writes is never written as nothing.
pub proof fn lemma_element_text_is_empty(value: Value<'_>, name: Seq<char>)
    requires
        !(value is Custom),
    ensures
        element_text(value, name).len() == 0 <==> value is Absent,
{
}

/// The value that `value` gives to an attribute, if it gives one.
pub fn attribute_of(value: &Value<'_>) -> (text: Option<String>)
    ensures
        optional_text(text) == attribute_value(*value),
{
    match value {
        Value::Primitive(p) => Some(encode_attribute(p)),
        Value::Enum { shape, variant, fields } => match find_variant(shape, *variant) {
            Some(v) => if value.is_written_as_text() {
                Some(v.name.clone())
            } else {
                None
            },
            None => None,
        },
        _ => None,
    }
}

/// Adds the attributes that declare the given namespace prefixes, in order.
pub fn push_declared_namespaces(attributes: &mut Vec<Attribute>, decls: &Vec<NamespaceDecl>)
    ensures
        attribute_pairs(final(attributes)@) == attribute_pairs(old(attributes)@)
            + declared_namespaces(decls@, decls@.len()),
{
    let ghost before = attribute_pairs(attributes@);
    let mut i: usize = 0;
    assert(before + declared_namespaces(decls@, 0) == before);
    while i < decls.len()
        invariant
            i <= decls.len(),
            attribute_pairs(attributes@) == before + declared_namespaces(decls@, i as nat),
        decreases decls.len() - i,
    {
        proof {
            reveal_strlit("xmlns:");
        }
        let mut name = "xmlns:".to_owned();
        name.append(decls[i].prefix.as_str());
        assert(name@ == xmlns_for(decls@[i as int].prefix@));
        let attribute = Attribute { name, value: decls[i].uri.clone() };
        proof {
            lemma_attribute_pairs_push(attributes@, attribute);
            assert(before + declared_namespaces(decls@, i as nat).push(attribute@) == (before
                + declared_namespaces(decls@, i as nat)).push(attribute@));
        }
        attributes.push(attribute);
        i += 1;
    }
}

/// The attributes that declare the namespaces of a type: the default
/// namespace first, then the prefixes in declaration order.
pub fn namespace_attribute_list(shape: &TypeShape) -> (attributes: Vec<Attribute>)
    ensures
        attribute_pairs(attributes@) == namespace_attributes(*shape),
{
    let mut attributes: Vec<Attribute> = Vec::new();
    assert(attribute_pairs(attributes@) == Seq::<AttributePair>::empty());
    match &shape.default_namespace_uri {
        Some(uri) => {
            proof {
                reveal_strlit("xmlns");
            }
            let attribute = Attribute { name: "xmlns".to_owned(), value: uri.clone() };
            assert(attribute@ == (xmlns(), uri@));
            proof {
                lemma_attribute_pairs_push(attributes@, attribute);
            }
            attributes.push(attribute);
            assert(attribute_pairs(attributes@) == seq![(xmlns(), uri@)]);
        },
        None => {},
    }
    let ghost head = attribute_pairs(attributes@);
    push_declared_namespaces(&mut attributes, &shape.namespace_decls);
    proof {
        let declared = declared_namespaces(
            shape.namespace_decls@,
            shape.namespace_decls@.len(),
        );
        if shape.default_namespace_uri is None {
            assert(head + declared == declared);
        }
    }
    attributes
}

/// Adds the attributes that the fields put on their owner's tag: one for
/// each field in an attribute's place whose value is present, in
/// declaration order.
pub fn push_field_attributes(
    attributes: &mut Vec<Attribute>,
    descriptors: &[FieldDescriptor],
    values: &Vec<Value<'_>>,
)
    requires
        values@.len() == descriptors@.len(),
    ensures
        attribute_pairs(final(attributes)@) == attribute_pairs(old(attributes)@)
            + field_attributes(descriptors@, values@, values@.len()),
{
    let ghost before = attribute_pairs(attributes@);
    let mut i: usize = 0;
    assert(before + field_attributes(descriptors@, values@, 0) == before);
    while i < values.len()
        invariant
            i <= values.len(),
            values@.len() == descriptors@.len(),
            attribute_pairs(attributes@) == before + field_attributes(
                descriptors@,
                values@,
                i as nat,
            ),
        decreases values.len() - i,
    {
        if descriptors[i].placement.is_attribute() {
            match attribute_of(&values[i]) {
                Some(value) => {
                    let attribute = Attribute { name: descriptors[i].qualified_name(), value };
                    proof {
                        lemma_attribute_pairs_push(attributes@, attribute);
                        let so_far = field_attributes(descriptors@, values@, i as nat);
                        assert(before + so_far.push(attribute@) == (before + so_far).push(
                            attribute@,
                        ));
                    }
                    attributes.push(attribute);
                },
                None => {},
            }
        }
        i += 1;
    }
}

/// The operations for the fields: one for each field in a child's place,
/// in declaration order.
pub fn field_ops<'a>(descriptors: &[FieldDescriptor], values: &'a Vec<Value<'a>>) -> (ops: Vec<
    ChildOp<'a>,
>)
    requires
        values@.len() == descriptors@.len(),
    ensures
        child_steps(ops@) == field_steps(descriptors@, values@, values@.len()),
{
    let mut ops: Vec<ChildOp<'a>> = Vec::new();
    let mut i: usize = 0;
    assert(child_steps(ops@) == Seq::<ChildStep<'a>>::empty());
    while i < values.len()
        invariant
            i <= values.len(),
            values@.len() == descriptors@.len(),
            child_steps(ops@) == field_steps(descriptors@, values@, i as nat),
        decreases values.len() - i,
    {
        if !descriptors[i].placement.is_attribute() {
            let op = if descriptors[i].flatten {
                ChildOp::SpliceChildren { value: &values[i] }
            } else {
                ChildOp::WrapAndEmit { tag: descriptors[i].qualified_name(), value: &values[i] }
            };
            proof {
                lemma_child_steps_push(ops@, op);
            }
            ops.push(op);
        }
        i += 1;
    }
    ops
}

/// The operations for a list: splice each item, in order.
pub fn item_ops<'a>(items: &'a Vec<Value<'a>>) -> (ops: Vec<ChildOp<'a>>)
    ensures
        child_steps(ops@) == item_steps(items@, items@.len()),
{
    let mut ops: Vec<ChildOp<'a>> = Vec::new();
    let mut i: usize = 0;
    assert(child_steps(ops@) == Seq::<ChildStep<'a>>::empty());
    while i < items.len()
        invariant
            i <= items.len(),
            child_steps(ops@) == item_steps(items@, i as nat),
        decreases items.len() - i,
    {
        let op = ChildOp::SpliceChildren { value: &items[i] };
        proof {
            lemma_child_steps_push(ops@, op);
        }
        ops.push(op);
        i += 1;
    }
    ops
}

/// The operations that emit the content of a value's own tag.
pub fn content_ops<'a>(value: &'a Value<'a>) -> (ops: Vec<ChildOp<'a>>)
    requires
        value.well_formed(),
    ensures
        child_steps(ops@) == content_steps(*value),
{
    proof {
        lemma_own_fields_fit(*value);
    }
    match value {
        Value::Primitive(p) => {
            let mut ops: Vec<ChildOp<'a>> = Vec::new();
            ops.push(ChildOp::Text { text: encode_content(p) });
            assert(child_steps(ops@) == seq![ChildStep::Text(p.text())]);
            ops
        },
        Value::Absent => {
            let ops: Vec<ChildOp<'a>> = Vec::new();
            assert(child_steps(ops@) == Seq::<ChildStep<'a>>::empty());
            ops
        },
        Value::Custom(_) => {
            let mut ops: Vec<ChildOp<'a>> = Vec::new();
            ops.push(ChildOp::SpliceChildren { value });
            assert(child_steps(ops@) == seq![ChildStep::SpliceChildren(*value)]);
            ops
        },
        Value::List(items) => item_ops(items),
        Value::Struct { shape, fields } => field_ops(value.own_descriptors(), fields),
        Value::Enum { shape, variant, fields } => match find_variant(shape, *variant) {
            Some(v) => if value.is_written_as_text() {
                let mut ops: Vec<ChildOp<'a>> = Vec::new();
                ops.push(ChildOp::Text { text: v.name.clone() });
                assert(child_steps(ops@) == seq![ChildStep::Text(v.name@)]);
                ops
            } else {
                field_ops(value.own_descriptors(), fields)
            },
            None => {
                let ops: Vec<ChildOp<'a>> = Vec::new();
                assert(child_steps(ops@) == Seq::<ChildStep<'a>>::empty());
                ops
            },
        },
    }
}

/// The attributes on the tag that a value itself is written under.
pub fn tag_attributes(value: &Value<'_>) -> (attributes: Vec<Attribute>)
    requires
        value.well_formed(),
    ensures
        attribute_pairs(attributes@) == own_attributes(*value),
{
    proof {
        lemma_own_fields_fit(*value);
    }
    match value {
        Value::Struct { shape, fields } => {
            let mut attributes = namespace_attribute_list(shape);
            push_field_attributes(&mut attributes, value.own_descriptors(), fields);
            attributes
        },
        Value::Enum { shape, variant, fields } => {
            let mut attributes: Vec<Attribute> = Vec::new();
            assert(attribute_pairs(attributes@) == Seq::<AttributePair>::empty());
            push_field_attributes(&mut attributes, value.own_descriptors(), fields);
            assert(Seq::<AttributePair>::empty() + own_attributes(*value) == own_attributes(
                *value,
            ));
            attributes
        },
        _ => {
            let attributes: Vec<Attribute> = Vec::new();
            assert(attribute_pairs(attributes@) == Seq::<AttributePair>::empty());
            attributes
        },
    }
}

/// The steps of the fields emit values of the fields and no others.
pub proof fn lemma_field_steps_drawn<'a>(
    descriptors: Seq<FieldDescriptor>,
    values: Seq<Value<'a>>,
    n: nat,
)
    requires
        n <= values.len(),
        values.len() == descriptors.len(),
    ensures
        drawn_from(field_steps(descriptors, values, n), values),
    decreases n,
{
    if n > 0 {
        lemma_field_steps_drawn(descriptors, values, (n - 1) as nat);
        assert(values.contains(values[n - 1]));
    }
}

/// The steps of a list emit items of the list and no others.
pub proof fn lemma_item_steps_drawn<'a>(items: Seq<Value<'a>>, n: nat)
    requires
        n <= items.len(),
    ensures
        drawn_from(item_steps(items, n), items),
    decreases n,
{
    if n > 0 {
        lemma_item_steps_drawn(items, (n - 1) as nat);
        assert(items.contains(items[n - 1]));
    }
}

/// The steps of a value emit values that stand directly inside it, and no
/// others, unless the value serializes itself.
pub proof fn lemma_content_steps_drawn(value: Value<'_>)
    requires
        value.well_formed(),
        !(value is Custom),
    ensures
        drawn_from(content_steps(value), value.parts()),
{
    lemma_own_fields_fit(value);
    match value {
        Value::List(items) => {
            lemma_item_steps_drawn(items@, items@.len());
        },
        Value::Struct { shape, fields } => {
            lemma_field_steps_drawn(value.descriptors(), fields@, fields@.len());
        },
        Value::Enum { shape, variant, fields } => {
            lemma_field_steps_drawn(value.descriptors(), fields@, fields@.len());
        },
        _ => {},
    }
}

/// A single step writes what the step writes.
pub proof fn lemma_single_step(step: ChildStep<'_>)
    ensures
        steps_text(seq![step]) == step_text(step),
{
    let none = Seq::<ChildStep<'_>>::empty();
    lemma_steps_text_push(none, step);
    assert(none.push(step) == seq![step]);
    assert(Seq::<char>::empty() + step_text(step) == step_text(step));
}

/// The steps of a value write what stands between the opening and the
/// closing of its own tag.
pub proof fn lemma_content_steps_text(value: Value<'_>)
    requires
        value.well_formed(),
    ensures
        steps_text(content_steps(value)) == content_text(value),
{
    lemma_own_fields_fit(value);
    match value {
        Value::Primitive(p) => {
            lemma_single_step(ChildStep::Text(p.text()));
        },
        Value::Absent => {},
        Value::Custom(_) => {
            lemma_single_step(ChildStep::SpliceChildren(value));
        },
        Value::List(items) => {
            lemma_item_steps_text(items@, items@.len());
        },
        Value::Struct { shape, fields } => {
            lemma_field_steps_text(value.descriptors(), fields@, fields@.len());
        },
        Value::Enum { shape, variant, fields } => {
            let v = variant_at(*shape, variant as int).unwrap();
            if shape.is_text_enum() {
                lemma_single_step(ChildStep::Text(v.name@));
            } else {
                lemma_field_steps_text(value.descriptors(), fields@, fields@.len());
            }
        },
    }
}

/// Whether the given fields contribute nothing to the content of their
/// owner.
pub fn fields_write_nothing(descriptors: &[FieldDescriptor], values: &Vec<Value<'_>>) -> (blank:
    bool)
    requires
        fit(descriptors@, values@),
    ensures
        blank == (fields_text(descriptors@, values@, values@.len()).len() == 0),
    decreases *values,
{
    let mut i: usize = 0;
    while i < values.len()
        invariant
            i <= values.len(),
            fit(descriptors@, values@),
            fields_text(descriptors@, values@, i as nat).len() == 0,
        decreases values.len() - i,
    {
        let blank = if descriptors[i].placement.is_attribute() {
            true
        } else if descriptors[i].flatten {
            writes_nothing(&values[i])
        } else {
            writes_no_element(&values[i], &descriptors[i])
        };
        assert(blank == (field_text(descriptors@[i as int], values@[i as int]).len() == 0));
        if !blank {
            proof {
                lemma_fields_text_grows(descriptors@, values@, (i + 1) as nat, values@.len());
            }
            return false;
        }
        i += 1;
    }
    true
}

/// Whether the items of a list have no child nodes at all.
pub fn items_write_nothing(items: &Vec<Value<'_>>) -> (blank: bool)
    requires
        forall|i: int| 0 <= i < items@.len() ==> (#[trigger] items@[i]).well_formed(),
    ensures
        blank == (items_text(items@, items@.len()).len() == 0),
    decreases *items,
{
    let mut i: usize = 0;
    while i < items.len()
        invariant
            i <= items.len(),
            forall|j: int| 0 <= j < items@.len() ==> (#[trigger] items@[j]).well_formed(),
            items_text(items@, i as nat).len() == 0,
        decreases items.len() - i,
    {
        if !writes_nothing(&items[i]) {
            proof {
                lemma_items_text_grows(items@, (i + 1) as nat, items@.len());
            }
            return false;
        }
        i += 1;
    }
    true
}

/// Whether a field that is wrapped in its name contributes nothing to the
/// content of its owner. A missing value does; a value that serializes
/// itself is asked by letting it write into a buffer of its own.
pub fn writes_no_element(value: &Value<'_>, descriptor: &FieldDescriptor) -> (blank: bool)
    requires
        value.well_formed(),
    ensures
        blank == (element_text(*value, descriptor.emitted_name()).len() == 0),
{
    match value {
        Value::Absent => true,
        Value::Custom(custom) => {
            let name = descriptor.qualified_name();
            let mut buffer = new_writer();
            let _ = custom.serialize_as_element(&mut buffer, name.as_str());
            proof {
                lemma_encode_is_empty(custom.element(name@));
                assert(written(buffer) == encode_utf8(custom.element(name@)));
            }
            into_bytes(buffer).len() == 0
        },
        _ => {
            proof {
                lemma_element_text_is_empty(*value, descriptor.emitted_name());
            }
            false
        },
    }
}

/// Whether a value has no child nodes at all, so that nothing is written
/// for them.
pub fn writes_nothing(value: &Value<'_>) -> (blank: bool)
    requires
        value.well_formed(),
    ensures
        blank == (children_text(*value).len() == 0),
    decreases *value,
{
    proof {
        lemma_own_fields_fit(*value);
    }
    match value {
        Value::Primitive(p) => {
            proof {
                lemma_escaped_is_empty(p.text());
            }
            match p {
                Primitive::Text(s) => s.as_str().is_empty(),
                Primitive::Bool(b) => false,
                Primitive::Integer(n) => {
                    proof {
                        lemma_decimal_nonempty(*n as int);
                    }
                    false
                },
            }
        },
        Value::Absent => true,
        Value::Custom(custom) => {
            let mut buffer = new_writer();
            let _ = custom.serialize_child_nodes(&mut buffer);
            proof {
                lemma_encode_is_empty(custom.child_nodes());
                assert(written(buffer) == encode_utf8(custom.child_nodes()));
            }
            into_bytes(buffer).len() == 0
        },
        Value::List(items) => items_write_nothing(items),
        Value::Struct { shape, fields } => fields_write_nothing(value.own_descriptors(), fields),
        Value::Enum { shape, variant, fields } => match find_variant(shape, *variant) {
            Some(v) => if value.is_written_as_text() {
                proof {
                    lemma_escaped_is_empty(v.name@);
                }
                v.name.as_str().is_empty()
            } else {
                false
            },
            None => true,
        },
    }
}

/// Whether nothing stands between the opening and the closing of a
/// value's own tag.
pub fn content_is_empty(value: &Value<'_>) -> (blank: bool)
    requires
        value.well_formed(),
    ensures
        blank == (content_text(*value).len() == 0),
{
    proof {
        lemma_own_fields_fit(*value);
    }
    match value {
        Value::Enum { shape, variant, fields } => if value.is_written_as_text() {
            writes_nothing(value)
        } else {
            fields_write_nothing(value.own_descriptors(), fields)
        },
        _ => writes_nothing(value),
    }
}

/// Maps a value to what is emitted for it: the attributes of its own tag,
/// the operations for its content, each in declaration order, and whether
/// the tag closes itself.
pub fn plan<'a>(value: &'a Value<'a>) -> (plan: EmissionPlan<'a>)
    requires
        value.well_formed(),
    ensures
        plan@ == plan_of(*value),
{
    proof {
        lemma_content_steps_text(*value);
    }
    EmissionPlan {
        attributes: tag_attributes(value),
        children: content_ops(value),
        self_closing: content_is_empty(value),
    }
}

} // verus!
