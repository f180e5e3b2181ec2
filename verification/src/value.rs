//! The values that can be serialized.

use crate::encode::Primitive;
use crate::shape::{FieldDescriptor, ShapeKind, TypeShape, VariantDescriptor, VariantKind};
use crate::traits::XmlSerialize;
use vstd::prelude::*;

verus! {

/// A value to serialize, together with the shape of its type where it has
/// one.
pub enum Value<'a> {
    /// A string, a boolean or an integer.
    Primitive(Primitive),
    /// An optional value that is missing. A present one is the value itself.
    Absent,
    /// Zero or more occurrences of a value.
    List(Vec<Value<'a>>),
    /// A struct, with one value for each field of its shape, in
    /// declaration order.
    Struct { shape: &'a TypeShape, fields: Vec<Value<'a>> },
    /// An enum, with the index of its variant and one value for each field
    /// of that variant, in declaration order.
    Enum { shape: &'a TypeShape, variant: usize, fields: Vec<Value<'a>> },
    /// A value of a type that says itself how it is serialized.
    Custom(&'a dyn XmlSerialize),
}

/// The variant at an index of a shape, if the shape is an enum that has it.
pub open spec fn variant_at(shape: TypeShape, index: int) -> Option<VariantDescriptor> {
    match shape.kind {
        ShapeKind::Enum { variants, text_mode } => if 0 <= index < variants@.len() {
            Some(variants@[index])
        } else {
            None
        },
        ShapeKind::Struct(_) => None,
    }
}

/// Each value is well formed, and each one in an attribute's place can be
/// the value of an attribute.
pub open spec fn fit(descriptors: Seq<FieldDescriptor>, values: Seq<Value<'_>>) -> bool
    decreases values, 1int,
{
    &&& values.len() == descriptors.len()
    &&& forall|i: int|
        #![trigger values[i]]
        0 <= i < values.len() ==> values[i].well_formed() && (descriptors[i].placement is Attribute
            ==> values[i].is_attribute_capable())
}

impl<'a> Value<'a> {
    /// The descriptors of the value's own fields: those of its shape for a
    /// struct, those of its variant for an enum, none otherwise.
    pub open spec fn descriptors(&self) -> Seq<FieldDescriptor> {
        match self {
            Value::Struct { shape, fields } => match shape.kind {
                ShapeKind::Struct(descriptors) => descriptors@,
                ShapeKind::Enum { .. } => Seq::empty(),
            },
            Value::Enum { shape, variant, fields } => match variant_at(**shape, *variant as int) {
                Some(v) => v.kind.fields(),
                None => Seq::empty(),
            },
            _ => Seq::empty(),
        }
    }

    /// The values of the value's own fields.
    pub open spec fn field_values(&self) -> Seq<Value<'a>> {
        match self {
            Value::Struct { shape, fields } => fields@,
            Value::Enum { shape, variant, fields } => fields@,
            _ => Seq::empty(),
        }
    }

    /// The values directly inside this one: the items of a list, the values
    /// of the fields of a struct or an enum.
    pub open spec fn parts(&self) -> Seq<Value<'a>> {
        match self {
            Value::List(items) => items@,
            _ => self.field_values(),
        }
    }

    /// Whether every value inside this one that serializes itself keeps
    /// the rules of its own type. These rules cannot be tested when the
    /// program runs; a value without such a value inside keeps them.
    pub open spec fn customs_serializable(&self) -> bool
        decreases self,
    {
        match self {
            Value::Primitive(_) => true,
            Value::Absent => true,
            Value::Custom(custom) => custom.serializable(),
            Value::List(items) => forall|i: int|
                0 <= i < items@.len() ==> (#[trigger] items@[i]).customs_serializable(),
            Value::Struct { shape, fields } => forall|i: int|
                0 <= i < fields@.len() ==> (#[trigger] fields@[i]).customs_serializable(),
            Value::Enum { shape, variant, fields } => forall|i: int|
                0 <= i < fields@.len() ==> (#[trigger] fields@[i]).customs_serializable(),
        }
    }

    /// Whether the value is an enum whose type is written as text.
    pub open spec fn is_text_enum(&self) -> bool {
        self matches Value::Enum { shape, .. } && shape.is_text_enum()
    }

    /// Whether the value can stand in an attribute's place: primitives,
    /// missing values and enums written as text can.
    pub open spec fn is_attribute_capable(&self) -> bool {
        self is Primitive || self is Absent || self.is_text_enum()
    }

    /// Whether the value agrees with its shape, all the way down: a struct
    /// has a struct's shape and a value for each field, an enum has an
    /// enum's shape and a variant of it, the shapes are well formed, and
    /// only values that can be attributes stand in an attribute's place.
    /// A value that serializes itself is held to the rules of its own type.
    pub open spec fn well_formed(&self) -> bool
        decreases self, 0int,
    {
        match self {
            Value::Primitive(_) => true,
            Value::Absent => true,
            Value::Custom(custom) => custom.serializable(),
            Value::List(items) => forall|i: int|
                0 <= i < items@.len() ==> (#[trigger] items@[i]).well_formed(),
            Value::Struct { shape, fields } => {
                &&& shape.well_formed()
                &&& shape.kind is Struct
                &&& fit(self.descriptors(), fields@)
            },
            Value::Enum { shape, variant, fields } => {
                &&& shape.well_formed()
                &&& variant_at(**shape, *variant as int) is Some
                &&& fit(self.descriptors(), fields@)
            },
        }
    }
}

/// A well-formed value has a fitting value for each of its own fields.
pub proof fn lemma_own_fields_fit(value: Value<'_>)
    requires
        value.well_formed(),
    ensures
        value is Struct || value is Enum ==> fit(value.descriptors(), value.field_values()),
        value.field_values().len() == value.descriptors().len(),
        forall|i: int|
            0 <= i < value.field_values().len() ==> (#[trigger] value.field_values()[i]).well_formed(),
        value matches Value::List(items) ==> forall|i: int|
            0 <= i < items@.len() ==> (#[trigger] items@[i]).well_formed(),
{
    reveal_with_fuel(Value::well_formed, 2);
    reveal_with_fuel(fit, 2);
}

/// A value directly inside another is smaller than it.
pub proof fn lemma_part_is_smaller(value: Value<'_>, part: Value<'_>)
    requires
        value.parts().contains(part),
    ensures
        decreases_to!(value => part),
{
    let i = choose|i: int| 0 <= i < value.parts().len() && value.parts()[i] == part;
    match value {
        Value::List(items) => {
            assert(decreases_to!(value => items));
            assert(decreases_to!(items => items@));
            assert(decreases_to!(items@ => items@[i]));
        },
        Value::Struct { shape, fields } => {
            assert(decreases_to!(value => fields));
            assert(decreases_to!(fields => fields@));
            assert(decreases_to!(fields@ => fields@[i]));
        },
        Value::Enum { shape, variant, fields } => {
            assert(decreases_to!(value => fields));
            assert(decreases_to!(fields => fields@));
            assert(decreases_to!(fields@ => fields@[i]));
        },
        _ => {},
    }
}

/// The variant at an index of a shape, if the shape is an enum that has it.
pub fn find_variant(shape: &TypeShape, index: usize) -> (found: Option<&VariantDescriptor>)
    ensures
        match found {
            Some(v) => variant_at(*shape, index as int) == Some(*v),
            None => variant_at(*shape, index as int) is None,
        },
{
    match &shape.kind {
        ShapeKind::Enum { variants, text_mode } => if index < variants.len() {
            Some(&variants[index])
        } else {
            None
        },
        ShapeKind::Struct(_) => None,
    }
}

/// The fields of a variant, in declaration order.
pub fn variant_fields(kind: &VariantKind) -> (fields: &[FieldDescriptor])
    ensures
        fields@ == kind.fields(),
{
    match kind {
        VariantKind::Unit => {
            let none: &[FieldDescriptor] = &[];
            none
        },
        VariantKind::Tuple(fields) => fields.as_slice(),
        VariantKind::Struct(fields) => fields.as_slice(),
    }
}

/// Checks that there is a well-formed value for each descriptor, and that
/// each one in an attribute's place can be the value of an attribute.
pub fn fits(descriptors: &[FieldDescriptor], values: &Vec<Value<'_>>) -> (answer: bool)
    requires
        forall|i: int| 0 <= i < values@.len() ==> (#[trigger] values@[i]).customs_serializable(),
    ensures
        answer == fit(descriptors@, values@),
    decreases *values,
{
    if values.len() != descriptors.len() {
        return false;
    }
    let mut i: usize = 0;
    while i < values.len()
        invariant
            i <= values.len(),
            values.len() == descriptors.len(),
            forall|j: int|
                0 <= j < values@.len() ==> (#[trigger] values@[j]).customs_serializable(),
            forall|j: int|
                #![trigger values@[j]]
                0 <= j < i ==> values@[j].well_formed() && (descriptors@[j].placement is Attribute
                    ==> values@[j].is_attribute_capable()),
        decreases values.len() - i,
    {
        if !values[i].conforms() {
            return false;
        }
        if descriptors[i].placement.is_attribute() && !values[i].can_be_attribute() {
            return false;
        }
        i += 1;
    }
    true
}

/// Checks that each of the values agrees with its shape.
pub fn all_conform(values: &Vec<Value<'_>>) -> (answer: bool)
    requires
        forall|i: int| 0 <= i < values@.len() ==> (#[trigger] values@[i]).customs_serializable(),
    ensures
        answer == forall|i: int| 0 <= i < values@.len() ==> (#[trigger] values@[i]).well_formed(),
    decreases *values,
{
    let mut i: usize = 0;
    while i < values.len()
        invariant
            i <= values.len(),
            forall|j: int|
                0 <= j < values@.len() ==> (#[trigger] values@[j]).customs_serializable(),
            forall|j: int| 0 <= j < i ==> (#[trigger] values@[j]).well_formed(),
        decreases values.len() - i,
    {
        if !values[i].conforms() {
            return false;
        }
        i += 1;
    }
    true
}

impl<'a> Value<'a> {
    /// The descriptors of the value's own fields.
    pub fn own_descriptors(&self) -> (descriptors: &'a [FieldDescriptor])
        ensures
            descriptors@ == self.descriptors(),
    {
        let none: &[FieldDescriptor] = &[];
        match self {
            Value::Struct { shape, fields } => match &shape.kind {
                ShapeKind::Struct(descriptors) => descriptors.as_slice(),
                ShapeKind::Enum { .. } => none,
            },
            Value::Enum { shape, variant, fields } => match find_variant(shape, *variant) {
                Some(v) => variant_fields(&v.kind),
                None => none,
            },
            _ => none,
        }
    }

    /// Whether the value is an enum whose type is written as text.
    pub fn is_written_as_text(&self) -> (answer: bool)
        ensures
            answer == self.is_text_enum(),
    {
        match self {
            Value::Enum { shape, variant, fields } => match &shape.kind {
                ShapeKind::Enum { variants, text_mode } => *text_mode,
                ShapeKind::Struct(_) => false,
            },
            _ => false,
        }
    }

    /// Whether the value can stand in an attribute's place.
    pub fn can_be_attribute(&self) -> (answer: bool)
        ensures
            answer == self.is_attribute_capable(),
    {
        match self {
            Value::Primitive(_) => true,
            Value::Absent => true,
            _ => self.is_written_as_text(),
        }
    }

    /// Checks that the value agrees with its shape, all the way down.
    /// The values inside it that serialize themselves are taken to keep
    /// the rules of their own types.
    pub fn conforms(&self) -> (answer: bool)
        requires
            self.customs_serializable(),
        ensures
            answer == self.well_formed(),
        decreases *self,
    {
        match self {
            Value::Primitive(_) => true,
            Value::Absent => true,
            Value::Custom(_) => true,
            Value::List(items) => all_conform(items),
            Value::Struct { shape, fields } => {
                let is_struct = match &shape.kind {
                    ShapeKind::Struct(_) => true,
                    ShapeKind::Enum { .. } => false,
                };
                is_struct && shape.is_well_formed() && fits(self.own_descriptors(), fields)
            },
            Value::Enum { shape, variant, fields } => {
                find_variant(shape, *variant).is_some() && shape.is_well_formed() && fits(
                    self.own_descriptors(),
                    fields,
                )
            },
        }
    }
}

} // verus!
