//! From the declaration of a type to its shape.
//!
//! A declaration lists the fields or variants of a type and the
//! properties written on the type and on each field. This module checks
//! the properties and lays the shape out. Every field is looked at, so
//! that all the faults of a declaration are reported together.

use crate::encode::{decimal, integer_text};
use crate::shape::{
    fields_well_formed, namespace_pairs, optional_text, FieldDescriptor, NamespaceDecl,
    Placement, ShapeKind, TypeShape, VariantDescriptor, VariantKind,
};
use vstd::prelude::*;
use vstd::string::StringExecFns;

verus! {

/// A property written on a field.
#[derive(Debug)]
pub enum FieldProperty {
    /// The field is emitted as an attribute.
    Attribute,
    /// The field's content is spliced into its owner's.
    Flatten,
    /// The field's name is emitted behind this namespace prefix.
    NamespacePrefix(String),
    /// Anything else, as it was written.
    Unrecognized(String),
}

/// A property written on a type.
#[derive(Debug)]
pub enum TypeProperty {
    /// The default namespace declared on the type's tag.
    DefaultNamespace(String),
    /// A namespace prefix declared on the type's tag.
    Namespace { prefix: String, uri: String },
    /// Values are written as the bare name of their variant.
    Text,
    /// The tag of every variant is emitted behind this namespace prefix.
    VariantNamespacePrefix(String),
    /// Anything else, as it was written.
    Unrecognized(String),
}

/// A field that is declared with a name.
#[derive(Debug)]
pub struct NamedField {
    pub name: String,
    pub properties: Vec<FieldProperty>,
}

/// The fields of a struct or of an enum variant, as declared.
#[derive(Debug)]
pub enum FieldsDecl {
    /// Fields declared with a name and a type.
    Named(Vec<NamedField>),
    /// Fields declared by type and position only; each is given by the
    /// properties written on it.
    Unnamed(Vec<Vec<FieldProperty>>),
    /// No fields.
    Unit,
}

/// A variant of an enum, as declared.
#[derive(Debug)]
pub struct VariantDecl {
    pub name: String,
    pub fields: FieldsDecl,
}

/// What a declaration declares.
#[derive(Debug)]
pub enum DataDecl {
    Struct(FieldsDecl),
    Enum(Vec<VariantDecl>),
}

/// The declaration of a type.
#[derive(Debug)]
pub struct TypeDecl {
    pub properties: Vec<TypeProperty>,
    pub data: DataDecl,
}

/// What is wrong with a declaration.
#[derive(Debug, Clone, Copy, PartialEq, Eq)]
pub enum SchemaErrorKind {
    /// A property that this crate does not know.
    UnrecognizedProperty,
    /// More than one default namespace on a type.
    MultipleDefaultNamespaces,
    /// A struct that asks to be written as text.
    TextOnStruct,
    /// An enum that asks to be written as text and has a variant with
    /// fields.
    TextWithNonUnitVariants,
    /// An enum that asks to be written as text and declares a namespace.
    TextWithNamespaces,
    /// A field without a name that asks to be an attribute.
    AttributeOnUnnamedField,
    /// A field that asks to be an attribute and to be flattened.
    FlattenedAttribute,
}

/// Where in a declaration a fault lies.
#[derive(Debug, Clone, Copy, PartialEq, Eq)]
pub enum Place {
    /// In the properties of the type.
    Type,
    /// In the field of a struct at this position.
    Field(usize),
    /// In the field at position `field` of the variant at position
    /// `variant`.
    VariantField { variant: usize, field: usize },
}

/// A fault in a declaration.
#[derive(Debug, Clone, Copy, PartialEq, Eq)]
pub struct SchemaError {
    pub kind: SchemaErrorKind,
    pub place: Place,
}

/// How a field is emitted, as far as its properties say.
#[derive(Debug)]
pub struct FieldProps {
    pub placement: Placement,
    pub should_flatten: bool,
    pub namespace_prefix: Option<String>,
}

/// What [`FieldProps`] stands for.
pub struct FieldPropsView {
    pub placement: Placement,
    pub should_flatten: bool,
    pub namespace_prefix: Option<Seq<char>>,
}

impl View for FieldProps {
    type V = FieldPropsView;

    open spec fn view(&self) -> FieldPropsView {
        FieldPropsView {
            placement: self.placement,
            should_flatten: self.should_flatten,
            namespace_prefix: optional_text(self.namespace_prefix),
        }
    }
}

/// The properties of a field on which nothing is written: a child, not
/// flattened, without a prefix.
pub open spec fn plain_field() -> FieldPropsView {
    FieldPropsView {
        placement: Placement::Element,
        should_flatten: false,
        namespace_prefix: None,
    }
}

impl Default for FieldProps {
    fn default() -> (props: FieldProps)
        ensures
            props@ == plain_field(),
    {
        FieldProps { placement: Placement::Element, should_flatten: false, namespace_prefix: None }
    }
}

/// What the first `n` properties of a field say, read in order. A later
/// prefix replaces an earlier one. The first property that is not
/// recognized is a fault, and nothing is read behind it.
pub open spec fn read_field_properties(properties: Seq<FieldProperty>, n: nat) -> Result<
    FieldPropsView,
    SchemaErrorKind,
>
    decreases n,
{
    if n == 0 || n > properties.len() {
        Ok(plain_field())
    } else {
        match read_field_properties(properties, (n - 1) as nat) {
            Err(kind) => Err(kind),
            Ok(props) => match properties[n - 1] {
                FieldProperty::Attribute => Ok(
                    FieldPropsView { placement: Placement::Attribute, ..props },
                ),
                FieldProperty::Flatten => Ok(FieldPropsView { should_flatten: true, ..props }),
                FieldProperty::NamespacePrefix(prefix) => Ok(
                    FieldPropsView { namespace_prefix: Some(prefix@), ..props },
                ),
                FieldProperty::Unrecognized(_) => Err(SchemaErrorKind::UnrecognizedProperty),
            },
        }
    }
}

/// What the properties of a field say, or what is wrong with them. Only a
/// field with a name can be an attribute, and an attribute cannot be
/// flattened.
pub open spec fn field_props(properties: Seq<FieldProperty>, field_has_name: bool) -> Result<
    FieldPropsView,
    SchemaErrorKind,
> {
    match read_field_properties(properties, properties.len()) {
        Err(kind) => Err(kind),
        Ok(props) => if props.placement is Attribute && !field_has_name {
            Err(SchemaErrorKind::AttributeOnUnnamedField)
        } else if props.placement is Attribute && props.should_flatten {
            Err(SchemaErrorKind::FlattenedAttribute)
        } else {
            Ok(props)
        },
    }
}

impl FieldProps {
    /// Reads the properties written on a field.
    pub fn try_from_properties(properties: &Vec<FieldProperty>, field_has_name: bool) -> (outcome:
        Result<FieldProps, SchemaErrorKind>)
        ensures
            match outcome {
                Ok(props) => field_props(properties@, field_has_name) == Ok::<
                    FieldPropsView,
                    SchemaErrorKind,
                >(props@),
                Err(kind) => field_props(properties@, field_has_name) == Err::<
                    FieldPropsView,
                    SchemaErrorKind,
                >(kind),
            },
    {
        let mut props = FieldProps::default();
        let mut i: usize = 0;
        while i < properties.len()
            invariant
                i <= properties.len(),
                read_field_properties(properties@, i as nat) == Ok::<
                    FieldPropsView,
                    SchemaErrorKind,
                >(props@),
            decreases properties.len() - i,
        {
            match &properties[i] {
                FieldProperty::Attribute => {
                    props.placement = Placement::Attribute;
                },
                FieldProperty::Flatten => {
                    props.should_flatten = true;
                },
                FieldProperty::NamespacePrefix(prefix) => {
                    props.namespace_prefix = Some(prefix.clone());
                },
                FieldProperty::Unrecognized(_) => {
                    proof {
                        lemma_field_fault_stays(properties@, (i + 1) as nat, properties@.len());
                    }
                    return Err(SchemaErrorKind::UnrecognizedProperty);
                },
            }
            i += 1;
        }
        if props.placement.is_attribute() && !field_has_name {
            Err(SchemaErrorKind::AttributeOnUnnamedField)
        } else if props.placement.is_attribute() && props.should_flatten {
            Err(SchemaErrorKind::FlattenedAttribute)
        } else {
            Ok(props)
        }
    }
}

/// Once a fault is found in the properties of a field, reading on does not
/// change it.
pub proof fn lemma_field_fault_stays(properties: Seq<FieldProperty>, m: nat, n: nat)
    requires
        m <= n <= properties.len(),
        read_field_properties(properties, m) is Err,
    ensures
        read_field_properties(properties, n) == read_field_properties(properties, m),
    decreases n - m,
{
    if m < n {
        lemma_field_fault_stays(properties, m, (n - 1) as nat);
    }
}

/// The place of the field at a position: in a struct, or in the variant
/// at the given position of an enum.
pub open spec fn place_of(variant: Option<usize>, field: usize) -> Place {
    match variant {
        Some(v) => Place::VariantField { variant: v, field },
        None => Place::Field(field),
    }
}

/// The name made up for the field at a position that was declared without
/// one: `field0`, `field1` and so on.
pub open spec fn positional_name(position: int) -> Seq<char> {
    seq!['f', 'i', 'e', 'l', 'd'] + decimal(position)
}

/// The descriptor lays the field out as its properties say, or as those of
/// a plain field if they are faulty. A field without a name is given a
/// made-up one and is flattened, since it has no name to be wrapped in.
pub open spec fn describes(
    descriptor: FieldDescriptor,
    name: Option<Seq<char>>,
    properties: Seq<FieldProperty>,
    position: int,
) -> bool {
    let props = match field_props(properties, name is Some) {
        Ok(props) => props,
        Err(_) => plain_field(),
    };
    &&& descriptor.name@ == match name {
        Some(n) => n,
        None => positional_name(position),
    }
    &&& descriptor.placement == props.placement
    &&& optional_text(descriptor.ns_prefix) == props.namespace_prefix
    &&& descriptor.flatten == (props.should_flatten || name is None)
    &&& descriptor.declaration_order == position
}

/// The faults of the first `n` named fields, in declaration order.
pub open spec fn named_faults(fields: Seq<NamedField>, variant: Option<usize>, n: nat) -> Seq<
    SchemaError,
>
    decreases n,
{
    if n == 0 || n > fields.len() {
        Seq::empty()
    } else {
        let before = named_faults(fields, variant, (n - 1) as nat);
        match field_props(fields[n - 1].properties@, true) {
            Ok(_) => before,
            Err(kind) => before.push(
                SchemaError { kind, place: place_of(variant, (n - 1) as usize) },
            ),
        }
    }
}

/// The faults of the first `n` unnamed fields, in declaration order.
pub open spec fn unnamed_faults(
    fields: Seq<Vec<FieldProperty>>,
    variant: Option<usize>,
    n: nat,
) -> Seq<SchemaError>
    decreases n,
{
    if n == 0 || n > fields.len() {
        Seq::empty()
    } else {
        let before = unnamed_faults(fields, variant, (n - 1) as nat);
        match field_props(fields[n - 1]@, false) {
            Ok(_) => before,
            Err(kind) => before.push(
                SchemaError { kind, place: place_of(variant, (n - 1) as usize) },
            ),
        }
    }
}

/// The faults of the fields of a struct or of a variant, in declaration
/// order.
pub open spec fn fields_faults(fields: FieldsDecl, variant: Option<usize>) -> Seq<SchemaError> {
    match fields {
        FieldsDecl::Named(named) => named_faults(named@, variant, named@.len()),
        FieldsDecl::Unnamed(unnamed) => unnamed_faults(unnamed@, variant, unnamed@.len()),
        FieldsDecl::Unit => Seq::empty(),
    }
}

/// The descriptors lay out the declared fields, one for one and in
/// declaration order.
pub open spec fn fields_described(descriptors: Seq<FieldDescriptor>, fields: FieldsDecl) -> bool {
    match fields {
        FieldsDecl::Named(named) => {
            &&& descriptors.len() == named@.len()
            &&& forall|i: int|
                0 <= i < named@.len() ==> describes(
                    #[trigger] descriptors[i],
                    Some(named@[i].name@),
                    named@[i].properties@,
                    i,
                )
        },
        FieldsDecl::Unnamed(unnamed) => {
            &&& descriptors.len() == unnamed@.len()
            &&& forall|i: int|
                0 <= i < unnamed@.len() ==> describes(
                    #[trigger] descriptors[i],
                    None,
                    unnamed@[i]@,
                    i,
                )
        },
        FieldsDecl::Unit => descriptors.len() == 0,
    }
}

/// Records a fault found in the properties of a field, and stands in for
/// the properties with those of a plain field.
pub fn collect_field_processing_error(errors: &mut Vec<SchemaError>, err: SchemaError) -> (props:
    FieldProps)
    ensures
        final(errors)@ == old(errors)@.push(err),
        props@ == plain_field(),
{
    errors.push(err);
    FieldProps::default()
}

/// The place of the field at a position.
pub fn place_for(variant: Option<usize>, field: usize) -> (place: Place)
    ensures
        place == place_of(variant, field),
{
    match variant {
        Some(v) => Place::VariantField { variant: v, field },
        None => Place::Field(field),
    }
}

/// Reads the properties of a field, recording a fault if there is one.
fn read_field(
    properties: &Vec<FieldProperty>,
    field_has_name: bool,
    place: Place,
    errors: &mut Vec<SchemaError>,
) -> (props: FieldProps)
    ensures
        match field_props(properties@, field_has_name) {
            Ok(read) => props@ == read && final(errors)@ == old(errors)@,
            Err(kind) => props@ == plain_field() && final(errors)@ == old(errors)@.push(
                SchemaError { kind, place },
            ),
        },
{
    match FieldProps::try_from_properties(properties, field_has_name) {
        Ok(props) => props,
        Err(kind) => collect_field_processing_error(errors, SchemaError { kind, place }),
    }
}

/// The name made up for the field at a position that was declared without
/// one.
pub fn make_positional_name(position: usize) -> (name: String)
    ensures
        name@ == positional_name(position as int),
{
    proof {
        reveal_strlit("field");
    }
    let mut name = "field".to_owned();
    let digits = integer_text(position as i128);
    name.append(digits.as_str());
    assert("field"@ == seq!['f', 'i', 'e', 'l', 'd']);
    name
}

/// Lays out fields that were declared with a name, recording the faults
/// of each.
fn describe_named(
    fields: &Vec<NamedField>,
    variant: Option<usize>,
    errors: &mut Vec<SchemaError>,
) -> (descriptors: Vec<FieldDescriptor>)
    ensures
        fields_described(descriptors@, FieldsDecl::Named(*fields)),
        final(errors)@ == old(errors)@ + named_faults(fields@, variant, fields@.len()),
{
    let ghost before = errors@;
    let mut descriptors: Vec<FieldDescriptor> = Vec::new();
    let mut i: usize = 0;
    assert(before + named_faults(fields@, variant, 0) == before);
    while i < fields.len()
        invariant
            i <= fields.len(),
            descriptors@.len() == i,
            forall|j: int|
                0 <= j < i ==> describes(
                    #[trigger] descriptors@[j],
                    Some(fields@[j].name@),
                    fields@[j].properties@,
                    j,
                ),
            errors@ == before + named_faults(fields@, variant, i as nat),
        decreases fields.len() - i,
    {
        let ghost found = named_faults(fields@, variant, i as nat);
        let props = read_field(&fields[i].properties, true, place_for(variant, i), errors);
        proof {
            match field_props(fields@[i as int].properties@, true) {
                Ok(_) => {},
                Err(kind) => {
                    let fault = SchemaError { kind, place: place_of(variant, i) };
                    assert((before + found).push(fault) == before + found.push(fault));
                },
            }
        }
        descriptors.push(
            FieldDescriptor {
                name: fields[i].name.clone(),
                placement: props.placement,
                ns_prefix: props.namespace_prefix,
                flatten: props.should_flatten,
                declaration_order: i,
            },
        );
        i += 1;
    }
    descriptors
}

/// Lays out fields that were declared by position, recording the faults
/// of each.
fn describe_unnamed(
    fields: &Vec<Vec<FieldProperty>>,
    variant: Option<usize>,
    errors: &mut Vec<SchemaError>,
) -> (descriptors: Vec<FieldDescriptor>)
    ensures
        fields_described(descriptors@, FieldsDecl::Unnamed(*fields)),
        final(errors)@ == old(errors)@ + unnamed_faults(fields@, variant, fields@.len()),
{
    let ghost before = errors@;
    let mut descriptors: Vec<FieldDescriptor> = Vec::new();
    let mut i: usize = 0;
    assert(before + unnamed_faults(fields@, variant, 0) == before);
    while i < fields.len()
        invariant
            i <= fields.len(),
            descriptors@.len() == i,
            forall|j: int|
                0 <= j < i ==> describes(#[trigger] descriptors@[j], None, fields@[j]@, j),
            errors@ == before + unnamed_faults(fields@, variant, i as nat),
        decreases fields.len() - i,
    {
        let ghost found = unnamed_faults(fields@, variant, i as nat);
        let props = read_field(&fields[i], false, place_for(variant, i), errors);
        proof {
            match field_props(fields@[i as int]@, false) {
                Ok(_) => {},
                Err(kind) => {
                    let fault = SchemaError { kind, place: place_of(variant, i) };
                    assert((before + found).push(fault) == before + found.push(fault));
                },
            }
        }
        descriptors.push(
            FieldDescriptor {
                name: make_positional_name(i),
                placement: props.placement,
                ns_prefix: props.namespace_prefix,
                flatten: true,
                declaration_order: i,
            },
        );
        i += 1;
    }
    descriptors
}

/// Descriptors that lay declared fields out are well formed.
pub proof fn lemma_described_fields_well_formed(
    descriptors: Seq<FieldDescriptor>,
    fields: FieldsDecl,
)
    requires
        fields_described(descriptors, fields),
    ensures
        fields_well_formed(descriptors),
{
    assert forall|i: int| 0 <= i < descriptors.len() implies (#[trigger] descriptors[i]).well_formed()
        && descriptors[i].declaration_order == i by {
        match fields {
            FieldsDecl::Named(named) => {
                assert(describes(descriptors[i], Some(named@[i].name@), named@[i].properties@, i));
            },
            FieldsDecl::Unnamed(unnamed) => {
                assert(describes(descriptors[i], None, unnamed@[i]@, i));
            },
            FieldsDecl::Unit => {},
        }
    }
}

/// How a type is emitted, as far as its properties say.
#[derive(Debug)]
pub struct TypeProps {
    pub default_namespace: Option<String>,
    pub namespaces: Vec<NamespaceDecl>,
    pub should_serialize_as_text: bool,
    pub ns_prefix_for_variants: Option<String>,
}

/// What [`TypeProps`] stands for.
pub struct TypePropsView {
    pub default_namespace: Option<Seq<char>>,
    pub namespaces: Seq<(Seq<char>, Seq<char>)>,
    pub should_serialize_as_text: bool,
    pub ns_prefix_for_variants: Option<Seq<char>>,
}

impl View for TypeProps {
    type V = TypePropsView;

    open spec fn view(&self) -> TypePropsView {
        TypePropsView {
            default_namespace: optional_text(self.default_namespace),
            namespaces: namespace_pairs(self.namespaces@),
            should_serialize_as_text: self.should_serialize_as_text,
            ns_prefix_for_variants: optional_text(self.ns_prefix_for_variants),
        }
    }
}

/// The properties of a type on which nothing is written.
pub open spec fn plain_type() -> TypePropsView {
    TypePropsView {
        default_namespace: None,
        namespaces: Seq::empty(),
        should_serialize_as_text: false,
        ns_prefix_for_variants: None,
    }
}

impl Default for TypeProps {
    fn default() -> (props: TypeProps)
        ensures
            props@ == plain_type(),
    {
        let props = TypeProps {
            default_namespace: None,
            namespaces: Vec::new(),
            should_serialize_as_text: false,
            ns_prefix_for_variants: None,
        };
        assert(props@.namespaces == Seq::<(Seq<char>, Seq<char>)>::empty());
        props
    }
}

/// What the first `n` properties of a type say, read in order. Namespace
/// prefixes are kept in the order in which they are declared. A second
/// default namespace is a fault, as is a property that is not recognized;
/// nothing is read behind the first fault.
pub open spec fn read_type_properties(properties: Seq<TypeProperty>, n: nat) -> Result<
    TypePropsView,
    SchemaErrorKind,
>
    decreases n,
{
    if n == 0 || n > properties.len() {
        Ok(plain_type())
    } else {
        match read_type_properties(properties, (n - 1) as nat) {
            Err(kind) => Err(kind),
            Ok(props) => match properties[n - 1] {
                TypeProperty::DefaultNamespace(uri) => if props.default_namespace is Some {
                    Err(SchemaErrorKind::MultipleDefaultNamespaces)
                } else {
                    Ok(TypePropsView { default_namespace: Some(uri@), ..props })
                },
                TypeProperty::Namespace { prefix, uri } => Ok(
                    TypePropsView { namespaces: props.namespaces.push((prefix@, uri@)), ..props },
                ),
                TypeProperty::Text => Ok(TypePropsView { should_serialize_as_text: true, ..props }),
                TypeProperty::VariantNamespacePrefix(prefix) => Ok(
                    TypePropsView { ns_prefix_for_variants: Some(prefix@), ..props },
                ),
                TypeProperty::Unrecognized(_) => Err(SchemaErrorKind::UnrecognizedProperty),
            },
        }
    }
}

/// Whether no variant has fields.
pub open spec fn all_unit(variants: Seq<VariantDecl>) -> bool {
    forall|i: int| 0 <= i < variants.len() ==> (#[trigger] variants[i]).fields is Unit
}

/// What the properties of a type say, or what is wrong with them. Only an
/// enum whose variants have no fields can be written as text, and it
/// cannot declare namespaces.
pub open spec fn type_props(properties: Seq<TypeProperty>, data: DataDecl) -> Result<
    TypePropsView,
    SchemaErrorKind,
> {
    match read_type_properties(properties, properties.len()) {
        Err(kind) => Err(kind),
        Ok(props) => if !props.should_serialize_as_text {
            Ok(props)
        } else {
            match data {
                DataDecl::Struct(_) => Err(SchemaErrorKind::TextOnStruct),
                DataDecl::Enum(variants) => if !all_unit(variants@) {
                    Err(SchemaErrorKind::TextWithNonUnitVariants)
                } else if props.default_namespace is Some || props.namespaces.len() > 0 {
                    Err(SchemaErrorKind::TextWithNamespaces)
                } else {
                    Ok(props)
                },
            }
        },
    }
}

/// Once a fault is found in the properties of a type, reading on does not
/// change it.
pub proof fn lemma_type_fault_stays(properties: Seq<TypeProperty>, m: nat, n: nat)
    requires
        m <= n <= properties.len(),
        read_type_properties(properties, m) is Err,
    ensures
        read_type_properties(properties, n) == read_type_properties(properties, m),
    decreases n - m,
{
    if m < n {
        lemma_type_fault_stays(properties, m, (n - 1) as nat);
    }
}

/// Checks that no variant has fields.
pub fn are_all_unit(variants: &Vec<VariantDecl>) -> (answer: bool)
    ensures
        answer == all_unit(variants@),
{
    let mut i: usize = 0;
    while i < variants.len()
        invariant
            i <= variants.len(),
            forall|j: int| 0 <= j < i ==> (#[trigger] variants@[j]).fields is Unit,
        decreases variants.len() - i,
    {
        match &variants[i].fields {
            FieldsDecl::Unit => {},
            _ => {
                assert(!(variants@[i as int].fields is Unit));
                return false;
            },
        }
        i += 1;
    }
    true
}

/// Reads the properties of a type in order, up to the first fault.
fn read_properties(properties: &Vec<TypeProperty>) -> (outcome: Result<TypeProps, SchemaErrorKind>)
    ensures
        match outcome {
            Ok(props) => read_type_properties(properties@, properties@.len()) == Ok::<
                TypePropsView,
                SchemaErrorKind,
            >(props@),
            Err(kind) => read_type_properties(properties@, properties@.len()) == Err::<
                TypePropsView,
                SchemaErrorKind,
            >(kind),
        },
{
    let mut props = TypeProps::default();
    let mut i: usize = 0;
    while i < properties.len()
        invariant
            i <= properties.len(),
            read_type_properties(properties@, i as nat) == Ok::<TypePropsView, SchemaErrorKind>(
                props@,
            ),
        decreases properties.len() - i,
    {
        match &properties[i] {
            TypeProperty::DefaultNamespace(uri) => {
                if props.default_namespace.is_some() {
                    proof {
                        lemma_type_fault_stays(properties@, (i + 1) as nat, properties@.len());
                    }
                    return Err(SchemaErrorKind::MultipleDefaultNamespaces);
                }
                props.default_namespace = Some(uri.clone());
            },
            TypeProperty::Namespace { prefix, uri } => {
                let ghost before = props.namespaces@;
                let decl = NamespaceDecl { prefix: prefix.clone(), uri: uri.clone() };
                props.namespaces.push(decl);
                assert(namespace_pairs(props.namespaces@) == namespace_pairs(before).push(
                    (prefix@, uri@),
                ));
            },
            TypeProperty::Text => {
                props.should_serialize_as_text = true;
            },
            TypeProperty::VariantNamespacePrefix(prefix) => {
                props.ns_prefix_for_variants = Some(prefix.clone());
            },
            TypeProperty::Unrecognized(_) => {
                proof {
                    lemma_type_fault_stays(properties@, (i + 1) as nat, properties@.len());
                }
                return Err(SchemaErrorKind::UnrecognizedProperty);
            },
        }
        i += 1;
    }
    Ok(props)
}

impl TypeProps {
    /// Reads the properties written on a type that declares `data`.
    pub fn try_from_properties(properties: &Vec<TypeProperty>, data: &DataDecl) -> (outcome:
        Result<TypeProps, SchemaErrorKind>)
        ensures
            match outcome {
                Ok(props) => type_props(properties@, *data) == Ok::<TypePropsView, SchemaErrorKind>(
                    props@,
                ),
                Err(kind) => type_props(properties@, *data) == Err::<
                    TypePropsView,
                    SchemaErrorKind,
                >(kind),
            },
    {
        let props = match read_properties(properties) {
            Ok(props) => props,
            Err(kind) => {
                return Err(kind);
            },
        };
        if !props.should_serialize_as_text {
            return Ok(props);
        }
        match data {
            DataDecl::Struct(_) => Err(SchemaErrorKind::TextOnStruct),
            DataDecl::Enum(variants) => if !are_all_unit(variants) {
                Err(SchemaErrorKind::TextWithNonUnitVariants)
            } else if props.default_namespace.is_some() || props.namespaces.len() > 0 {
                Err(SchemaErrorKind::TextWithNamespaces)
            } else {
                Ok(props)
            },
        }
    }
}

/// The shape declares the namespaces that the properties of its type name.
pub open spec fn namespaces_declared(shape: TypeShape, props: TypePropsView) -> bool {
    &&& optional_text(shape.default_namespace_uri) == props.default_namespace
    &&& namespace_pairs(shape.namespace_decls@) == props.namespaces
}

/// The shape is that of a struct with the declared fields.
pub open spec fn struct_laid_out(shape: TypeShape, fields: FieldsDecl, props: TypePropsView) -> bool {
    &&& shape.kind matches ShapeKind::Struct(descriptors)
    &&& fields_described(descriptors@, fields)
    &&& namespaces_declared(shape, props)
}

/// The descriptor lays the declared variant out: under its name, behind
/// the prefix that the type gives to all its variants, and with its
/// fields. In an enum that is written as text every variant is laid out
/// as a unit variant.
pub open spec fn variant_described(
    descriptor: VariantDescriptor,
    variant: VariantDecl,
    props: TypePropsView,
) -> bool {
    &&& descriptor.name@ == variant.name@
    &&& optional_text(descriptor.ns_prefix) == props.ns_prefix_for_variants
    &&& if props.should_serialize_as_text {
        descriptor.kind is Unit
    } else {
        match variant.fields {
            FieldsDecl::Named(_) => descriptor.kind matches VariantKind::Struct(descriptors)
                && fields_described(descriptors@, variant.fields),
            FieldsDecl::Unnamed(_) => descriptor.kind matches VariantKind::Tuple(descriptors)
                && fields_described(descriptors@, variant.fields),
            FieldsDecl::Unit => descriptor.kind is Unit,
        }
    }
}

/// The shape is that of an enum with the declared variants, in
/// declaration order.
pub open spec fn enum_laid_out(shape: TypeShape, variants: Seq<VariantDecl>, props: TypePropsView) -> bool {
    &&& shape.kind matches ShapeKind::Enum { variants: descriptors, text_mode }
    &&& text_mode == props.should_serialize_as_text
    &&& descriptors@.len() == variants.len()
    &&& forall|i: int|
        0 <= i < variants.len() ==> variant_described(#[trigger] descriptors@[i], variants[i], props)
    &&& namespaces_declared(shape, props)
}

/// The faults of the fields of the first `n` variants, in declaration
/// order.
pub open spec fn variants_faults(variants: Seq<VariantDecl>, n: nat) -> Seq<SchemaError>
    decreases n,
{
    if n == 0 || n > variants.len() {
        Seq::empty()
    } else {
        variants_faults(variants, (n - 1) as nat) + fields_faults(
            variants[n - 1].fields,
            Some((n - 1) as usize),
        )
    }
}

/// The faults of the fields of an enum. The fields of an enum that is
/// written as text are not looked at.
pub open spec fn enum_faults(variants: Seq<VariantDecl>, props: TypePropsView) -> Seq<SchemaError> {
    if props.should_serialize_as_text {
        Seq::empty()
    } else {
        variants_faults(variants, variants.len())
    }
}

/// Lays out the fields of a struct or of a variant, recording the faults
/// of each.
fn describe_fields(fields: &FieldsDecl, variant: Option<usize>, errors: &mut Vec<SchemaError>) -> (kind:
    VariantKind)
    ensures
        final(errors)@ == old(errors)@ + fields_faults(*fields, variant),
        fields_described(kind.fields(), *fields),
        match fields {
            FieldsDecl::Named(_) => kind is Struct,
            FieldsDecl::Unnamed(_) => kind is Tuple,
            FieldsDecl::Unit => kind is Unit,
        },
{
    match fields {
        FieldsDecl::Named(named) => VariantKind::Struct(describe_named(named, variant, errors)),
        FieldsDecl::Unnamed(unnamed) => VariantKind::Tuple(
            describe_unnamed(unnamed, variant, errors),
        ),
        FieldsDecl::Unit => {
            assert(errors@ + Seq::<SchemaError>::empty() == errors@);
            VariantKind::Unit
        },
    }
}

/// Lays out the shape of a struct from its declared fields and the
/// properties of its type. All the faults of the fields are reported, in
/// declaration order; there is a shape exactly when there is none.
pub fn shape_for_struct(fields: &FieldsDecl, props: TypeProps) -> (outcome: Result<
    TypeShape,
    Vec<SchemaError>,
>)
    ensures
        match outcome {
            Ok(shape) => {
                &&& fields_faults(*fields, None).len() == 0
                &&& struct_laid_out(shape, *fields, props@)
                &&& shape.well_formed()
            },
            Err(errors) => errors@.len() > 0 && errors@ == fields_faults(*fields, None),
        },
{
    // The faults are gathered so that all of them can be reported, not
    // only the first.
    let mut errors: Vec<SchemaError> = Vec::new();
    let kind = describe_fields(fields, None, &mut errors);
    assert(Seq::<SchemaError>::empty() + fields_faults(*fields, None) == fields_faults(
        *fields,
        None,
    ));
    if errors.len() > 0 {
        return Err(errors);
    }
    let descriptors = match kind {
        VariantKind::Unit => Vec::new(),
        VariantKind::Tuple(descriptors) => descriptors,
        VariantKind::Struct(descriptors) => descriptors,
    };
    proof {
        lemma_described_fields_well_formed(descriptors@, *fields);
    }
    Ok(
        TypeShape {
            kind: ShapeKind::Struct(descriptors),
            namespace_decls: props.namespaces,
            default_namespace_uri: props.default_namespace,
        },
    )
}

/// Lays out one variant of an enum that is not written as text, recording
/// the faults of its fields.
pub fn process_enum_variant(
    variant: &VariantDecl,
    position: usize,
    ns_prefix: &Option<String>,
    errors: &mut Vec<SchemaError>,
) -> (descriptor: VariantDescriptor)
    ensures
        final(errors)@ == old(errors)@ + fields_faults(variant.fields, Some(position)),
        descriptor.name@ == variant.name@,
        optional_text(descriptor.ns_prefix) == optional_text(*ns_prefix),
        fields_described(descriptor.kind.fields(), variant.fields),
        match variant.fields {
            FieldsDecl::Named(_) => descriptor.kind is Struct,
            FieldsDecl::Unnamed(_) => descriptor.kind is Tuple,
            FieldsDecl::Unit => descriptor.kind is Unit,
        },
        descriptor.well_formed(),
{
    let kind = describe_fields(&variant.fields, Some(position), errors);
    proof {
        lemma_described_fields_well_formed(kind.fields(), variant.fields);
    }
    VariantDescriptor { name: variant.name.clone(), kind, ns_prefix: clone_text(ns_prefix) }
}

/// A copy of an optional string.
fn clone_text(text: &Option<String>) -> (copy: Option<String>)
    ensures
        optional_text(copy) == optional_text(*text),
{
    match text {
        Some(t) => Some(t.clone()),
        None => None,
    }
}

/// Lays out the variants of an enum that is written as text: each under
/// its name, without fields.
fn describe_text_variants(variants: &Vec<VariantDecl>, ns_prefix: &Option<String>) -> (descriptors:
    Vec<VariantDescriptor>)
    ensures
        descriptors@.len() == variants@.len(),
        forall|i: int|
            0 <= i < variants@.len() ==> {
                &&& (#[trigger] descriptors@[i]).name@ == variants@[i].name@
                &&& optional_text(descriptors@[i].ns_prefix) == optional_text(*ns_prefix)
                &&& descriptors@[i].kind is Unit
            },
{
    let mut descriptors: Vec<VariantDescriptor> = Vec::new();
    let mut i: usize = 0;
    while i < variants.len()
        invariant
            i <= variants.len(),
            descriptors@.len() == i,
            forall|j: int|
                0 <= j < i ==> {
                    &&& (#[trigger] descriptors@[j]).name@ == variants@[j].name@
                    &&& optional_text(descriptors@[j].ns_prefix) == optional_text(*ns_prefix)
                    &&& descriptors@[j].kind is Unit
                },
        decreases variants.len() - i,
    {
        descriptors.push(
            VariantDescriptor {
                name: variants[i].name.clone(),
                kind: VariantKind::Unit,
                ns_prefix: clone_text(ns_prefix),
            },
        );
        i += 1;
    }
    descriptors
}

/// Lays out the variants of an enum that is not written as text,
/// recording the faults of the fields of each.
fn describe_variants(
    variants: &Vec<VariantDecl>,
    ns_prefix: &Option<String>,
    errors: &mut Vec<SchemaError>,
) -> (descriptors: Vec<VariantDescriptor>)
    ensures
        final(errors)@ == old(errors)@ + variants_faults(variants@, variants@.len()),
        descriptors@.len() == variants@.len(),
        forall|i: int|
            0 <= i < variants@.len() ==> {
                &&& (#[trigger] descriptors@[i]).name@ == variants@[i].name@
                &&& optional_text(descriptors@[i].ns_prefix) == optional_text(*ns_prefix)
                &&& fields_described(descriptors@[i].kind.fields(), variants@[i].fields)
                &&& match variants@[i].fields {
                    FieldsDecl::Named(_) => descriptors@[i].kind is Struct,
                    FieldsDecl::Unnamed(_) => descriptors@[i].kind is Tuple,
                    FieldsDecl::Unit => descriptors@[i].kind is Unit,
                }
                &&& descriptors@[i].well_formed()
            },
{
    let ghost before = errors@;
    let mut descriptors: Vec<VariantDescriptor> = Vec::new();
    let mut i: usize = 0;
    assert(before + variants_faults(variants@, 0) == before);
    while i < variants.len()
        invariant
            i <= variants.len(),
            descriptors@.len() == i,
            errors@ == before + variants_faults(variants@, i as nat),
            forall|j: int|
                0 <= j < i ==> {
                    &&& (#[trigger] descriptors@[j]).name@ == variants@[j].name@
                    &&& optional_text(descriptors@[j].ns_prefix) == optional_text(*ns_prefix)
                    &&& fields_described(descriptors@[j].kind.fields(), variants@[j].fields)
                    &&& match variants@[j].fields {
                        FieldsDecl::Named(_) => descriptors@[j].kind is Struct,
                        FieldsDecl::Unnamed(_) => descriptors@[j].kind is Tuple,
                        FieldsDecl::Unit => descriptors@[j].kind is Unit,
                    }
                    &&& descriptors@[j].well_formed()
                },
        decreases variants.len() - i,
    {
        let ghost found = variants_faults(variants@, i as nat);
        let descriptor = process_enum_variant(&variants[i], i, ns_prefix, errors);
        proof {
            let more = fields_faults(variants@[i as int].fields, Some(i));
            assert(before + found + more == before + (found + more));
        }
        descriptors.push(descriptor);
        i += 1;
    }
    descriptors
}

/// Lays out the shape of an enum from its declared variants and the
/// properties of its type. In an enum that is written as text only the
/// names of the variants are kept. Otherwise all the faults of the fields
/// of all the variants are reported, in declaration order; there is a
/// shape exactly when there is none.
pub fn shape_for_enum(variants: &Vec<VariantDecl>, props: TypeProps) -> (outcome: Result<
    TypeShape,
    Vec<SchemaError>,
>)
    ensures
        match outcome {
            Ok(shape) => {
                &&& enum_faults(variants@, props@).len() == 0
                &&& enum_laid_out(shape, variants@, props@)
                &&& shape.well_formed()
            },
            Err(errors) => errors@.len() > 0 && errors@ == enum_faults(variants@, props@),
        },
{
    if props.should_serialize_as_text {
        // Whoever read the properties has seen to it that the variants
        // have no fields, so their names are all that is needed.
        let descriptors = describe_text_variants(variants, &props.ns_prefix_for_variants);
        return Ok(
            TypeShape {
                kind: ShapeKind::Enum { variants: descriptors, text_mode: true },
                namespace_decls: props.namespaces,
                default_namespace_uri: props.default_namespace,
            },
        );
    }
    let mut errors: Vec<SchemaError> = Vec::new();
    let descriptors = describe_variants(variants, &props.ns_prefix_for_variants, &mut errors);
    assert(Seq::<SchemaError>::empty() + variants_faults(variants@, variants@.len())
        == variants_faults(variants@, variants@.len()));
    if errors.len() > 0 {
        return Err(errors);
    }
    Ok(
        TypeShape {
            kind: ShapeKind::Enum { variants: descriptors, text_mode: false },
            namespace_decls: props.namespaces,
            default_namespace_uri: props.default_namespace,
        },
    )
}

/// Lays out the shape of a declared type. A fault in the properties of
/// the type is reported alone; otherwise all the faults of the fields are
/// reported together.
pub fn derive_shape(decl: &TypeDecl) -> (outcome: Result<TypeShape, Vec<SchemaError>>)
    ensures
        match type_props(decl.properties@, decl.data) {
            Err(kind) => outcome matches Err(errors) && errors@ == seq![
                SchemaError { kind, place: Place::Type },
            ],
            Ok(props) => match outcome {
                Ok(shape) => shape.well_formed() && match decl.data {
                    DataDecl::Struct(fields) => fields_faults(fields, None).len() == 0
                        && struct_laid_out(shape, fields, props),
                    DataDecl::Enum(variants) => enum_faults(variants@, props).len() == 0
                        && enum_laid_out(shape, variants@, props),
                },
                Err(errors) => errors@.len() > 0 && errors@ == match decl.data {
                    DataDecl::Struct(fields) => fields_faults(fields, None),
                    DataDecl::Enum(variants) => enum_faults(variants@, props),
                },
            },
        },
{
    let props = match TypeProps::try_from_properties(&decl.properties, &decl.data) {
        Ok(props) => props,
        Err(kind) => {
            let mut errors: Vec<SchemaError> = Vec::new();
            errors.push(SchemaError { kind, place: Place::Type });
            return Err(errors);
        },
    };
    match &decl.data {
        DataDecl::Struct(fields) => shape_for_struct(fields, props),
        DataDecl::Enum(variants) => shape_for_enum(variants, props),
    }
}

/// The directory under which the declarations that exercise this module
/// are catalogued, one subdirectory for each group of cases.
pub fn test_case_base_path() -> (path: String)
    ensures
        path@ == "ui/test_cases"@,
{
    "ui/test_cases".to_owned()
}

} // verus!
