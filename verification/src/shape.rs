//! The shape of a serializable type.
//!
//! A shape says, for each field of a struct or of an enum variant, whether
//! it is emitted as an attribute or as a child, under which name, and
//! whether it is wrapped in a tag of its own. Shapes are made once for
//! each type and only read afterwards.

use crate::casing::{pascal_case, to_pascal_case};
use crate::markup::qualified_name;
use vstd::prelude::*;
use vstd::string::StringExecFns;

verus! {

/// Where a field's value goes.
#[derive(Debug, Clone, Copy)]
pub enum Placement {
    /// A key and value on the tag of the field's owner.
    Attribute,
    /// A child node inside the content of the field's owner.
    Element,
}

/// How one field of a struct or of an enum variant is emitted.
#[derive(Debug)]
pub struct FieldDescriptor {
    /// The declared name, in snake case. Positional fields have made-up names.
    pub name: String,
    pub placement: Placement,
    /// The namespace prefix of the emitted name, if it has one.
    pub ns_prefix: Option<String>,
    /// Whether the field's content is spliced into its owner's content
    /// without a tag of its own.
    pub flatten: bool,
    /// The field's position among the fields of its owner.
    pub declaration_order: usize,
}

/// What an enum variant holds.
#[derive(Debug)]
pub enum VariantKind {
    Unit,
    Tuple(Vec<FieldDescriptor>),
    Struct(Vec<FieldDescriptor>),
}

/// How one variant of an enum is emitted.
#[derive(Debug)]
pub struct VariantDescriptor {
    /// The variant's name, which is emitted as it is.
    pub name: String,
    pub kind: VariantKind,
    /// The namespace prefix of the variant's tag, if it has one.
    pub ns_prefix: Option<String>,
}

/// The declaration of a namespace prefix.
#[derive(Debug)]
pub struct NamespaceDecl {
    pub prefix: String,
    pub uri: String,
}

impl View for NamespaceDecl {
    type V = (Seq<char>, Seq<char>);

    open spec fn view(&self) -> (Seq<char>, Seq<char>) {
        (self.prefix@, self.uri@)
    }
}

/// The prefixes and addresses that a list of declarations stands for.
pub open spec fn namespace_pairs(decls: Seq<NamespaceDecl>) -> Seq<(Seq<char>, Seq<char>)> {
    Seq::new(decls.len(), |i: int| decls[i]@)
}

/// What a shape is, apart from the namespaces that its type declares.
#[derive(Debug)]
pub enum ShapeKind {
    /// A struct with the given fields, in declaration order. A unit struct
    /// has none.
    Struct(Vec<FieldDescriptor>),
    /// An enum with the given variants, in declaration order. In text mode
    /// a value is written as the bare name of its variant.
    Enum { variants: Vec<VariantDescriptor>, text_mode: bool },
}

/// The shape of a struct or enum type.
#[derive(Debug)]
pub struct TypeShape {
    pub kind: ShapeKind,
    /// Namespace prefixes declared on the tag of a value of this type, in
    /// declaration order.
    pub namespace_decls: Vec<NamespaceDecl>,
    /// The default namespace declared on the tag of a value of this type.
    pub default_namespace_uri: Option<String>,
}

/// The characters of an optional string.
pub open spec fn optional_text(text: Option<String>) -> Option<Seq<char>> {
    match text {
        Some(t) => Some(t@),
        None => None,
    }
}

/// The fields are well formed, and each stands at the position that its
/// declaration order gives.
pub open spec fn fields_well_formed(fields: Seq<FieldDescriptor>) -> bool {
    forall|i: int|
        0 <= i < fields.len() ==> (#[trigger] fields[i]).well_formed()
            && fields[i].declaration_order == i
}

impl Placement {
    pub fn is_attribute(&self) -> (answer: bool)
        ensures
            answer == (self is Attribute),
    {
        match self {
            Placement::Attribute => true,
            Placement::Element => false,
        }
    }
}

impl FieldDescriptor {
    /// Only a field that is emitted as a child can be flattened.
    pub open spec fn well_formed(&self) -> bool {
        self.flatten ==> self.placement is Element
    }

    /// The name under which the field is emitted: the declared name in
    /// Pascal case, behind the namespace prefix if there is one.
    pub open spec fn emitted_name(&self) -> Seq<char> {
        qualified_name(optional_text(self.ns_prefix), pascal_case(self.name@))
    }

    pub fn is_well_formed(&self) -> (answer: bool)
        ensures
            answer == self.well_formed(),
    {
        !self.flatten || !self.placement.is_attribute()
    }

    /// Computes the name under which the field is emitted.
    pub fn qualified_name(&self) -> (name: String)
        ensures
            name@ == self.emitted_name(),
    {
        let local = to_pascal_case(self.name.as_str());
        qualify(&self.ns_prefix, local.as_str())
    }
}

/// Puts a namespace prefix, if there is one, and a colon before a name.
pub fn qualify(prefix: &Option<String>, local: &str) -> (name: String)
    ensures
        name@ == qualified_name(optional_text(*prefix), local@),
{
    match prefix {
        Some(p) => {
            proof {
                reveal_strlit(":");
            }
            let mut name = p.clone();
            name.append(":");
            name.append(local);
            assert(":"@ == seq![':']);
            name
        },
        None => local.to_owned(),
    }
}

impl VariantKind {
    /// The fields of the variant, in declaration order.
    pub open spec fn fields(&self) -> Seq<FieldDescriptor> {
        match self {
            VariantKind::Unit => Seq::empty(),
            VariantKind::Tuple(fields) => fields@,
            VariantKind::Struct(fields) => fields@,
        }
    }
}

impl VariantDescriptor {
    pub open spec fn well_formed(&self) -> bool {
        fields_well_formed(self.kind.fields())
    }

    /// The name of the variant's tag: the variant's name as it is, behind
    /// the namespace prefix if there is one.
    pub open spec fn emitted_name(&self) -> Seq<char> {
        qualified_name(optional_text(self.ns_prefix), self.name@)
    }

    pub fn is_well_formed(&self) -> (answer: bool)
        ensures
            answer == self.well_formed(),
    {
        match &self.kind {
            VariantKind::Unit => true,
            VariantKind::Tuple(fields) => are_fields_well_formed(fields),
            VariantKind::Struct(fields) => are_fields_well_formed(fields),
        }
    }

    /// Computes the name of the variant's tag.
    pub fn qualified_name(&self) -> (name: String)
        ensures
            name@ == self.emitted_name(),
    {
        qualify(&self.ns_prefix, self.name.as_str())
    }
}

/// Checks that each field is well formed and stands at its declared
/// position.
pub fn are_fields_well_formed(fields: &Vec<FieldDescriptor>) -> (answer: bool)
    ensures
        answer == fields_well_formed(fields@),
{
    let mut i: usize = 0;
    while i < fields.len()
        invariant
            i <= fields.len(),
            forall|j: int|
                0 <= j < i ==> (#[trigger] fields@[j]).well_formed()
                    && fields@[j].declaration_order == j,
        decreases fields.len() - i,
    {
        if !fields[i].is_well_formed() || fields[i].declaration_order != i {
            return false;
        }
        i += 1;
    }
    true
}

/// The variants are well formed, and in text mode each is a unit variant.
pub open spec fn variants_well_formed(variants: Seq<VariantDescriptor>, text_mode: bool) -> bool {
    forall|i: int|
        0 <= i < variants.len() ==> (#[trigger] variants[i]).well_formed() && (text_mode
            ==> variants[i].kind is Unit)
}

/// Checks that each variant is well formed and that, in text mode, each is
/// a unit variant.
pub fn are_variants_well_formed(variants: &Vec<VariantDescriptor>, text_mode: bool) -> (answer:
    bool)
    ensures
        answer == variants_well_formed(variants@, text_mode),
{
    let mut i: usize = 0;
    while i < variants.len()
        invariant
            i <= variants.len(),
            forall|j: int|
                0 <= j < i ==> (#[trigger] variants@[j]).well_formed() && (text_mode
                    ==> variants@[j].kind is Unit),
        decreases variants.len() - i,
    {
        let unit = match &variants[i].kind {
            VariantKind::Unit => true,
            _ => false,
        };
        if !variants[i].is_well_formed() || (text_mode && !unit) {
            assert(!(variants@[i as int].well_formed() && (text_mode
                ==> variants@[i as int].kind is Unit)));
            return false;
        }
        i += 1;
    }
    true
}

impl TypeShape {
    /// The rules that every shape keeps: its fields are well formed, and an
    /// enum in text mode has unit variants only.
    pub open spec fn well_formed(&self) -> bool {
        match self.kind {
            ShapeKind::Struct(fields) => fields_well_formed(fields@),
            ShapeKind::Enum { variants, text_mode } => variants_well_formed(variants@, text_mode),
        }
    }

    /// Whether values of this type are written as the bare name of their
    /// variant.
    pub open spec fn is_text_enum(&self) -> bool {
        self.kind matches ShapeKind::Enum { text_mode, .. } && text_mode
    }

    pub fn is_well_formed(&self) -> (answer: bool)
        ensures
            answer == self.well_formed(),
    {
        match &self.kind {
            ShapeKind::Struct(fields) => are_fields_well_formed(fields),
            ShapeKind::Enum { variants, text_mode } => are_variants_well_formed(
                variants,
                *text_mode,
            ),
        }
    }
}

} // verus!
