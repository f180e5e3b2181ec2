//! Serialization of structured values as XML text, driven by the shape of
//! each value's type: which fields become attributes, which become wrapped
//! child elements, which are spliced into their parent, and which are bare
//! text.

pub mod casing;
pub mod document;
pub mod emit;
pub mod encode;
pub mod error;
pub mod impls;
pub mod integers;
pub mod laws;
pub mod markup;
pub mod plan;
pub mod render;
pub mod schema;
pub mod shape;
pub mod sink;
pub mod traits;
pub mod value;

pub use encode::Primitive;
pub use error::{Error, TestError};
pub use plan::{Attribute, ChildOp, EmissionPlan};
pub use render::{
    buffer_writer, into_string, serialize_value_as_element, serialize_value_children,
};
pub use schema::{
    derive_shape, test_case_base_path, DataDecl, FieldProperty, FieldProps, FieldsDecl, NamedField,
    Place, SchemaError, SchemaErrorKind, TypeDecl, TypeProperty, TypeProps, VariantDecl,
};
pub use shape::{
    FieldDescriptor, NamespaceDecl, Placement, ShapeKind, TypeShape, VariantDescriptor,
    VariantKind,
};
pub use traits::{XmlSerialize, XmlSerializeAttr};
pub use value::Value;
