use xml_struct::{
    derive_shape, serialize_value_as_element, test_case_base_path, DataDecl, FieldsDecl,
    NamedField, Place, SchemaError, SchemaErrorKind, TypeDecl, TypeProperty, Value, VariantDecl,
};

fn unit_struct(properties: Vec<TypeProperty>) -> TypeDecl {
    TypeDecl {
        properties,
        data: DataDecl::Struct(FieldsDecl::Unit),
    }
}

fn unit_variants(properties: Vec<TypeProperty>) -> TypeDecl {
    let variant = |name: &str| VariantDecl {
        name: String::from(name),
        fields: FieldsDecl::Unit,
    };
    TypeDecl {
        properties,
        data: DataDecl::Enum(vec![
            variant("Foo"),
            variant("Bar"),
            variant("Baz"),
            variant("FooBar"),
        ]),
    }
}

fn default_ns(uri: &str) -> TypeProperty {
    TypeProperty::DefaultNamespace(String::from(uri))
}

fn ns(prefix: &str, uri: &str) -> TypeProperty {
    TypeProperty::Namespace {
        prefix: String::from(prefix),
        uri: String::from(uri),
    }
}

// Each declaration of the case is accepted, and a value of it can be
// written as an element.
fn pass(case: String, declarations: Vec<(TypeDecl, usize)>) {
    for (index, (declaration, variant)) in declarations.iter().enumerate() {
        let shape = match derive_shape(declaration) {
            Ok(shape) => shape,
            Err(errors) => panic!("{case}: declaration {index} was refused: {errors:?}"),
        };
        let content = match declaration.data {
            DataDecl::Struct(_) => Value::Struct {
                shape: &shape,
                fields: vec![],
            },
            DataDecl::Enum(_) => Value::Enum {
                shape: &shape,
                variant: *variant,
                fields: vec![],
            },
        };
        assert!(content.conforms(), "{case}: declaration {index}");
        assert!(
            serialize_value_as_element(content, "foo").is_ok(),
            "{case}: declaration {index}"
        );
    }
}

// Each declaration of the case is refused, for the reason given.
fn compile_fail(case: String, declarations: Vec<(TypeDecl, SchemaErrorKind)>) {
    for (index, (declaration, kind)) in declarations.iter().enumerate() {
        let errors = match derive_shape(declaration) {
            Ok(_) => panic!("{case}: declaration {index} was accepted"),
            Err(errors) => errors,
        };
        assert_eq!(
            errors,
            vec![SchemaError {
                kind: *kind,
                place: Place::Type
            }],
            "{case}: declaration {index}"
        );
    }
}

#[test]
fn type_properties() {
    let base_path = format!("{}/type_properties", test_case_base_path());
    assert_eq!(base_path, "ui/test_cases/type_properties");

    const BAR_NAME: &str = "http://bar.example/";
    const FOO_PREFIX: &str = "foo";

    pass(
        format!("{base_path}/no_properties.rs"),
        vec![(unit_struct(vec![]), 0), (unit_struct(vec![]), 0)],
    );
    pass(
        format!("{base_path}/valid_namespaces.rs"),
        vec![
            (unit_struct(vec![ns("foo", "http://foo.example/")]), 0),
            (
                unit_struct(vec![
                    ns("foo", "http://foo.example/"),
                    ns("bar", "http://bar.example/"),
                ]),
                0,
            ),
            (
                unit_struct(vec![
                    ns(FOO_PREFIX, "http://foo.example/"),
                    ns("bar", BAR_NAME),
                ]),
                0,
            ),
            (unit_struct(vec![default_ns("http://default.example/")]), 0),
            (
                unit_struct(vec![
                    default_ns("http://default.example/"),
                    ns("foo", "http://foo.example/"),
                    ns("bar", BAR_NAME),
                ]),
                0,
            ),
        ],
    );
    compile_fail(
        format!("{base_path}/multiple_defaults.rs"),
        vec![(
            unit_struct(vec![
                default_ns("http://foo.example/"),
                default_ns("http://bar.example/"),
            ]),
            SchemaErrorKind::MultipleDefaultNamespaces,
        )],
    );
    pass(
        format!("{base_path}/text_enum.rs"),
        vec![(unit_variants(vec![TypeProperty::Text]), 1)],
    );
    compile_fail(
        format!("{base_path}/text_struct.rs"),
        vec![
            (
                unit_struct(vec![TypeProperty::Text]),
                SchemaErrorKind::TextOnStruct,
            ),
            (
                TypeDecl {
                    properties: vec![TypeProperty::Text],
                    data: DataDecl::Struct(FieldsDecl::Unnamed(vec![vec![]])),
                },
                SchemaErrorKind::TextOnStruct,
            ),
            (
                TypeDecl {
                    properties: vec![TypeProperty::Text],
                    data: DataDecl::Struct(FieldsDecl::Named(vec![NamedField {
                        name: String::from("value"),
                        properties: vec![],
                    }])),
                },
                SchemaErrorKind::TextOnStruct,
            ),
        ],
    );
    compile_fail(
        format!("{base_path}/text_enum_with_non_unit_variants.rs"),
        vec![(
            TypeDecl {
                properties: vec![TypeProperty::Text],
                data: DataDecl::Enum(vec![
                    VariantDecl {
                        name: String::from("Foo"),
                        fields: FieldsDecl::Unit,
                    },
                    VariantDecl {
                        name: String::from("Bar"),
                        fields: FieldsDecl::Unnamed(vec![vec![]]),
                    },
                ]),
            },
            SchemaErrorKind::TextWithNonUnitVariants,
        )],
    );
    compile_fail(
        format!("{base_path}/text_enum_with_namespaces.rs"),
        vec![
            (
                unit_variants(vec![TypeProperty::Text, default_ns("http://foo.example/")]),
                SchemaErrorKind::TextWithNamespaces,
            ),
            (
                unit_variants(vec![default_ns("http://foo.example/"), TypeProperty::Text]),
                SchemaErrorKind::TextWithNamespaces,
            ),
            (
                unit_variants(vec![TypeProperty::Text, ns("foo", "http://foo.example/")]),
                SchemaErrorKind::TextWithNamespaces,
            ),
            (
                unit_variants(vec![ns("foo", "http://foo.example/"), TypeProperty::Text]),
                SchemaErrorKind::TextWithNamespaces,
            ),
        ],
    );
    compile_fail(
        format!("{base_path}/invalid_attributes.rs"),
        vec![
            (
                unit_struct(vec![
                    TypeProperty::Unrecognized(String::from("defaut_ns")),
                    ns("bar", "http://bar.example/"),
                ]),
                SchemaErrorKind::UnrecognizedProperty,
            ),
            (
                unit_struct(vec![TypeProperty::Unrecognized(String::from(
                    "everybody_loves_xml",
                ))]),
                SchemaErrorKind::UnrecognizedProperty,
            ),
        ],
    );
}
