use erroneous::resolve::resolve;
use erroneous::schema::{
    Annotation, CauseSelection, FieldDecl, Generics, SynthesisError, TypeSchema, TypeShape,
    VariantKind, VariantShape,
};
use erroneous::synth::{synthesize, Bindings, CauseExpr, Constraint, DispatchBody};
use erroneous::CauseTag;

fn ann(tag: &str, words: &[&str]) -> Annotation {
    Annotation {
        tag: String::from(tag),
        words: words.iter().map(|w| String::from(*w)).collect(),
    }
}

fn plain_generics() -> Generics {
    Generics { params: vec![], predicates: vec![] }
}

fn schema_of(name: &str, shape: TypeShape) -> TypeSchema {
    TypeSchema { name: String::from(name), generics: plain_generics(), shape }
}

fn positional(name: &str, fields: Vec<FieldDecl>) -> VariantShape {
    VariantShape { name: String::from(name), kind: VariantKind::Positional, fields }
}

fn named_field(name: &str, annotations: Vec<Annotation>) -> FieldDecl {
    FieldDecl { name: Some(String::from(name)), annotations }
}

#[test]
fn uninhabited_schema_has_no_arms() {
    let schema = schema_of("EmptyError", TypeShape::Variants(vec![]));
    let sels = resolve(&schema).unwrap();
    assert!(sels.is_empty());
    let generated = synthesize(&schema).unwrap();
    match &generated.body {
        DispatchBody::Arms(arms) => assert!(arms.is_empty()),
        _ => panic!("expected a dispatch over the variants"),
    }
}

#[test]
fn union_shape_is_rejected() {
    let schema = schema_of("Storage", TypeShape::Union);
    assert_eq!(synthesize(&schema).unwrap_err(), SynthesisError::UnsupportedShape);
    assert_eq!(resolve(&schema).unwrap_err(), SynthesisError::UnsupportedShape);
}

#[test]
fn two_word_payload_is_malformed() {
    let variant = positional(
        "Wrap",
        vec![FieldDecl { name: None, annotations: vec![ann("error", &["source", "extra"])] }],
    );
    let schema = schema_of("E", TypeShape::Variants(vec![variant]));
    assert_eq!(
        resolve(&schema).unwrap_err(),
        SynthesisError::MalformedAnnotation { variant: 0, field: 0 },
    );
}

#[test]
fn empty_payload_is_malformed() {
    let variant = positional(
        "Wrap",
        vec![FieldDecl { name: None, annotations: vec![ann("error", &[])] }],
    );
    let schema = schema_of("E", TypeShape::Variants(vec![variant]));
    assert_eq!(
        resolve(&schema).unwrap_err(),
        SynthesisError::MalformedAnnotation { variant: 0, field: 0 },
    );
}

#[test]
fn unrecognized_word_is_malformed() {
    let variant = positional(
        "Wrap",
        vec![FieldDecl { name: None, annotations: vec![ann("error", &["cause"])] }],
    );
    let schema = schema_of("E", TypeShape::Variants(vec![variant]));
    assert_eq!(
        resolve(&schema).unwrap_err(),
        SynthesisError::MalformedAnnotation { variant: 0, field: 0 },
    );
}

#[test]
fn doubled_tag_on_one_field_is_malformed() {
    let variant = positional(
        "Wrap",
        vec![FieldDecl {
            name: None,
            annotations: vec![ann("error", &["source"]), ann("error", &["source"])],
        }],
    );
    let schema = schema_of("E", TypeShape::Variants(vec![variant]));
    assert_eq!(
        resolve(&schema).unwrap_err(),
        SynthesisError::MalformedAnnotation { variant: 0, field: 0 },
    );
}

#[test]
fn two_tagged_fields_are_a_duplicate_cause() {
    let variant = positional(
        "Wrap",
        vec![
            FieldDecl { name: None, annotations: vec![ann("error", &["source"])] },
            FieldDecl { name: None, annotations: vec![] },
            FieldDecl { name: None, annotations: vec![ann("error", &["defer"])] },
        ],
    );
    let schema = schema_of("E", TypeShape::Variants(vec![VariantShape {
        name: String::from("Fine"),
        kind: VariantKind::Unit,
        fields: vec![],
    }, variant]));
    assert_eq!(
        resolve(&schema).unwrap_err(),
        SynthesisError::DuplicateCauseField { variant: 1, field: 2 },
    );
    assert_eq!(
        synthesize(&schema).unwrap_err(),
        SynthesisError::DuplicateCauseField { variant: 1, field: 2 },
    );
}

#[test]
fn foreign_tags_are_ignored() {
    let variant = positional(
        "Wrap",
        vec![FieldDecl { name: None, annotations: vec![ann("serde", &["skip"])] }],
    );
    let schema = schema_of("E", TypeShape::Variants(vec![variant]));
    let sels = resolve(&schema).unwrap();
    assert_eq!(sels, vec![CauseSelection::NoCause]);
}

#[test]
fn defer_resolves_to_a_deferred_selection() {
    let variant = positional(
        "Wrap",
        vec![FieldDecl { name: None, annotations: vec![ann("error", &["defer"])] }],
    );
    let schema = schema_of("E", TypeShape::Variants(vec![variant]));
    let sels = resolve(&schema).unwrap();
    assert_eq!(sels, vec![CauseSelection::CauseAt { field: 0, tag: CauseTag::Deferred }]);
    let generated = synthesize(&schema).unwrap();
    match &generated.body {
        DispatchBody::Arms(arms) => match &arms[0].expr {
            CauseExpr::Deferred(id) => assert_eq!(id.as_str(), "_0"),
            _ => panic!("expected a deferred cause expression"),
        },
        _ => panic!("expected a dispatch over the variants"),
    }
}

#[test]
fn named_variant_binds_declared_names() {
    let variant = VariantShape {
        name: String::from("Io"),
        kind: VariantKind::Named,
        fields: vec![
            named_field("context", vec![]),
            named_field("inner", vec![ann("error", &["source"])]),
        ],
    };
    let schema = schema_of("E", TypeShape::Variants(vec![variant]));
    let generated = synthesize(&schema).unwrap();
    match &generated.body {
        DispatchBody::Arms(arms) => {
            match &arms[0].bindings {
                Bindings::Named(ids) => {
                    assert_eq!(ids.len(), 2);
                    assert_eq!(ids[0].as_str(), "context");
                    assert_eq!(ids[1].as_str(), "inner");
                },
                _ => panic!("expected named bindings"),
            }
            match &arms[0].expr {
                CauseExpr::Direct(id) => assert_eq!(id.as_str(), "inner"),
                _ => panic!("expected a direct cause expression"),
            }
        },
        _ => panic!("expected a dispatch over the variants"),
    }
}

#[test]
fn product_shape_synthesizes_one_arm() {
    let product = VariantShape {
        name: String::from("Wrapper"),
        kind: VariantKind::Positional,
        fields: vec![FieldDecl { name: None, annotations: vec![ann("error", &["source"])] }],
    };
    let schema = schema_of("Wrapper", TypeShape::Product(product));
    let generated = synthesize(&schema).unwrap();
    match &generated.body {
        DispatchBody::Single(arm) => {
            assert!(arm.variant.is_none());
            match &arm.expr {
                CauseExpr::Direct(id) => assert_eq!(id.as_str(), "_0"),
                _ => panic!("expected a direct cause expression"),
            }
        },
        _ => panic!("expected a single always-taken arm"),
    }
}

#[test]
fn placeholder_identifiers_are_decimal() {
    let fields: Vec<FieldDecl> = (0..12).map(|_| FieldDecl { name: None, annotations: vec![] })
        .collect();
    let variant = positional("Wide", fields);
    let schema = schema_of("E", TypeShape::Variants(vec![variant]));
    let generated = synthesize(&schema).unwrap();
    match &generated.body {
        DispatchBody::Arms(arms) => match &arms[0].bindings {
            Bindings::Positional(ids) => {
                assert_eq!(ids.len(), 12);
                assert_eq!(ids[0].as_str(), "_0");
                assert_eq!(ids[9].as_str(), "_9");
                assert_eq!(ids[10].as_str(), "_10");
                assert_eq!(ids[11].as_str(), "_11");
            },
            _ => panic!("expected positional bindings"),
        },
        _ => panic!("expected a dispatch over the variants"),
    }
}

#[test]
fn assertion_threads_declared_predicates() {
    let schema = TypeSchema {
        name: String::from("Wrapped"),
        generics: Generics {
            params: vec![String::from("T")],
            predicates: vec![String::from("T: Clone")],
        },
        shape: TypeShape::Variants(vec![]),
    };
    let generated = synthesize(&schema).unwrap();
    assert_eq!(generated.assertion.name.as_str(), "_ErrorDeriveAssertBoundsForWrapped");
    assert_eq!(generated.assertion.constraints.len(), 2);
    match &generated.assertion.constraints[0] {
        Constraint::Declared(p) => assert_eq!(p.as_str(), "T: Clone"),
        _ => panic!("expected the declared predicate first"),
    }
    assert!(matches!(generated.assertion.constraints[1], Constraint::Markers));
}
