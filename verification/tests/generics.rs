use erroneous::chain::{CauseLink, ErrValue, Error};
use erroneous::schema::{
    Annotation, CauseSelection, FieldDecl, Generics, TypeSchema, TypeShape, VariantKind,
    VariantShape,
};
use erroneous::synth::{synthesize, Bindings, CauseExpr, DispatchBody};
use erroneous::CauseTag;

fn ann(tag: &str, words: &[&str]) -> Annotation {
    Annotation {
        tag: String::from(tag),
        words: words.iter().map(|w| String::from(*w)).collect(),
    }
}

#[test]
fn main() {
    // A generic wrapper with a unit variant and a positional variant whose
    // single field is tagged as the direct cause.
    let schema = TypeSchema {
        name: String::from("E"),
        generics: Generics {
            params: vec![String::from("Custom: Error")],
            predicates: vec![],
        },
        shape: TypeShape::Variants(vec![
            VariantShape { name: String::from("A"), kind: VariantKind::Unit, fields: vec![] },
            VariantShape {
                name: String::from("Custom"),
                kind: VariantKind::Positional,
                fields: vec![FieldDecl { name: None, annotations: vec![ann("error", &["source"])] }],
            },
        ]),
    };
    let generated = synthesize(&schema).unwrap();
    assert!(generated.target.as_str() == "E");
    assert!(generated.params.len() == 1);
    assert!(generated.params[0].as_str() == "Custom: Error");
    assert!(generated.assertion.name.as_str() == "_ErrorDeriveAssertBoundsForE");
    match &generated.body {
        DispatchBody::Arms(arms) => {
            assert!(arms.len() == 2);
            assert!(arms[0].variant.as_ref().unwrap().as_str() == "A");
            assert!(matches!(arms[0].bindings, Bindings::Unit));
            assert!(matches!(arms[0].expr, CauseExpr::NoCause));
            assert!(arms[1].variant.as_ref().unwrap().as_str() == "Custom");
            match &arms[1].bindings {
                Bindings::Positional(ids) => {
                    assert!(ids.len() == 1);
                    assert!(ids[0].as_str() == "_0");
                },
                _ => panic!("expected positional bindings"),
            }
            match &arms[1].expr {
                CauseExpr::Direct(id) => assert!(id.as_str() == "_0"),
                _ => panic!("expected a direct cause expression"),
            }
        },
        _ => panic!("expected a dispatch over the variants"),
    }
    // The resolved selection for the tagged variant points at its only field.
    let sels = erroneous::resolve::resolve(&schema).unwrap();
    assert!(sels.len() == 2);
    assert!(sels[0] == CauseSelection::NoCause);
    assert!(sels[1] == CauseSelection::CauseAt { field: 0, tag: CauseTag::Direct });

    // A value inhabiting the tagged variant reports the wrapped value.
    let some_error = ErrValue { label: 7, cause: CauseLink::NoCause };
    let b = ErrValue { label: 8, cause: CauseLink::Direct(Box::new(some_error)) };
    b.source().unwrap();
}
