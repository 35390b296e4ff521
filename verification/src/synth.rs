//! The synthesis engine: turns a resolved schema into a structural
//! representation of the implementation body — one destructuring pattern and
//! one cause expression per variant, in declaration order — together with a
//! bounds assertion pinning the target type to the marker constraints the
//! chain runtime relies on.

use vstd::prelude::*;
use vstd::string::*;
use crate::CauseTag;
use crate::resolve::{resolve, resolve_spec, scan_fields, scan_variants, variant_outcome};
use crate::schema::{
    CauseSelection, FieldDeclView, SynthesisError, TypeSchema, TypeSchemaView, TypeShape,
    TypeShapeView, VariantShape, VariantShapeView,
};

verus! {

/// The bindings of one destructuring pattern: none for a unit variant,
/// placeholder identifiers in field order for a positional variant, the
/// declared names for a named variant.
#[derive(Debug)]
pub enum Bindings {
    Unit,
    Positional(Vec<String>),
    Named(Vec<String>),
}

/// The mathematical value of a [`Bindings`].
pub enum BindingsView {
    Unit,
    Positional(Seq<Seq<char>>),
    Named(Seq<Seq<char>>),
}

impl View for Bindings {
    type V = BindingsView;

    open spec fn view(&self) -> BindingsView {
        match self {
            Bindings::Unit => BindingsView::Unit,
            Bindings::Positional(ids) => BindingsView::Positional(ids.deep_view()),
            Bindings::Named(ids) => BindingsView::Named(ids.deep_view()),
        }
    }
}

/// The body of one arm: the no-cause sentinel, a direct reference to the
/// bound field, or the result of the bound field's own cause lookup.
#[derive(Debug)]
pub enum CauseExpr {
    NoCause,
    Direct(String),
    Deferred(String),
}

/// The mathematical value of a [`CauseExpr`].
pub enum CauseExprView {
    NoCause,
    Direct(Seq<char>),
    Deferred(Seq<char>),
}

impl View for CauseExpr {
    type V = CauseExprView;

    open spec fn view(&self) -> CauseExprView {
        match self {
            CauseExpr::NoCause => CauseExprView::NoCause,
            CauseExpr::Direct(id) => CauseExprView::Direct(id@),
            CauseExpr::Deferred(id) => CauseExprView::Deferred(id@),
        }
    }
}

/// One arm of the dispatch: the variant matched (none for a product shape,
/// whose pattern is the type name itself), its pattern bindings, and the
/// cause expression.
#[derive(Debug)]
pub struct MatchArm {
    pub variant: Option<String>,
    pub bindings: Bindings,
    pub expr: CauseExpr,
}

/// The mathematical value of a [`MatchArm`].
pub struct MatchArmView {
    pub variant: Option<Seq<char>>,
    pub bindings: BindingsView,
    pub expr: CauseExprView,
}

impl View for MatchArm {
    type V = MatchArmView;

    open spec fn view(&self) -> MatchArmView {
        MatchArmView { variant: self.variant.deep_view(), bindings: self.bindings@, expr: self.expr@ }
    }
}

impl DeepView for MatchArm {
    type V = MatchArmView;

    open spec fn deep_view(&self) -> MatchArmView {
        self.view()
    }
}

/// One entry of the bounds assertion: a constraint already declared on the
/// schema's generics, threaded through unchanged, or the marker entry that
/// requires the target type to be safely shareable across concurrent
/// readers, safely transferable across execution contexts, and free of
/// non-static borrowed data.
#[derive(Debug)]
pub enum Constraint {
    Declared(String),
    Markers,
}

/// The mathematical value of a [`Constraint`].
pub enum ConstraintView {
    Declared(Seq<char>),
    Markers,
}

impl View for Constraint {
    type V = ConstraintView;

    open spec fn view(&self) -> ConstraintView {
        match self {
            Constraint::Declared(p) => ConstraintView::Declared(p@),
            Constraint::Markers => ConstraintView::Markers,
        }
    }
}

impl DeepView for Constraint {
    type V = ConstraintView;

    open spec fn deep_view(&self) -> ConstraintView {
        self.view()
    }
}

/// The compile-time assertion construct: a helper type under a deterministic
/// name whose constraint list is the schema's own predicates plus the marker
/// entry; the build fails exactly when the target type violates one of them.
#[derive(Debug)]
pub struct BoundsAssertion {
    pub name: String,
    pub constraints: Vec<Constraint>,
}

/// The mathematical value of a [`BoundsAssertion`].
pub struct BoundsAssertionView {
    pub name: Seq<char>,
    pub constraints: Seq<ConstraintView>,
}

impl View for BoundsAssertion {
    type V = BoundsAssertionView;

    open spec fn view(&self) -> BoundsAssertionView {
        BoundsAssertionView { name: self.name@, constraints: self.constraints.deep_view() }
    }
}

/// The dispatch over the variants: a single always-taken arm for a product
/// shape, else one arm per variant in declaration order (none at all for an
/// uninhabited type).
#[derive(Debug)]
pub enum DispatchBody {
    Single(MatchArm),
    Arms(Vec<MatchArm>),
}

/// The mathematical value of a [`DispatchBody`].
pub enum DispatchBodyView {
    Single(MatchArmView),
    Arms(Seq<MatchArmView>),
}

impl View for DispatchBody {
    type V = DispatchBodyView;

    open spec fn view(&self) -> DispatchBodyView {
        match self {
            DispatchBody::Single(arm) => DispatchBodyView::Single(arm@),
            DispatchBody::Arms(arms) => DispatchBodyView::Arms(arms.deep_view()),
        }
    }
}

/// The complete generated implementation: the target type's name and generic
/// parameters, the bounds assertion, and the dispatch body, ready for an
/// external renderer to splice into program text.
#[derive(Debug)]
pub struct GeneratedImpl {
    pub target: String,
    pub params: Vec<String>,
    pub assertion: BoundsAssertion,
    pub body: DispatchBody,
}

/// The mathematical value of a [`GeneratedImpl`].
pub struct GeneratedImplView {
    pub target: Seq<char>,
    pub params: Seq<Seq<char>>,
    pub assertion: BoundsAssertionView,
    pub body: DispatchBodyView,
}

impl View for GeneratedImpl {
    type V = GeneratedImplView;

    open spec fn view(&self) -> GeneratedImplView {
        GeneratedImplView {
            target: self.target@,
            params: self.params.deep_view(),
            assertion: self.assertion@,
            body: self.body@,
        }
    }
}

/// The character of one decimal digit.
pub open spec fn digit_char(d: int) -> char {
    if d == 0 {
        '0'
    } else if d == 1 {
        '1'
    } else if d == 2 {
        '2'
    } else if d == 3 {
        '3'
    } else if d == 4 {
        '4'
    } else if d == 5 {
        '5'
    } else if d == 6 {
        '6'
    } else if d == 7 {
        '7'
    } else if d == 8 {
        '8'
    } else {
        '9'
    }
}

/// The decimal rendering of a nonnegative number, most significant digit
/// first.
pub open spec fn decimal(n: int) -> Seq<char>
    decreases n,
{
    if n < 10 {
        seq![digit_char(n)]
    } else {
        decimal(n / 10).push(digit_char(n % 10))
    }
}

/// The deterministic placeholder identifier for the field at position `i`:
/// an underscore followed by the decimal index, stable across runs.
pub open spec fn placeholder(i: int) -> Seq<char> {
    seq!['_'] + decimal(i)
}

/// The identifier a field is bound under: its declared name when it has one,
/// else the placeholder for its position.
pub open spec fn binding_name(f: FieldDeclView, i: int) -> Seq<char> {
    match f.name {
        Some(n) => n,
        None => placeholder(i),
    }
}

/// The pattern bindings of one variant, by its kind.
pub open spec fn bindings_spec(v: VariantShapeView) -> BindingsView {
    match v.kind {
        crate::schema::VariantKind::Unit => BindingsView::Unit,
        crate::schema::VariantKind::Positional => BindingsView::Positional(
            Seq::new(v.fields.len(), |i: int| placeholder(i)),
        ),
        crate::schema::VariantKind::Named => BindingsView::Named(
            Seq::new(v.fields.len(), |i: int| binding_name(v.fields[i], i)),
        ),
    }
}

/// The arm body for one resolved selection: the no-cause sentinel, a direct
/// reference to the selected field's binding, or that binding's own cause
/// lookup.
pub open spec fn expr_spec(v: VariantShapeView, sel: CauseSelection) -> CauseExprView {
    match sel {
        CauseSelection::NoCause => CauseExprView::NoCause,
        CauseSelection::CauseAt { field, tag } => {
            let b = binding_name(v.fields[field as int], field as int);
            match tag {
                CauseTag::Direct => CauseExprView::Direct(b),
                CauseTag::Deferred => CauseExprView::Deferred(b),
            }
        },
    }
}

/// The arm generated for one enum variant.
pub open spec fn arm_spec(v: VariantShapeView, sel: CauseSelection) -> MatchArmView {
    MatchArmView { variant: Some(v.name), bindings: bindings_spec(v), expr: expr_spec(v, sel) }
}

/// The deterministic name of the assertion construct for a target type.
pub open spec fn assertion_name(target: Seq<char>) -> Seq<char> {
    "_ErrorDeriveAssertBoundsFor"@ + target
}

/// The constraint list of the assertion: the declared predicates, in order,
/// then the marker entry.
pub open spec fn constraints_spec(predicates: Seq<Seq<char>>) -> Seq<ConstraintView> {
    Seq::new(predicates.len(), |i: int| ConstraintView::Declared(predicates[i])).push(
        ConstraintView::Markers,
    )
}

/// The dispatch body for a schema whose variants resolved to `sels`.
pub open spec fn body_spec(s: TypeSchemaView, sels: Seq<CauseSelection>) -> DispatchBodyView {
    match s.shape {
        TypeShapeView::Product(v) => DispatchBodyView::Single(
            MatchArmView { variant: None, bindings: bindings_spec(v), expr: expr_spec(v, sels[0]) },
        ),
        TypeShapeView::Variants(vs) => DispatchBodyView::Arms(
            Seq::new(vs.len(), |i: int| arm_spec(vs[i], sels[i])),
        ),
        TypeShapeView::Union => DispatchBodyView::Arms(Seq::empty()),
    }
}

/// What [`synthesize`] returns: the walker's failure unchanged, or the
/// complete generated implementation for the schema.
pub open spec fn synthesize_spec(s: TypeSchemaView) -> Result<GeneratedImplView, SynthesisError> {
    match resolve_spec(s) {
        Err(e) => Err(e),
        Ok(sels) => Ok(
            GeneratedImplView {
                target: s.name,
                params: s.generics.params,
                assertion: BoundsAssertionView {
                    name: assertion_name(s.name),
                    constraints: constraints_spec(s.generics.predicates),
                },
                body: body_spec(s, sels),
            },
        ),
    }
}

/// The mathematical value of a synthesis result.
pub open spec fn generated_view(
    r: Result<GeneratedImpl, SynthesisError>,
) -> Result<GeneratedImplView, SynthesisError> {
    match r {
        Ok(g) => Ok(g@),
        Err(e) => Err(e),
    }
}

/// One decimal digit as text.
fn digit_str(d: usize) -> (r: &'static str)
    requires
        d < 10,
    ensures
        r@ == seq![digit_char(d as int)],
{
    let r: &'static str = if d == 0 {
        "0"
    } else if d == 1 {
        "1"
    } else if d == 2 {
        "2"
    } else if d == 3 {
        "3"
    } else if d == 4 {
        "4"
    } else if d == 5 {
        "5"
    } else if d == 6 {
        "6"
    } else if d == 7 {
        "7"
    } else if d == 8 {
        "8"
    } else {
        "9"
    };
    proof {
        reveal_strlit("0");
        reveal_strlit("1");
        reveal_strlit("2");
        reveal_strlit("3");
        reveal_strlit("4");
        reveal_strlit("5");
        reveal_strlit("6");
        reveal_strlit("7");
        reveal_strlit("8");
        reveal_strlit("9");
        assert(r@ =~= seq![digit_char(d as int)]);
    }
    r
}

/// The decimal rendering of `n`.
fn decimal_string(n: usize) -> (r: String)
    ensures
        r@ == decimal(n as int),
    decreases n,
{
    if n < 10 {
        String::from_str(digit_str(n))
    } else {
        let mut s = decimal_string(n / 10);
        s.append(digit_str(n % 10));
        proof {
            assert(s@ =~= decimal(n as int / 10).push(digit_char(n as int % 10)));
        }
        s
    }
}

/// The placeholder identifier for the field at position `i`.
pub fn placeholder_ident(i: usize) -> (r: String)
    ensures
        r@ == placeholder(i as int),
{
    let mut s = String::from_str("_");
    s.append(decimal_string(i).as_str());
    proof {
        reveal_strlit("_");
        assert(s@ =~= placeholder(i as int));
    }
    s
}

/// Builds the destructuring bindings of one variant, consistent with its
/// kind.
pub fn build_bindings(v: &VariantShape) -> (r: Bindings)
    ensures
        r@ == bindings_spec(v@),
{
    match v.kind {
        crate::schema::VariantKind::Unit => Bindings::Unit,
        crate::schema::VariantKind::Positional => {
            let mut ids: Vec<String> = Vec::new();
            let mut i: usize = 0;
            while i < v.fields.len()
                invariant
                    i <= v.fields.len(),
                    ids@.len() == i,
                    forall|k: int| 0 <= k < i ==> (#[trigger] ids@[k])@ == placeholder(k),
                decreases v.fields.len() - i,
            {
                ids.push(placeholder_ident(i));
                i = i + 1;
            }
            proof {
                assert(ids.deep_view() =~= Seq::new(v@.fields.len(), |k: int| placeholder(k)));
            }
            Bindings::Positional(ids)
        },
        crate::schema::VariantKind::Named => {
            let mut ids: Vec<String> = Vec::new();
            let mut i: usize = 0;
            while i < v.fields.len()
                invariant
                    i <= v.fields.len(),
                    ids@.len() == i,
                    forall|k: int|
                        0 <= k < i ==> (#[trigger] ids@[k])@ == binding_name(v@.fields[k], k),
                decreases v.fields.len() - i,
            {
                let id = match &v.fields[i].name {
                    Some(n) => n.clone(),
                    None => placeholder_ident(i),
                };
                ids.push(id);
                i = i + 1;
            }
            proof {
                assert(ids.deep_view() =~= Seq::new(
                    v@.fields.len(),
                    |k: int| binding_name(v@.fields[k], k),
                ));
            }
            Bindings::Named(ids)
        },
    }
}

/// Builds the arm body for one resolved selection.
pub fn build_expr(v: &VariantShape, sel: CauseSelection) -> (r: CauseExpr)
    requires
        sel matches CauseSelection::CauseAt { field, .. } ==> field < v@.fields.len(),
    ensures
        r@ == expr_spec(v@, sel),
{
    match sel {
        CauseSelection::NoCause => CauseExpr::NoCause,
        CauseSelection::CauseAt { field, tag } => {
            let id = match &v.fields[field].name {
                Some(n) => n.clone(),
                None => placeholder_ident(field),
            };
            match tag {
                CauseTag::Direct => CauseExpr::Direct(id),
                CauseTag::Deferred => CauseExpr::Deferred(id),
            }
        },
    }
}

/// A selection a variant resolved to only ever points at one of its own
/// fields.
pub proof fn lemma_selection_in_bounds(
    fields: Seq<FieldDeclView>,
    i: int,
    found: Option<(usize, CauseTag)>,
    sel: CauseSelection,
)
    requires
        found matches Some((j, _)) ==> j < fields.len(),
        scan_fields(fields, i, found) == Ok::<CauseSelection, crate::resolve::VariantIssue>(sel),
    ensures
        sel matches CauseSelection::CauseAt { field, .. } ==> field < fields.len(),
    decreases fields.len() - i,
{
    if 0 <= i < fields.len() {
        match crate::resolve::field_outcome(fields[i]) {
            Err(_) => {},
            Ok(None) => {
                lemma_selection_in_bounds(fields, i + 1, found, sel);
            },
            Ok(Some(t)) => {
                if found is None {
                    lemma_selection_in_bounds(fields, i + 1, Some((i as usize, t)), sel);
                }
            },
        }
    }
}

/// A successful walk of the variants from position `i` extends the
/// accumulator with exactly one selection per remaining variant.
pub proof fn lemma_scan_variants_ok(
    vs: Seq<VariantShapeView>,
    i: int,
    acc: Seq<CauseSelection>,
    sels: Seq<CauseSelection>,
)
    requires
        0 <= i <= vs.len(),
        scan_variants(vs, i, acc) == Ok::<Seq<CauseSelection>, SynthesisError>(sels),
    ensures
        sels.len() == acc.len() + vs.len() - i,
        forall|k: int| 0 <= k < acc.len() ==> sels[k] == acc[k],
        forall|k: int|
            i <= k < vs.len() ==> variant_outcome(#[trigger] vs[k]) == Ok::<
                CauseSelection,
                crate::resolve::VariantIssue,
            >(sels[acc.len() + k - i]),
    decreases vs.len() - i,
{
    if i < vs.len() {
        match variant_outcome(vs[i]) {
            Err(_) => {},
            Ok(sel) => {
                lemma_scan_variants_ok(vs, i + 1, acc.push(sel), sels);
            },
        }
    }
}

/// Builds one arm of the dispatch for an enum variant.
fn build_arm(v: &VariantShape, sel: CauseSelection) -> (r: MatchArm)
    requires
        sel matches CauseSelection::CauseAt { field, .. } ==> field < v@.fields.len(),
    ensures
        r@ == arm_spec(v@, sel),
{
    MatchArm {
        variant: Some(v.name.clone()),
        bindings: build_bindings(v),
        expr: build_expr(v, sel),
    }
}

/// Builds the bounds assertion for a schema: its deterministic name and the
/// declared predicates followed by the marker entry.
fn build_assertion(schema: &TypeSchema) -> (r: BoundsAssertion)
    ensures
        r@.name == assertion_name(schema@.name),
        r@.constraints == constraints_spec(schema@.generics.predicates),
{
    let mut name = String::from_str("_ErrorDeriveAssertBoundsFor");
    name.append(schema.name.as_str());
    let mut constraints: Vec<Constraint> = Vec::new();
    let mut i: usize = 0;
    while i < schema.generics.predicates.len()
        invariant
            i <= schema.generics.predicates.len(),
            constraints@.len() == i,
            forall|k: int|
                0 <= k < i ==> (#[trigger] constraints@[k])@ == ConstraintView::Declared(
                    schema@.generics.predicates[k],
                ),
        decreases schema.generics.predicates.len() - i,
    {
        constraints.push(Constraint::Declared(schema.generics.predicates[i].clone()));
        i = i + 1;
    }
    constraints.push(Constraint::Markers);
    proof {
        assert(constraints.deep_view() =~= constraints_spec(schema@.generics.predicates));
    }
    BoundsAssertion { name, constraints }
}

/// Synthesizes the complete implementation for a schema: resolves every
/// variant, then emits one pattern/expression arm per variant in declaration
/// order and the bounds assertion. An overlapping-storage shape is rejected
/// with no per-variant work; any walker failure aborts generation and is
/// propagated unchanged.
pub fn synthesize(schema: &TypeSchema) -> (r: Result<GeneratedImpl, SynthesisError>)
    ensures
        generated_view(r) == synthesize_spec(schema@),
{
    let sels = match resolve(schema) {
        Err(e) => {
            return Err(e);
        },
        Ok(sels) => sels,
    };
    let assertion = build_assertion(schema);
    let mut params: Vec<String> = Vec::new();
    let mut i: usize = 0;
    while i < schema.generics.params.len()
        invariant
            i <= schema.generics.params.len(),
            params@.len() == i,
            forall|k: int| 0 <= k < i ==> (#[trigger] params@[k])@ == schema@.generics.params[k],
        decreases schema.generics.params.len() - i,
    {
        params.push(schema.generics.params[i].clone());
        i = i + 1;
    }
    proof {
        assert(params.deep_view() =~= schema@.generics.params);
    }
    let body = match &schema.shape {
        TypeShape::Union => {
            return Err(SynthesisError::UnsupportedShape);
        },
        TypeShape::Product(v) => {
            proof {
                lemma_selection_in_bounds(v@.fields, 0, None, sels@[0]);
            }
            let arm = MatchArm {
                variant: None,
                bindings: build_bindings(v),
                expr: build_expr(v, sels[0]),
            };
            DispatchBody::Single(arm)
        },
        TypeShape::Variants(vs) => {
            proof {
                lemma_scan_variants_ok(vs.deep_view(), 0, Seq::empty(), sels@);
            }
            let mut arms: Vec<MatchArm> = Vec::new();
            let mut j: usize = 0;
            while j < vs.len()
                invariant
                    j <= vs.len(),
                    j <= sels.len(),
                    vs.deep_view().len() == sels@.len(),
                    forall|k: int|
                        0 <= k < vs.deep_view().len() ==> variant_outcome(
                            #[trigger] vs.deep_view()[k],
                        ) == Ok::<CauseSelection, crate::resolve::VariantIssue>(sels@[k]),
                    arms@.len() == j,
                    forall|k: int|
                        0 <= k < j ==> (#[trigger] arms@[k])@ == arm_spec(
                            vs.deep_view()[k],
                            sels@[k],
                        ),
                decreases vs.len() - j,
            {
                proof {
                    lemma_selection_in_bounds(vs.deep_view()[j as int].fields, 0, None, sels@[j as int]);
                }
                let arm = build_arm(&vs[j], sels[j]);
                arms.push(arm);
                j = j + 1;
            }
            proof {
                assert(arms.deep_view() =~= Seq::new(
                    vs.deep_view().len(),
                    |k: int| arm_spec(vs.deep_view()[k], sels@[k]),
                ));
            }
            DispatchBody::Arms(arms)
        },
    };
    let g = GeneratedImpl { target: schema.name.clone(), params, assertion, body };
    proof {
        assert(g@ == synthesize_spec(schema@)->Ok_0);
    }
    Ok(g)
}

} // verus!
