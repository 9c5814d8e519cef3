//! What the derive produces for a declaration: three generic parameter lists,
//! one for each generated impl, and the arms of the naming match.
use vstd::prelude::*;
use crate::generics::{ExtendableGenerics, Param, ParamKind, extended};
use crate::naming::{NamingArm, VariantInput, arms_of, arms_view, naming_arms, opt_view, variants_view};

verus! {

/// The body of the declaration: a tagged union with its variants, or a
/// struct, which the derive does not accept.
#[derive(Clone, Debug, PartialEq, Eq)]
pub enum DeclData {
    Enum(Vec<VariantInput>),
    Struct,
}

/// A declaration as the derive reads it: its name, its generic parameters,
/// its body and the optional prefix of its identifiers.
#[derive(Clone, Debug, PartialEq, Eq)]
pub struct Input<P> {
    pub ident: String,
    pub generics: Vec<Param<P>>,
    pub data: DeclData,
    pub prefix: Option<String>,
}

/// The parameters that the generated impls add: the sink's event type and
/// its two lifetimes for the publish impl, and the borrow lifetime of the
/// untyped holder for the downcast impl.
#[derive(Clone, Copy, Debug, PartialEq, Eq)]
pub struct SyntheticParams<P> {
    pub event_type: P,
    pub frame_lifetime: P,
    pub bp_lifetime: P,
    pub holder_lifetime: P,
}

/// The reasons the derive refuses a declaration.
#[derive(Clone, Copy, Debug, PartialEq, Eq, Structural)]
pub enum ExpandError {
    /// The declaration is not a tagged union.
    Shape,
}

/// What the derive emits for one declaration.
#[derive(Clone, Debug, PartialEq, Eq)]
pub struct Expansion<P> {
    pub ident: String,
    /// Generic parameters of the naming impl: the declaration's own.
    pub naming_generics: Vec<Param<P>>,
    /// Generic parameters of the publish impl.
    pub publish_generics: Vec<Param<P>>,
    /// Generic parameters of the downcast impl.
    pub downcast_generics: Vec<Param<P>>,
    /// One arm per variant, in declaration order.
    pub arms: Vec<NamingArm>,
}

/// The mathematical content of an expansion.
pub struct ExpansionView<P> {
    pub ident: Seq<char>,
    pub naming_generics: Seq<Param<P>>,
    pub publish_generics: Seq<Param<P>>,
    pub downcast_generics: Seq<Param<P>>,
    pub arms: Seq<(Seq<char>, Seq<char>)>,
}

impl<P> View for Expansion<P> {
    type V = ExpansionView<P>;

    open spec fn view(&self) -> ExpansionView<P> {
        ExpansionView {
            ident: self.ident@,
            naming_generics: self.naming_generics@,
            publish_generics: self.publish_generics@,
            downcast_generics: self.downcast_generics@,
            arms: arms_view(self.arms@),
        }
    }
}

/// The publish impl's parameters: the original list with the event type
/// parameter and the two sink lifetimes added.
pub open spec fn publish_generics_of<P>(g: Seq<Param<P>>, s: SyntheticParams<P>) -> Seq<Param<P>> {
    extended(
        extended(
            extended(g, Param { kind: ParamKind::Type, value: s.event_type }),
            Param { kind: ParamKind::Lifetime, value: s.frame_lifetime },
        ),
        Param { kind: ParamKind::Lifetime, value: s.bp_lifetime },
    )
}

/// The downcast impl's parameters: the original list with the holder's
/// lifetime added.
pub open spec fn downcast_generics_of<P>(g: Seq<Param<P>>, s: SyntheticParams<P>) -> Seq<Param<P>> {
    extended(g, Param { kind: ParamKind::Lifetime, value: s.holder_lifetime })
}

/// The expansion of a declaration, or `None` when it is not a tagged union.
pub open spec fn expansion_of<P>(input: Input<P>, s: SyntheticParams<P>) -> Option<ExpansionView<P>> {
    match input.data {
        DeclData::Enum(vs) => Some(
            ExpansionView {
                ident: input.ident@,
                naming_generics: input.generics@,
                publish_generics: publish_generics_of(input.generics@, s),
                downcast_generics: downcast_generics_of(input.generics@, s),
                arms: arms_of(opt_view(input.prefix), variants_view(vs@)),
            },
        ),
        DeclData::Struct => None,
    }
}

/// Whether `r` is what expanding `input` with `s` gives.
pub open spec fn expands_to<P>(
    input: Input<P>,
    s: SyntheticParams<P>,
    r: Result<Expansion<P>, ExpandError>,
) -> bool {
    match r {
        Ok(e) => expansion_of(input, s) == Some(e@),
        Err(ExpandError::Shape) => expansion_of(input, s) is None,
    }
}

/// Running the derive twice on the same declaration gives the same output.
pub proof fn lemma_expansion_deterministic<P>(
    input: Input<P>,
    s: SyntheticParams<P>,
    r1: Result<Expansion<P>, ExpandError>,
    r2: Result<Expansion<P>, ExpandError>,
)
    requires
        expands_to(input, s, r1),
        expands_to(input, s, r2),
    ensures
        r1 is Ok <==> r2 is Ok,
        r1 is Ok ==> r1->Ok_0@ == r2->Ok_0@,
{
}

fn copy_params<P: Copy>(g: &Vec<Param<P>>) -> (r: Vec<Param<P>>)
    ensures
        r@ == g@,
{
    let mut out: Vec<Param<P>> = Vec::new();
    let mut i: usize = 0;
    while i < g.len()
        invariant
            0 <= i <= g@.len(),
            out@ == g@.take(i as int),
        decreases g@.len() - i,
    {
        let p = Param { kind: g[i].kind, value: g[i].value };
        assert(g@.take(i + 1) =~= g@.take(i as int).push(g@[i as int]));
        out.push(p);
        i = i + 1;
    }
    assert(g@.take(i as int) =~= g@);
    out
}

/// Expands a declaration: refuses one that is not a tagged union, and
/// otherwise gives the three generic parameter lists and the naming arms.
pub fn expand<P: Copy>(input: Input<P>, s: SyntheticParams<P>) -> (r: Result<Expansion<P>, ExpandError>)
    ensures
        expands_to(input, s, r),
{
    let variants = match &input.data {
        DeclData::Enum(vs) => vs,
        DeclData::Struct => {
            return Err(ExpandError::Shape);
        },
    };
    let mut publish = ExtendableGenerics::new(copy_params(&input.generics));
    publish.add_type(s.event_type);
    publish.add_lt(s.frame_lifetime);
    publish.add_lt(s.bp_lifetime);
    let mut downcast = ExtendableGenerics::new(copy_params(&input.generics));
    downcast.add_lt(s.holder_lifetime);
    let arms = naming_arms(&input.prefix, variants);
    let e = Expansion {
        ident: input.ident.clone(),
        naming_generics: copy_params(&input.generics),
        publish_generics: publish.into_params(),
        downcast_generics: downcast.into_params(),
        arms,
    };
    Ok(e)
}

} // verus!
