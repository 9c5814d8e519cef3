//! The identifier of each variant, from the declaration's prefix and the
//! variant's rename.
use vstd::prelude::*;
use vstd::string::StringExecFns;

verus! {

/// A variant of the declaration: its own name and its optional rename.
#[derive(Clone, Debug, PartialEq, Eq)]
pub struct VariantInput {
    pub ident: String,
    pub rename: Option<String>,
}

/// The view of an optional string.
pub open spec fn opt_view(o: Option<String>) -> Option<Seq<char>> {
    match o {
        Some(s) => Some(s@),
        None => None,
    }
}

impl View for VariantInput {
    type V = (Seq<char>, Option<Seq<char>>);

    open spec fn view(&self) -> (Seq<char>, Option<Seq<char>>) {
        (self.ident@, opt_view(self.rename))
    }
}

/// The identifier of a variant named `name`: its rename if it has one, else
/// the declaration's prefix (empty when there is none) followed by `name`.
pub open spec fn identifier_of(
    prefix: Option<Seq<char>>,
    name: Seq<char>,
    rename: Option<Seq<char>>,
) -> Seq<char> {
    match rename {
        Some(r) => r,
        None => match prefix {
            Some(p) => p + name,
            None => name,
        },
    }
}

/// With neither prefix nor rename, a variant is identified by its own name.
pub proof fn lemma_identifier_plain(name: Seq<char>)
    ensures
        identifier_of(None, name, None) == name,
        identifier_of(Some(Seq::empty()), name, None) == name,
{
    assert(Seq::<char>::empty() + name =~= name);
}

/// Without a rename, a variant is identified by the prefix followed by its
/// own name.
pub proof fn lemma_identifier_prefixed(p: Seq<char>, name: Seq<char>)
    ensures
        identifier_of(Some(p), name, None) == p + name,
{
}

/// A rename is the identifier, whatever the prefix.
pub proof fn lemma_identifier_renamed(prefix: Option<Seq<char>>, name: Seq<char>, r: Seq<char>)
    ensures
        identifier_of(prefix, name, Some(r)) == r,
{
}

/// Computes the identifier of `variant` under the declaration's `prefix`.
pub fn variant_identifier(prefix: &Option<String>, variant: &VariantInput) -> (r: String)
    ensures
        r@ == identifier_of(opt_view(*prefix), variant.ident@, opt_view(variant.rename)),
{
    match &variant.rename {
        Some(r) => r.clone(),
        None => match prefix {
            Some(p) => p.clone().concat(variant.ident.as_str()),
            None => variant.ident.clone(),
        },
    }
}

/// One arm of the generated naming match: a variant and its identifier.
#[derive(Clone, Debug, PartialEq, Eq)]
pub struct NamingArm {
    pub variant: String,
    pub identifier: String,
}

impl View for NamingArm {
    type V = (Seq<char>, Seq<char>);

    open spec fn view(&self) -> (Seq<char>, Seq<char>) {
        (self.variant@, self.identifier@)
    }
}

/// The arm that names a variant under a prefix.
pub open spec fn arm_of(prefix: Option<Seq<char>>, v: (Seq<char>, Option<Seq<char>>)) -> (
    Seq<char>,
    Seq<char>,
) {
    (v.0, identifier_of(prefix, v.0, v.1))
}

/// The arms for all variants, in declaration order.
pub open spec fn arms_of(prefix: Option<Seq<char>>, vs: Seq<(Seq<char>, Option<Seq<char>>)>) -> Seq<
    (Seq<char>, Seq<char>),
> {
    vs.map_values(|v: (Seq<char>, Option<Seq<char>>)| arm_of(prefix, v))
}

/// The views of a sequence of variants.
pub open spec fn variants_view(vs: Seq<VariantInput>) -> Seq<(Seq<char>, Option<Seq<char>>)> {
    vs.map_values(|v: VariantInput| v@)
}

/// The views of a sequence of arms.
pub open spec fn arms_view(arms: Seq<NamingArm>) -> Seq<(Seq<char>, Seq<char>)> {
    arms.map_values(|a: NamingArm| a@)
}

/// Builds one naming arm per variant, in declaration order. Two variants may
/// end up with the same identifier: nothing here rejects that.
pub fn naming_arms(prefix: &Option<String>, variants: &Vec<VariantInput>) -> (r: Vec<NamingArm>)
    ensures
        arms_view(r@) == arms_of(opt_view(*prefix), variants_view(variants@)),
{
    let mut arms: Vec<NamingArm> = Vec::new();
    let mut i: usize = 0;
    while i < variants.len()
        invariant
            0 <= i <= variants@.len(),
            arms_view(arms@) == arms_of(opt_view(*prefix), variants_view(variants@)).take(i as int),
        decreases variants@.len() - i,
    {
        let v = &variants[i];
        let identifier = variant_identifier(prefix, v);
        let arm = NamingArm { variant: v.ident.clone(), identifier };
        proof {
            assert(arms_view(arms@.push(arm)) =~= arms_view(arms@).push(arm@));
            assert(arms_of(opt_view(*prefix), variants_view(variants@)).take(i + 1) =~= arms_of(
                opt_view(*prefix),
                variants_view(variants@),
            ).take(i as int).push(arm@));
        }
        arms.push(arm);
        i = i + 1;
    }
    assert(arms_of(opt_view(*prefix), variants_view(variants@)).take(i as int) =~= arms_of(
        opt_view(*prefix),
        variants_view(variants@),
    ));
    arms
}

} // verus!
