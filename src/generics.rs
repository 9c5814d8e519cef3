//! Ordered generic parameter lists and the insertion of new parameters.
use vstd::prelude::*;

verus! {

/// The three kinds of generic parameter.
#[derive(Clone, Copy, Debug, PartialEq, Eq, Structural)]
pub enum ParamKind {
    Lifetime,
    Type,
    Const,
}

/// Position of a kind in the order that a parameter list must keep:
/// lifetimes, then types, then consts.
pub open spec fn kind_rank(k: ParamKind) -> int {
    match k {
        ParamKind::Lifetime => 0,
        ParamKind::Type => 1,
        ParamKind::Const => 2,
    }
}

/// Whether the kinds `s` come in the order lifetimes, types, consts.
pub open spec fn well_ordered(s: Seq<ParamKind>) -> bool {
    forall|i: int, j: int| 0 <= i < j < s.len() ==> kind_rank(#[trigger] s[i]) <= kind_rank(
        #[trigger] s[j],
    )
}

/// Where a new parameter of kind `k` goes in a list of kinds `s`: before the
/// first entry of a strictly later kind, or at the end if there is none.
pub open spec fn insertion_point(s: Seq<ParamKind>, k: ParamKind) -> int
    decreases s.len(),
{
    if s.len() == 0 {
        0
    } else if kind_rank(s[0]) > kind_rank(k) {
        0
    } else {
        1 + insertion_point(s.drop_first(), k)
    }
}

/// `insertion_point` is the first index holding a later kind, or the length.
pub proof fn lemma_insertion_point(s: Seq<ParamKind>, k: ParamKind)
    ensures
        0 <= insertion_point(s, k) <= s.len(),
        forall|i: int| 0 <= i < insertion_point(s, k) ==> kind_rank(#[trigger] s[i]) <= kind_rank(k),
        insertion_point(s, k) < s.len() ==> kind_rank(s[insertion_point(s, k)]) > kind_rank(k),
    decreases s.len(),
{
    if s.len() > 0 && kind_rank(s[0]) <= kind_rank(k) {
        lemma_insertion_point(s.drop_first(), k);
        assert forall|i: int| 0 <= i < insertion_point(s, k) implies kind_rank(#[trigger] s[i])
            <= kind_rank(k) by {
            if i > 0 {
                assert(s[i] == s.drop_first()[i - 1]);
            }
        }
    }
}

/// Inserting a kind where it belongs keeps a list of kinds in order.
pub proof fn lemma_insert_kind_keeps_order(s: Seq<ParamKind>, k: ParamKind)
    requires
        well_ordered(s),
    ensures
        well_ordered(s.insert(insertion_point(s, k), k)),
{
    lemma_insertion_point(s, k);
    let ip = insertion_point(s, k);
    let t = s.insert(ip, k);
    assert forall|i: int, j: int| 0 <= i < j < t.len() implies kind_rank(#[trigger] t[i])
        <= kind_rank(#[trigger] t[j]) by {
        if j < ip {
            assert(t[i] == s[i] && t[j] == s[j]);
        } else if j == ip {
            assert(t[i] == s[i]);
        } else if i < ip {
            assert(t[i] == s[i] && t[j] == s[j - 1]);
            assert(kind_rank(s[ip]) > kind_rank(k));
            assert(kind_rank(s[ip]) <= kind_rank(s[j - 1]));
        } else if i == ip {
            assert(t[j] == s[j - 1]);
            assert(kind_rank(s[ip]) <= kind_rank(s[j - 1]));
        } else {
            assert(t[i] == s[i - 1] && t[j] == s[j - 1]);
        }
    }
}

/// A generic parameter: its kind, and the parameter itself as the host
/// syntax holds it.
#[derive(Clone, Copy, Debug, PartialEq, Eq)]
pub struct Param<P> {
    pub kind: ParamKind,
    pub value: P,
}

/// The kinds of a sequence of parameters, in order.
pub open spec fn kinds_of<P>(s: Seq<Param<P>>) -> Seq<ParamKind> {
    s.map_values(|p: Param<P>| p.kind)
}

/// The list of parameters after inserting `p` where its kind belongs.
pub open spec fn extended<P>(s: Seq<Param<P>>, p: Param<P>) -> Seq<Param<P>> {
    s.insert(insertion_point(kinds_of(s), p.kind), p)
}

/// The kinds of a list with a parameter inserted are the old kinds with its
/// kind inserted at the same place.
pub proof fn lemma_kinds_of_insert<P>(s: Seq<Param<P>>, i: int, p: Param<P>)
    requires
        0 <= i <= s.len(),
    ensures
        kinds_of(s.insert(i, p)) == kinds_of(s).insert(i, p.kind),
{
    assert(kinds_of(s.insert(i, p)) =~= kinds_of(s).insert(i, p.kind));
}

/// Adding any parameter to a parameter list whose lifetimes precede its types
/// and whose types precede its consts gives a list that keeps that order;
/// the entries already there keep their relative order, and the new one
/// stands directly before the first entry of a later kind.
pub proof fn lemma_extension_keeps_order<P>(s: Seq<Param<P>>, p: Param<P>)
    requires
        well_ordered(kinds_of(s)),
    ensures
        well_ordered(kinds_of(extended(s, p))),
        extended(s, p).len() == s.len() + 1,
        ({
            let ip = insertion_point(kinds_of(s), p.kind);
            &&& 0 <= ip <= s.len()
            &&& extended(s, p)[ip] == p
            &&& extended(s, p).take(ip) == s.take(ip)
            &&& extended(s, p).skip(ip + 1) == s.skip(ip)
        }),
{
    let ip = insertion_point(kinds_of(s), p.kind);
    lemma_insertion_point(kinds_of(s), p.kind);
    lemma_kinds_of_insert(s, ip, p);
    lemma_insert_kind_keeps_order(kinds_of(s), p.kind);
    assert(extended(s, p).take(ip) =~= s.take(ip));
    assert(extended(s, p).skip(ip + 1) =~= s.skip(ip));
}

/// A generic parameter list that new parameters can be added to.
#[derive(Clone, Debug)]
pub struct ExtendableGenerics<P> {
    pub params: Vec<Param<P>>,
}

impl<P> ExtendableGenerics<P> {
    pub open spec fn kinds(&self) -> Seq<ParamKind> {
        kinds_of(self.params@)
    }

    /// Wraps an existing parameter list.
    pub fn new(params: Vec<Param<P>>) -> (r: Self)
        ensures
            r.params@ == params@,
    {
        ExtendableGenerics { params }
    }

    /// The parameter list, with whatever has been added.
    pub fn into_params(self) -> (r: Vec<Param<P>>)
        ensures
            r@ == self.params@,
    {
        self.params
    }

    /// Index of the first parameter whose kind comes strictly after `kind`,
    /// or the length of the list if there is none.
    pub fn position_after(&self, kind: ParamKind) -> (pos: usize)
        ensures
            pos == insertion_point(self.kinds(), kind),
            pos <= self.params@.len(),
    {
        proof {
            lemma_insertion_point(self.kinds(), kind);
        }
        let mut i: usize = 0;
        while i < self.params.len()
            invariant
                0 <= i <= self.params@.len(),
                i <= insertion_point(self.kinds(), kind),
                forall|j: int| 0 <= j < i ==> kind_rank(#[trigger] self.params@[j].kind) <= kind_rank(kind),
            decreases self.params@.len() - i,
        {
            proof {
                lemma_insertion_point(self.kinds(), kind);
            }
            if rank_of(self.params[i].kind) > rank_of(kind) {
                assert(self.kinds()[i as int] == self.params@[i as int].kind);
                return i;
            }
            assert(self.kinds()[i as int] == self.params@[i as int].kind);
            i = i + 1;
        }
        proof {
            lemma_insertion_point(self.kinds(), kind);
        }
        i
    }

    fn insert_at(&mut self, place: usize, param: Param<P>)
        requires
            place <= old(self).params@.len(),
        ensures
            final(self).params@ == old(self).params@.insert(place as int, param),
    {
        self.params.insert(place, param);
    }

    /// Adds a parameter where its kind belongs.
    pub fn add_param(&mut self, param: Param<P>)
        ensures
            final(self).params@ == extended(old(self).params@, param),
    {
        match param.kind {
            ParamKind::Lifetime => self.add_lt(param.value),
            ParamKind::Type => self.add_type(param.value),
            ParamKind::Const => self.add_const(param.value),
        }
    }

    /// Adds a lifetime parameter before the first type or const parameter.
    pub fn add_lt(&mut self, lt: P)
        ensures
            final(self).params@ == extended(old(self).params@, Param { kind: ParamKind::Lifetime, value: lt }),
    {
        let place = self.position_after(ParamKind::Lifetime);
        self.insert_at(place, Param { kind: ParamKind::Lifetime, value: lt });
    }

    /// Adds a type parameter before the first const parameter.
    pub fn add_type(&mut self, ty: P)
        ensures
            final(self).params@ == extended(old(self).params@, Param { kind: ParamKind::Type, value: ty }),
    {
        let place = self.position_after(ParamKind::Type);
        self.insert_at(place, Param { kind: ParamKind::Type, value: ty });
    }

    /// Adds a const parameter at the end of the list.
    pub fn add_const(&mut self, const_generic: P)
        ensures
            final(self).params@ == extended(old(self).params@, Param { kind: ParamKind::Const, value: const_generic }),
    {
        proof {
            lemma_insertion_point(self.kinds(), ParamKind::Const);
        }
        let place = self.params.len();
        self.insert_at(place, Param { kind: ParamKind::Const, value: const_generic });
    }
}

fn rank_of(k: ParamKind) -> (r: u8)
    ensures
        r == kind_rank(k),
{
    match k {
        ParamKind::Lifetime => 0,
        ParamKind::Type => 1,
        ParamKind::Const => 2,
    }
}

} // verus!
