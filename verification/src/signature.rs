//! Signature extraction and normalization.
//!
//! A test function's parameter list and return type are validated and turned
//! into a canonical signature: every parameter must bind a plain name, the
//! function must not be `const`, declare a foreign calling convention or be
//! variadic, and neither the parameters nor the return type may mention the
//! function's own type or constant generic parameters.  The lifetime
//! resolver normalizes every lifetime position, and the function's lifetime
//! parameters are filtered down to the ones its signature actually uses.

use vstd::prelude::*;

use crate::error::Diag;
use crate::error::DiagV;
use crate::error::ErrorRecord;
use crate::lifetimes::spec_visit_ty;
use crate::lifetimes::CollectorV;
use crate::lifetimes::LifetimeCollector;
use crate::lifetimes::LifetimeSubstMode;
use crate::lifetimes::ModeV;
use crate::tree::attrs_view;
use crate::tree::clone_attrs;
use crate::tree::clone_lifetimes;
use crate::tree::clone_ty;
use crate::lifetimes::contains_lt;
use crate::tree::contains_str;
use crate::tree::lts_view;
use crate::tree::params_view;
use crate::tree::strs_view;
use crate::tree::ty_view;
use crate::tree::Attr;
use crate::tree::AttrV;
use crate::tree::FnDecl;
use crate::tree::FnDeclV;
use crate::tree::GenArg;
use crate::tree::GenParam;
use crate::tree::GenParamV;
use crate::tree::Generics;
use crate::tree::GenericsV;
use crate::tree::Lifetime;
use crate::tree::LtV;
use crate::tree::Param;
use crate::tree::ParamV;
use crate::tree::Pat;
use crate::tree::PatIdent;
use crate::tree::PatV;
use crate::tree::PathSeg;
use crate::tree::PathSegV;
use crate::tree::SegArgs;
use crate::tree::SegArgsV;
use crate::tree::Ty;
use crate::tree::TypedParam;
use crate::tree::TyV;
use crate::tree::WherePred;
use crate::tree::WherePredV;
use crate::tree::TyPathV;

verus! {

/// The lifetime set of one signature side, in the order first collected.
/// The same set is enumerated in this one order at every later reference
/// site.
pub struct TestSignatureItem {
    pub lifetimes: Vec<Lifetime>,
}

/// Ghost form of a signature side's lifetime set.
#[verifier::ext_equal]
pub ghost struct TestSignatureItemV {
    pub lifetimes: Seq<LtV>,
}

impl View for TestSignatureItem {
    type V = TestSignatureItemV;

    open spec fn view(&self) -> TestSignatureItemV {
        TestSignatureItemV { lifetimes: lts_view(self.lifetimes@) }
    }
}

/// One extracted parameter: its echoed attributes, its name, its type as
/// written, and its type with every lifetime made explicit for the carrier
/// field.
pub struct TestFnArg {
    pub attrs: Vec<Attr>,
    pub ident: String,
    pub arg_ty: Ty,
    pub field_ty: Ty,
}

/// Ghost form of one extracted parameter.
#[verifier::ext_equal]
pub ghost struct TestFnArgV {
    pub attrs: Seq<AttrV>,
    pub ident: Seq<char>,
    pub arg_ty: TyV,
    pub field_ty: TyV,
}

impl View for TestFnArg {
    type V = TestFnArgV;

    open spec fn view(&self) -> TestFnArgV {
        TestFnArgV {
            attrs: attrs_view(self.attrs@),
            ident: self.ident@,
            arg_ty: self.arg_ty@,
            field_ty: self.field_ty@,
        }
    }
}

/// View of an extracted-parameter list.
pub open spec fn test_fn_args_view(s: Seq<TestFnArg>) -> Seq<TestFnArgV> {
    Seq::new(s.len(), |i: int| s[i]@)
}

/// The canonical form of a parameter list.
pub struct TestInputSignature {
    pub item: TestSignatureItem,
    pub args: Vec<TestFnArg>,
}

/// Ghost form of a canonical parameter list.
#[verifier::ext_equal]
pub ghost struct TestInputSignatureV {
    pub item: TestSignatureItemV,
    pub args: Seq<TestFnArgV>,
}

impl View for TestInputSignature {
    type V = TestInputSignatureV;

    open spec fn view(&self) -> TestInputSignatureV {
        TestInputSignatureV { item: self.item@, args: test_fn_args_view(self.args@) }
    }
}

/// The canonical form of a return type.
pub struct TestReturnSignature {
    pub item: TestSignatureItem,
    pub ty: Ty,
}

/// Ghost form of a canonical return type.
#[verifier::ext_equal]
pub ghost struct TestReturnSignatureV {
    pub item: TestSignatureItemV,
    pub ty: TyV,
}

impl View for TestReturnSignature {
    type V = TestReturnSignatureV;

    open spec fn view(&self) -> TestReturnSignatureV {
        TestReturnSignatureV { item: self.item@, ty: self.ty@ }
    }
}

/// A test function's whole canonical signature.
pub struct TestFnSignature {
    pub input: TestInputSignature,
    pub output: TestReturnSignature,
    pub lifetime_params: Vec<Lifetime>,
}

/// Ghost form of a whole canonical signature.
#[verifier::ext_equal]
pub ghost struct TestFnSignatureV {
    pub input: TestInputSignatureV,
    pub output: TestReturnSignatureV,
    pub lifetime_params: Seq<LtV>,
}

impl View for TestFnSignature {
    type V = TestFnSignatureV;

    open spec fn view(&self) -> TestFnSignatureV {
        TestFnSignatureV {
            input: self.input@,
            output: self.output@,
            lifetime_params: lts_view(self.lifetime_params@),
        }
    }
}

/// The ghost path segment referring to a carrier: the given name applied to
/// the given lifetimes, with no argument list at all when there are none.
pub open spec fn spec_path_segment(name: Seq<char>, ls: Seq<LtV>) -> PathSegV {
    PathSegV {
        ident: name,
        args: SegArgsV::Angle(Seq::new(ls.len(), |i: int| crate::tree::GenArgV::Lifetime(ls[i]))),
    }
}

impl TestSignatureItem {
    /// The lifetime parameters to put on a carrier declaration, in the
    /// set's one stable order.
    pub fn lifetime_generics(&self) -> (r: Vec<Lifetime>)
        ensures
            lts_view(r@) == self@.lifetimes,
    {
        clone_lifetimes(&self.lifetimes)
    }

    /// The path segment referring to a carrier of this shape by the given
    /// name, applying the set's lifetimes in its one stable order.
    #[verifier::loop_isolation(false)]
    pub fn path_segment(&self, name: &str) -> (r: PathSeg)
        ensures
            crate::tree::pathseg_view(r) == spec_path_segment(name@, self@.lifetimes),
    {
        let mut args: Vec<GenArg> = Vec::new();
        let n = self.lifetimes.len();
        let mut i: usize = 0;
        while i < n
            invariant
                i <= n,
                args@.len() == i,
                forall|k: int| 0 <= k < i ==> crate::tree::genarg_view(args@[k])
                    == crate::tree::GenArgV::Lifetime(self.lifetimes@[k]@),
            decreases n - i,
        {
            args.push(GenArg::Lifetime(self.lifetimes[i].clone_lt()));
            i = i + 1;
        }
        let r = PathSeg { ident: name.to_owned(), args: SegArgs::Angle(args) };
        proof {
            crate::tree::lemma_genargs_view(r.args->Angle_0@);
            assert(crate::tree::pathseg_view(r).args->Angle_0 =~= spec_path_segment(
                name@,
                self@.lifetimes,
            ).args->Angle_0);
        }
        r
    }
}

/// What `to_fn_arg` reproduces: a plain named parameter with the original
/// written type and the echoed attributes, with no binding extras.
pub open spec fn spec_to_fn_arg(a: TestFnArgV) -> ParamV {
    ParamV::Typed(
        crate::tree::TypedParamV {
            attrs: a.attrs,
            pat: PatV::Ident(
                crate::tree::PatIdentV {
                    ident: a.ident,
                    mutable: false,
                    by_ref: false,
                    has_subpat: false,
                    has_attrs: false,
                },
            ),
            ty: a.arg_ty,
        },
    )
}

impl TestFnArg {
    /// The parameter of a forwarding function for this argument: the name
    /// and the written type, with any binding mutability erased.
    pub fn to_fn_arg(&self) -> (r: Param)
        ensures
            r@ == spec_to_fn_arg(self@),
    {
        Param::Typed(
            TypedParam {
                attrs: clone_attrs(&self.attrs),
                pat: Pat::Ident(
                    PatIdent {
                        ident: self.ident.clone(),
                        mutable: false,
                        by_ref: false,
                        has_subpat: false,
                        has_attrs: false,
                    },
                ),
                ty: clone_ty(&self.arg_ty),
            },
        )
    }
}

/// The canonical return shape of a function that returns nothing: the unit
/// type, with no lifetimes.
pub open spec fn spec_unit_return() -> TestReturnSignatureV {
    TestReturnSignatureV {
        item: TestSignatureItemV { lifetimes: Seq::empty() },
        ty: TyV::Tuple(Seq::empty()),
    }
}

impl Default for TestReturnSignature {
    /// The canonical return type of a function that returns nothing.
    fn default() -> (r: TestReturnSignature)
        ensures
            r@ == spec_unit_return(),
    {
        TestReturnSignature::unit()
    }
}

impl TestReturnSignature {
    /// The canonical return type of a function that returns nothing.
    pub fn unit() -> (r: TestReturnSignature)
        ensures
            r@ == spec_unit_return(),
    {
        let r = TestReturnSignature {
            item: TestSignatureItem { lifetimes: Vec::new() },
            ty: Ty::Tuple(Vec::new()),
        };
        proof {
            assert(lts_view(r.item.lifetimes@) =~= Seq::<LtV>::empty());
            assert(crate::tree::tys_view(Seq::<Ty>::empty()) == Seq::<TyV>::empty());
            assert(r@ =~= spec_unit_return());
        }
        r
    }
}

// ---------------------------------------------------------------------------
// Uses of the function's own generic parameters in its signature
// ---------------------------------------------------------------------------
/// The names of a parameter list's type and constant generic parameters, in
/// order; lifetime parameters are not among them.
pub open spec fn spec_param_names(ps: Seq<GenParamV>) -> Seq<Seq<char>>
    decreases ps,
{
    if ps.len() == 0 {
        Seq::empty()
    } else {
        let rest = spec_param_names(ps.drop_first());
        match ps[0] {
            GenParamV::Type(d) => seq![d.ident] + rest,
            GenParamV::Konst(d) => seq![d.ident] + rest,
            GenParamV::Lifetime(_) => rest,
        }
    }
}

/// Whether a segment carries no arguments at all.
pub open spec fn spec_seg_no_args(s: PathSegV) -> bool {
    s.args == SegArgsV::Angle(Seq::<crate::tree::GenArgV>::empty())
}

/// What the catcher reports at an unqualified path: a bare identifier among
/// the generic parameters is an error, as is the first segment of a plain
/// two-segment path without arguments; any other path has its segment
/// arguments inspected.
pub open spec fn spec_catch_path(ps: Seq<Seq<char>>, p: TyPathV, errs: Seq<DiagV>) -> Seq<DiagV>
    decreases p, 1int,
{
    if !p.leading_colon && p.segments.len() == 1 && spec_seg_no_args(p.segments[0]) {
        if ps.contains(p.segments[0].ident) {
            errs.push(DiagV::GenericParamInSignature { ident: p.segments[0].ident })
        } else {
            errs
        }
    } else if !p.leading_colon && p.segments.len() == 2 && spec_seg_no_args(p.segments[0])
        && spec_seg_no_args(
        p.segments[1],
    ) {
        if ps.contains(p.segments[0].ident) {
            errs.push(DiagV::GenericParamInSignature { ident: p.segments[0].ident })
        } else {
            errs
        }
    } else {
        spec_catch_segs(ps, p.segments, errs)
    }
}

/// The catcher's walk over a segment list.
pub open spec fn spec_catch_segs(ps: Seq<Seq<char>>, ss: Seq<PathSegV>, errs: Seq<DiagV>) -> Seq<
    DiagV,
>
    decreases ss, 0int,
{
    if ss.len() == 0 {
        errs
    } else {
        spec_catch_segs(ps, ss.drop_first(), spec_catch_seg(ps, ss[0], errs))
    }
}

/// The catcher's walk over one segment's arguments.
pub open spec fn spec_catch_seg(ps: Seq<Seq<char>>, s: PathSegV, errs: Seq<DiagV>) -> Seq<DiagV>
    decreases s,
{
    match s.args {
        SegArgsV::Angle(gs) => spec_catch_genargs(ps, gs, errs),
        SegArgsV::Paren(pa) => spec_catch_opt_ty(
            ps,
            pa.output,
            spec_catch_tys(ps, pa.inputs, errs),
        ),
    }
}

/// The catcher's walk over a generic-argument list; only type arguments are
/// inspected.
pub open spec fn spec_catch_genargs(
    ps: Seq<Seq<char>>,
    gs: Seq<crate::tree::GenArgV>,
    errs: Seq<DiagV>,
) -> Seq<DiagV>
    decreases gs,
{
    if gs.len() == 0 {
        errs
    } else {
        let head = match gs[0] {
            crate::tree::GenArgV::Ty(t) => spec_catch_ty(ps, t, errs),
            _ => errs,
        };
        spec_catch_genargs(ps, gs.drop_first(), head)
    }
}

/// The catcher's walk over one type: a qualified path has only its
/// qualifying type inspected; a trait object has each bound's path
/// inspected.
pub open spec fn spec_catch_ty(ps: Seq<Seq<char>>, t: TyV, errs: Seq<DiagV>) -> Seq<DiagV>
    decreases t,
{
    match t {
        TyV::Path(p) => match p.qself {
            Some(q) => spec_catch_ty(ps, *q.ty, errs),
            None => spec_catch_path(ps, p, errs),
        },
        TyV::Reference(r) => spec_catch_ty(ps, *r.elem, errs),
        TyV::BareFn(f) => spec_catch_opt_ty(ps, f.output, spec_catch_tys(ps, f.inputs, errs)),
        TyV::Tuple(ts) => spec_catch_tys(ps, ts, errs),
        TyV::Slice(e) => spec_catch_ty(ps, *e, errs),
        TyV::TraitObject(bs) => spec_catch_bounds(ps, bs, errs),
        TyV::Opaque(_) => errs,
    }
}

/// The catcher's walk over a type list.
pub open spec fn spec_catch_tys(ps: Seq<Seq<char>>, ts: Seq<TyV>, errs: Seq<DiagV>) -> Seq<DiagV>
    decreases ts,
{
    if ts.len() == 0 {
        errs
    } else {
        spec_catch_tys(ps, ts.drop_first(), spec_catch_ty(ps, ts[0], errs))
    }
}

/// The catcher's walk over an optional type.
pub open spec fn spec_catch_opt_ty(
    ps: Seq<Seq<char>>,
    t: Option<Box<TyV>>,
    errs: Seq<DiagV>,
) -> Seq<DiagV>
    decreases t,
{
    match t {
        Some(b) => spec_catch_ty(ps, *b, errs),
        None => errs,
    }
}

/// The catcher's walk over a trait object's bounds.
pub open spec fn spec_catch_bounds(
    ps: Seq<Seq<char>>,
    bs: Seq<crate::tree::TraitBoundTyV>,
    errs: Seq<DiagV>,
) -> Seq<DiagV>
    decreases bs,
{
    if bs.len() == 0 {
        errs
    } else {
        spec_catch_bounds(ps, bs.drop_first(), spec_catch_path(ps, bs[0].path, errs))
    }
}

/// Reports every use of the function's own type or constant generic
/// parameters inside its signature types.
struct GenericParamCatcher {
    generic_params: Vec<String>,
    errors: ErrorRecord,
}

/// Ghost form of the catcher's state.
#[verifier::ext_equal]
pub ghost struct CatcherV {
    pub params: Seq<Seq<char>>,
    pub errors: Seq<DiagV>,
}

impl View for GenericParamCatcher {
    type V = CatcherV;

    closed spec fn view(&self) -> CatcherV {
        CatcherV { params: strs_view(self.generic_params@), errors: self.errors@ }
    }
}

/// The names of a function's type and constant generic parameters.
#[verifier::loop_isolation(false)]
pub(crate) fn generic_param_names(g: &Generics) -> (r: Vec<String>)
    ensures
        strs_view(r@) == spec_param_names(g@.params),
{
    let ghost full = g@.params;
    proof {
        assert(full.skip(0) =~= full);
    }
    let mut out: Vec<String> = Vec::new();
    let n = g.params.len();
    let mut i: usize = 0;
    while i < n
        invariant
            i <= n,
            spec_param_names(full) == strs_view(out@) + spec_param_names(full.skip(i as int)),
        decreases n - i,
    {
        proof {
            assert(full.skip(i as int)[0] == g.params@[i as int]@);
        }
        let ghost out_pre = out@;
        match &g.params[i] {
            GenParam::Type(d) => {
                out.push(d.ident.clone());
            },
            GenParam::Konst(d) => {
                out.push(d.ident.clone());
            },
            GenParam::Lifetime(_) => {},
        }
        i = i + 1;
        proof {
            assert(full.skip(i - 1).drop_first() =~= full.skip(i as int));
            if out@.len() > out_pre.len() {
                assert(strs_view(out@) =~= strs_view(out_pre).push(out@[out@.len() - 1]@));
                assert(strs_view(out@) + spec_param_names(full.skip(i as int)) =~= strs_view(
                    out_pre,
                ) + (seq![out@[out@.len() - 1]@] + spec_param_names(full.skip(i as int))));
            } else {
                assert(strs_view(out@) =~= strs_view(out_pre));
            }
        }
    }
    proof {
        assert(full.skip(n as int) =~= Seq::<GenParamV>::empty());
        assert(strs_view(out@) + Seq::<Seq<char>>::empty() =~= strs_view(out@));
    }
    out
}

impl GenericParamCatcher {
    /// A catcher for the given function generics, with no errors yet.
    fn new(generics: &Generics) -> (r: GenericParamCatcher)
        ensures
            r@.params == spec_param_names(generics@.params),
            r@.errors == Seq::<DiagV>::empty(),
    {
        GenericParamCatcher {
            generic_params: generic_param_names(generics),
            errors: ErrorRecord::new(),
        }
    }

    /// Inspects one unqualified path.
    #[verifier::loop_isolation(false)]
    #[verifier::rlimit(30)]
    fn visit_path(&mut self, p: &crate::tree::TyPath) -> (u: ())
        ensures
            final(self)@.params == old(self)@.params,
            final(self)@.errors == spec_catch_path(old(self)@.params, p@, old(self)@.errors),
        decreases p, 1int,
    {
        proof {
            crate::tree::lemma_pathsegs_view(p.segments@);
        }
        let plain0 = !p.leading_colon && p.segments.len() >= 1 && seg_has_no_args(&p.segments[0]);
        if p.segments.len() == 1 && plain0 {
            if contains_str(&self.generic_params, &p.segments[0].ident) {
                self.errors.add_error(
                    Diag::GenericParamInSignature { ident: p.segments[0].ident.clone() },
                );
            }
            return ;
        }
        if p.segments.len() == 2 && plain0 && seg_has_no_args(&p.segments[1]) {

            if contains_str(&self.generic_params, &p.segments[0].ident) {
                self.errors.add_error(
                    Diag::GenericParamInSignature { ident: p.segments[0].ident.clone() },
                );
            }
            return ;
        }
        let ghost full = crate::tree::pathsegs_view(p.segments@);
        proof {
            assert(full.skip(0) =~= full);
        }
        let n = p.segments.len();
        let mut i: usize = 0;
        while i < n
            invariant
                i <= n,
                self@.params == old(self)@.params,
                spec_catch_segs(old(self)@.params, full, old(self)@.errors) == spec_catch_segs(
                    self@.params,
                    full.skip(i as int),
                    self@.errors,
                ),
            decreases n - i,
        {
            proof {
                assert(full.skip(i as int)[0] == crate::tree::pathseg_view(p.segments@[i as int]));
            }
            self.visit_seg(&p.segments[i]);
            i = i + 1;
            proof {
                assert(full.skip(i - 1).drop_first() =~= full.skip(i as int));
            }
        }
        proof {
            assert(full.skip(n as int) =~= Seq::<PathSegV>::empty());
        }
    }

    /// Inspects one segment's arguments.
    fn visit_seg(&mut self, s: &PathSeg) -> (u: ())
        ensures
            final(self)@.params == old(self)@.params,
            final(self)@.errors == spec_catch_seg(
                old(self)@.params,
                crate::tree::pathseg_view(*s),
                old(self)@.errors,
            ),
        decreases s, 0int,
    {
        match &s.args {
            SegArgs::Angle(gs) => {
                self.visit_genargs(gs);
            },
            SegArgs::Paren(pa) => {
                self.visit_tys(&pa.inputs);
                self.visit_opt_ty(&pa.output);
            },
        }
    }

    /// Inspects a generic-argument list.
    #[verifier::loop_isolation(false)]
    #[verifier::rlimit(30)]
    fn visit_genargs(&mut self, gs: &Vec<GenArg>) -> (u: ())
        ensures
            final(self)@.params == old(self)@.params,
            final(self)@.errors == spec_catch_genargs(
                old(self)@.params,
                crate::tree::genargs_view(gs@),
                old(self)@.errors,
            ),
        decreases gs,
    {
        let ghost full = crate::tree::genargs_view(gs@);
        proof {
            crate::tree::lemma_genargs_view(gs@);
            assert(full.skip(0) =~= full);
        }
        let n = gs.len();
        let mut i: usize = 0;
        while i < n
            invariant
                i <= n,
                self@.params == old(self)@.params,
                spec_catch_genargs(old(self)@.params, full, old(self)@.errors)
                    == spec_catch_genargs(self@.params, full.skip(i as int), self@.errors),
            decreases n - i,
        {
            proof {
                assert(full.skip(i as int)[0] == crate::tree::genarg_view(gs@[i as int]));
            }
            match &gs[i] {
                GenArg::Ty(t) => {
                    self.visit_type(t);
                },
                _ => {},
            }
            i = i + 1;
            proof {
                assert(full.skip(i - 1).drop_first() =~= full.skip(i as int));
            }
        }
        proof {
            assert(full.skip(n as int) =~= Seq::<crate::tree::GenArgV>::empty());
        }
    }

    /// Inspects one type.
    #[verifier::loop_isolation(false)]
    #[verifier::rlimit(30)]
    fn visit_type(&mut self, t: &Ty) -> (u: ())
        ensures
            final(self)@.params == old(self)@.params,
            final(self)@.errors == spec_catch_ty(old(self)@.params, t@, old(self)@.errors),
        decreases t,
    {
        match t {
            Ty::Path(p) => match &p.qself {
                Some(q) => {
                    proof {
                        assert(t@ == TyV::Path(crate::tree::ty_path_view(*p)));
                        assert(crate::tree::ty_path_view(*p).qself == Some(
                            crate::tree::QSelfV {
                                ty: Box::new(ty_view(*q.ty)),
                                position: q.position as nat,
                            },
                        ));
                    }
                    self.visit_type(&q.ty);
                },
                None => {
                    self.visit_path(p);
                },
            },
            Ty::Reference(r) => {
                self.visit_type(&r.elem);
            },
            Ty::BareFn(f) => {
                self.visit_tys(&f.inputs);
                self.visit_opt_ty(&f.output);
            },
            Ty::Tuple(ts) => {
                self.visit_tys(ts);
            },
            Ty::Slice(e) => {
                self.visit_type(e);
            },
            Ty::Opaque(_) => {},
            Ty::TraitObject(bs) => {
                let ghost full = crate::tree::traitbounds_view(bs@);
                proof {
                    crate::tree::lemma_traitbounds_view(bs@);
                    assert(full.skip(0) =~= full);
                }
                let n = bs.len();
                let mut i: usize = 0;
                while i < n
                    invariant
                        i <= n,
                        self@.params == old(self)@.params,
                        spec_catch_bounds(old(self)@.params, full, old(self)@.errors)
                            == spec_catch_bounds(self@.params, full.skip(i as int), self@.errors),
                    decreases n - i,
                {
                    proof {
                        assert(full.skip(i as int)[0] == crate::tree::traitbound_view(
                            bs@[i as int],
                        ));
                    }
                    self.visit_path(&bs[i].path);
                    i = i + 1;
                    proof {
                        assert(full.skip(i - 1).drop_first() =~= full.skip(i as int));
                    }
                }
                proof {
                    assert(full.skip(n as int) =~= Seq::<crate::tree::TraitBoundTyV>::empty());
                }
            },
        }
    }

    /// Inspects a type list.
    #[verifier::loop_isolation(false)]
    fn visit_tys(&mut self, ts: &Vec<Ty>) -> (u: ())
        ensures
            final(self)@.params == old(self)@.params,
            final(self)@.errors == spec_catch_tys(
                old(self)@.params,
                crate::tree::tys_view(ts@),
                old(self)@.errors,
            ),
        decreases ts,
    {
        let ghost full = crate::tree::tys_view(ts@);
        proof {
            crate::tree::lemma_tys_view(ts@);
            assert(full.skip(0) =~= full);
        }
        let n = ts.len();
        let mut i: usize = 0;
        while i < n
            invariant
                i <= n,
                self@.params == old(self)@.params,
                spec_catch_tys(old(self)@.params, full, old(self)@.errors) == spec_catch_tys(
                    self@.params,
                    full.skip(i as int),
                    self@.errors,
                ),
            decreases n - i,
        {
            proof {
                assert(full.skip(i as int)[0] == ty_view(ts@[i as int]));
            }
            self.visit_type(&ts[i]);
            i = i + 1;
            proof {
                assert(full.skip(i - 1).drop_first() =~= full.skip(i as int));
            }
        }
        proof {
            assert(full.skip(n as int) =~= Seq::<TyV>::empty());
        }
    }

    /// Inspects an optional type.
    fn visit_opt_ty(&mut self, t: &Option<Box<Ty>>) -> (u: ())
        ensures
            final(self)@.params == old(self)@.params,
            final(self)@.errors == spec_catch_opt_ty(
                old(self)@.params,
                crate::tree::opt_ty_view(*t),
                old(self)@.errors,
            ),
        decreases t,
    {
        match t {
            Some(b) => {
                self.visit_type(b);
            },
            None => {},
        }
    }
}

// ---------------------------------------------------------------------------
// Whole-signature validation
// ---------------------------------------------------------------------------
/// The catcher's walk over a parameter list; only typed parameters carry a
/// type to inspect.
pub open spec fn spec_catch_params(ps: Seq<Seq<char>>, params: Seq<ParamV>, errs: Seq<DiagV>) -> Seq<
    DiagV,
>
    decreases params,
{
    if params.len() == 0 {
        errs
    } else {
        let head = match params[0] {
            ParamV::Typed(tp) => spec_catch_ty(ps, tp.ty, errs),
            ParamV::Receiver => errs,
        };
        spec_catch_params(ps, params.drop_first(), head)
    }
}

/// Whether a function may be a test case at all, and every use of its own
/// type or constant generic parameters inside its signature: a `const`
/// function, a foreign calling convention and variadic arguments are each a
/// single hard error; otherwise every offending generic-parameter use is
/// reported, together.
pub open spec fn spec_validate(f: FnDeclV) -> Result<(), Seq<DiagV>> {
    if f.constness {
        Err(seq![DiagV::ConstFn { ident: f.ident }])
    } else if f.abi {
        Err(seq![DiagV::ForeignAbi { ident: f.ident }])
    } else if f.variadic {
        Err(seq![DiagV::Variadic { ident: f.ident }])
    } else {
        let ps = spec_param_names(f.generics.params);
        let errs = spec_catch_output(ps, f.output, spec_catch_params(ps, f.inputs, Seq::empty()));
        if errs.len() == 0 {
            Ok(())
        } else {
            Err(errs)
        }
    }
}

/// The catcher's walk over a return type.
pub open spec fn spec_catch_output(ps: Seq<Seq<char>>, t: Option<TyV>, errs: Seq<DiagV>) -> Seq<
    DiagV,
> {
    match t {
        Some(ty) => spec_catch_ty(ps, ty, errs),
        None => errs,
    }
}

/// Validates a function's signature as `spec_validate` says.
#[verifier::loop_isolation(false)]
fn validate(f: &FnDecl) -> (r: Result<(), ErrorRecord>)
    ensures
        match r {
            Ok(_) => spec_validate(f@) is Ok,
            Err(e) => spec_validate(f@) matches Err(ds) && e@ == ds,
        },
{
    if f.constness {
        return Err(ErrorRecord::single(Diag::ConstFn { ident: f.ident.clone() }));
    }
    if f.abi {
        return Err(ErrorRecord::single(Diag::ForeignAbi { ident: f.ident.clone() }));
    }
    if f.variadic {
        return Err(ErrorRecord::single(Diag::Variadic { ident: f.ident.clone() }));
    }
    let mut catcher = GenericParamCatcher::new(&f.generics);
    let ghost ps = catcher@.params;
    let ghost full = params_view(f.inputs@);
    proof {
        assert(full.skip(0) =~= full);
    }
    let n = f.inputs.len();
    let mut i: usize = 0;
    while i < n
        invariant
            i <= n,
            catcher@.params == ps,
            spec_catch_params(ps, full, Seq::empty()) == spec_catch_params(
                ps,
                full.skip(i as int),
                catcher@.errors,
            ),
        decreases n - i,
    {
        proof {
            assert(full.skip(i as int)[0] == f.inputs@[i as int]@);
        }
        match &f.inputs[i] {
            Param::Typed(tp) => {
                catcher.visit_type(&tp.ty);
            },
            Param::Receiver => {},
        }
        i = i + 1;
        proof {
            assert(full.skip(i - 1).drop_first() =~= full.skip(i as int));
        }
    }
    proof {
        assert(full.skip(n as int) =~= Seq::<ParamV>::empty());
    }
    match &f.output {
        Some(ty) => {
            catcher.visit_type(ty);
        },
        None => {},
    }
    let GenericParamCatcher { generic_params: _, errors } = catcher;
    errors.check()
}

// ---------------------------------------------------------------------------
// Building the canonical signature
// ---------------------------------------------------------------------------
/// The resolver's starting state for a parameter list.
pub open spec fn spec_input_collector() -> CollectorV {
    CollectorV {
        lifetimes: Seq::empty(),
        mode: ModeV::Input,
        bound: Seq::empty(),
        errors: Seq::empty(),
    }
}

/// What extraction does to a parameter list, parameter by parameter: the
/// first parameter that is not a plain named binding stops it; otherwise
/// every parameter's type is resolved in input mode, and the resolver state
/// is threaded through.
pub open spec fn spec_build_args(c: CollectorV, params: Seq<ParamV>) -> Result<
    (CollectorV, Seq<TestFnArgV>),
    DiagV,
>
    decreases params,
{
    if params.len() == 0 {
        Ok((c, Seq::empty()))
    } else {
        match params[0] {
            ParamV::Receiver => Err(DiagV::PatternReceiver),
            ParamV::Typed(tp) => match tp.pat {
                PatV::Ident(pi) => {
                    if pi.by_ref || pi.has_subpat || pi.has_attrs {
                        Err(DiagV::PatternUnsupportedFeatures)
                    } else {
                        let (c1, fld) = spec_visit_ty(c, tp.ty);
                        let arg = TestFnArgV {
                            attrs: tp.attrs,
                            ident: pi.ident,
                            arg_ty: tp.ty,
                            field_ty: fld,
                        };
                        match spec_build_args(c1, params.drop_first()) {
                            Ok((c2, rest)) => Ok((c2, seq![arg] + rest)),
                            Err(d) => Err(d),
                        }
                    }
                },
                PatV::Wild => Err(DiagV::PatternWildcard),
                PatV::Other => Err(DiagV::PatternUnsupported),
            },
        }
    }
}

/// What extraction makes of a whole parameter list: a bad parameter pattern
/// is the one error reported; otherwise the resolver's ambiguity errors, all
/// together; otherwise the canonical parameter list with the input lifetime
/// set.
pub open spec fn spec_input_build(params: Seq<ParamV>) -> Result<TestInputSignatureV, Seq<DiagV>> {
    match spec_build_args(spec_input_collector(), params) {
        Err(d) => Err(seq![d]),
        Ok((c, args)) => if c.errors.len() > 0 {
            Err(c.errors)
        } else {
            Ok(
                TestInputSignatureV {
                    item: TestSignatureItemV { lifetimes: c.lifetimes },
                    args,
                },
            )
        },
    }
}

impl TestInputSignature {
    /// Extracts and normalizes a parameter list as `spec_input_build` says.
    #[verifier::loop_isolation(false)]
    pub fn try_build(inputs: &Vec<Param>) -> (r: Result<TestInputSignature, ErrorRecord>)
        ensures
            match r {
                Ok(s) => spec_input_build(params_view(inputs@)) matches Ok(v) && s@ == v,
                Err(e) => spec_input_build(params_view(inputs@)) matches Err(ds) && e@ == ds,
            },
    {
        let mut collector = LifetimeCollector::new(LifetimeSubstMode::Input);
        let ghost c0 = collector@;
        proof {
            assert(c0 =~= spec_input_collector());
        }
        let ghost full = params_view(inputs@);
        proof {
            assert(full.skip(0) =~= full);
        }
        let mut args: Vec<TestFnArg> = Vec::new();
        let n = inputs.len();
        let mut i: usize = 0;
        while i < n
            invariant
                i <= n,
                spec_build_args(c0, full) == (match spec_build_args(
                    collector@,
                    full.skip(i as int),
                ) {
                    Ok((cf, rest)) => Ok::<_, DiagV>(
                        (cf, test_fn_args_view(args@) + rest),
                    ),
                    Err(d) => Err(d),
                }),
            decreases n - i,
        {
            proof {
                assert(full.skip(i as int)[0] == inputs@[i as int]@);
            }
            let ghost args_pre = args@;
            match &inputs[i] {
                Param::Receiver => {
                    return Err(ErrorRecord::single(Diag::PatternReceiver));
                },
                Param::Typed(tp) => match &tp.pat {
                    Pat::Ident(pi) => {
                        if pi.by_ref || pi.has_subpat || pi.has_attrs {
                            return Err(ErrorRecord::single(Diag::PatternUnsupportedFeatures));
                        }
                        let field_ty = collector.visit_type(&tp.ty);
                        args.push(
                            TestFnArg {
                                attrs: clone_attrs(&tp.attrs),
                                ident: pi.ident.clone(),
                                arg_ty: clone_ty(&tp.ty),
                                field_ty,
                            },
                        );
                    },
                    Pat::Wild => {
                        return Err(ErrorRecord::single(Diag::PatternWildcard));
                    },
                    Pat::Other => {
                        return Err(ErrorRecord::single(Diag::PatternUnsupported));
                    },
                },
            }
            i = i + 1;
            proof {
                assert(full.skip(i - 1).drop_first() =~= full.skip(i as int));
                assert(test_fn_args_view(args@) =~= test_fn_args_view(args_pre).push(
                    args@[args@.len() - 1]@,
                ));
                match spec_build_args(collector@, full.skip(i as int)) {
                    Ok(p) => {
                        assert(test_fn_args_view(args@) + p.1 =~= test_fn_args_view(args_pre) + (
                        seq![args@[args@.len() - 1]@] + p.1));
                    },
                    Err(_) => {},
                }
            }
        }
        proof {
            assert(full.skip(n as int) =~= Seq::<ParamV>::empty());
            match spec_build_args(collector@, full.skip(n as int)) {
                Ok(p) => {
                    assert(test_fn_args_view(args@) + p.1 =~= test_fn_args_view(args@));
                },
                Err(_) => {},
            }
        }
        match collector.validate() {
            Ok(lifetimes) => Ok(
                TestInputSignature { item: TestSignatureItem { lifetimes }, args },
            ),
            Err(e) => Err(e),
        }
    }
}

/// The substitution mode a return type is resolved in: output mode with the
/// one input lifetime where exactly one exists, fail mode otherwise.
pub open spec fn spec_return_mode(input_ls: Seq<LtV>) -> ModeV {
    if input_ls.len() == 1 {
        ModeV::Output(input_ls[0])
    } else {
        ModeV::Fail
    }
}

/// What extraction makes of a return type, given the input lifetime set: the
/// resolved type and the return-position lifetime set, or the resolver's
/// ambiguity errors, all together.
pub open spec fn spec_return_build(t: TyV, input_ls: Seq<LtV>) -> Result<
    TestReturnSignatureV,
    Seq<DiagV>,
> {
    let c0 = CollectorV {
        lifetimes: Seq::empty(),
        mode: spec_return_mode(input_ls),
        bound: Seq::empty(),
        errors: Seq::empty(),
    };
    let (c1, t1) = spec_visit_ty(c0, t);
    if c1.errors.len() > 0 {
        Err(c1.errors)
    } else {
        Ok(TestReturnSignatureV { item: TestSignatureItemV { lifetimes: c1.lifetimes }, ty: t1 })
    }
}

impl TestReturnSignature {
    /// Extracts and normalizes a return type as `spec_return_build` says.
    pub fn try_build(ty: &Ty, input_lifetimes: &Vec<Lifetime>) -> (r: Result<
        TestReturnSignature,
        ErrorRecord,
    >)
        ensures
            match r {
                Ok(s) => spec_return_build(ty@, lts_view(input_lifetimes@)) matches Ok(v) && s@
                    == v,
                Err(e) => spec_return_build(ty@, lts_view(input_lifetimes@)) matches Err(ds) && e@
                    == ds,
            },
    {
        let mode = if input_lifetimes.len() == 1 {
            LifetimeSubstMode::Output(input_lifetimes[0].clone_lt())
        } else {
            LifetimeSubstMode::Fail
        };
        let mut collector = LifetimeCollector::new(mode);
        proof {
            assert(collector@ =~= (CollectorV {
                lifetimes: Seq::empty(),
                mode: spec_return_mode(lts_view(input_lifetimes@)),
                bound: Seq::empty(),
                errors: Seq::empty(),
            }));
        }
        let resolved = collector.visit_type(ty);
        match collector.validate() {
            Ok(lifetimes) => Ok(
                TestReturnSignature { item: TestSignatureItem { lifetimes }, ty: resolved },
            ),
            Err(e) => Err(e),
        }
    }
}

/// The union of two lifetime sets: the first, followed by the members of the
/// second not already present, in their order.
pub open spec fn spec_union_lts(a: Seq<LtV>, b: Seq<LtV>) -> Seq<LtV>
    decreases b,
{
    if b.len() == 0 {
        a
    } else {
        spec_union_lts(
            if a.contains(b[0]) {
                a
            } else {
                a.push(b[0])
            },
            b.drop_first(),
        )
    }
}

/// Unites two lifetime sets as `spec_union_lts` says.
#[verifier::loop_isolation(false)]
pub(crate) fn union_lts(a: &Vec<Lifetime>, b: &Vec<Lifetime>) -> (r: Vec<Lifetime>)
    ensures
        lts_view(r@) == spec_union_lts(lts_view(a@), lts_view(b@)),
{
    let ghost full = lts_view(b@);
    proof {
        assert(full.skip(0) =~= full);
    }
    let mut out = clone_lifetimes(a);
    let n = b.len();
    let mut i: usize = 0;
    while i < n
        invariant
            i <= n,
            spec_union_lts(lts_view(a@), full) == spec_union_lts(
                lts_view(out@),
                full.skip(i as int),
            ),
        decreases n - i,
    {
        proof {
            assert(full.skip(i as int)[0] == b@[i as int]@);
        }
        let ghost out_pre = out@;
        if !contains_lt(&out, &b[i]) {
            out.push(b[i].clone_lt());
            proof {
                assert(lts_view(out@) =~= lts_view(out_pre).push(b@[i as int]@));
            }
        }
        i = i + 1;
        proof {
            assert(full.skip(i - 1).drop_first() =~= full.skip(i as int));
        }
    }
    proof {
        assert(full.skip(n as int) =~= Seq::<LtV>::empty());
    }
    out
}

/// Which declared lifetime parameters survive: the ones the resolved
/// signature uses, in declaration order; a used lifetime with bounds is the
/// one error, checked first among the parameters and then among the
/// `where`-clause predicates.
pub open spec fn spec_filter_params(ps: Seq<GenParamV>, used: Seq<LtV>) -> Result<Seq<LtV>, DiagV>
    decreases ps,
{
    if ps.len() == 0 {
        Ok(Seq::empty())
    } else {
        match ps[0] {
            GenParamV::Lifetime(d) => if used.contains(d.lifetime) {
                if d.bounds.len() > 0 {
                    Err(DiagV::LifetimeBounds)
                } else {
                    match spec_filter_params(ps.drop_first(), used) {
                        Ok(ls) => Ok(seq![d.lifetime] + ls),
                        Err(e) => Err(e),
                    }
                }
            } else {
                spec_filter_params(ps.drop_first(), used)
            },
            _ => spec_filter_params(ps.drop_first(), used),
        }
    }
}

/// The first bounded-and-used lifetime among the `where`-clause predicates,
/// if any.
pub open spec fn spec_check_where(preds: Seq<WherePredV>, used: Seq<LtV>) -> Option<DiagV>
    decreases preds,
{
    if preds.len() == 0 {
        None
    } else {
        match preds[0] {
            WherePredV::Lifetime(d) => if used.contains(d.lifetime) && d.bounds.len() > 0 {
                Some(DiagV::LifetimeBounds)
            } else {
                spec_check_where(preds.drop_first(), used)
            },
            WherePredV::Other(_) => spec_check_where(preds.drop_first(), used),
        }
    }
}

/// What lifetime filtering makes of a function's generics.
pub open spec fn spec_filter_fn_lifetimes(g: GenericsV, used: Seq<LtV>) -> Result<Seq<LtV>, DiagV> {
    match spec_filter_params(g.params, used) {
        Err(e) => Err(e),
        Ok(ls) => match spec_check_where(g.where_preds, used) {
            Some(d) => Err(d),
            None => Ok(ls),
        },
    }
}

/// Refuses lifetime bounds on a used lifetime declaration.
fn validate_lifetime_def(bounds: &Vec<Lifetime>) -> (r: Result<(), ErrorRecord>)
    ensures
        match r {
            Ok(_) => bounds@.len() == 0,
            Err(e) => bounds@.len() > 0 && e@ == seq![DiagV::LifetimeBounds],
        },
{
    if bounds.len() == 0 {
        Ok(())
    } else {
        Err(ErrorRecord::single(Diag::LifetimeBounds))
    }
}

/// Filters a function's declared lifetime parameters down to the used ones
/// as `spec_filter_fn_lifetimes` says.
#[verifier::loop_isolation(false)]
fn filter_fn_lifetimes(generics: &Generics, used: &Vec<Lifetime>) -> (r: Result<
    Vec<Lifetime>,
    ErrorRecord,
>)
    ensures
        match r {
            Ok(ls) => spec_filter_fn_lifetimes(generics@, lts_view(used@)) matches Ok(v)
                && lts_view(ls@) == v,
            Err(e) => spec_filter_fn_lifetimes(generics@, lts_view(used@)) matches Err(d) && e@
                == seq![d],
        },
{
    let ghost full = generics@.params;
    let ghost used_v = lts_view(used@);
    proof {
        assert(full.skip(0) =~= full);
    }
    let mut out: Vec<Lifetime> = Vec::new();
    let n = generics.params.len();
    let mut i: usize = 0;
    while i < n
        invariant
            i <= n,
            spec_filter_params(full, used_v) == (match spec_filter_params(
                full.skip(i as int),
                used_v,
            ) {
                Ok(ls) => Ok::<_, DiagV>(lts_view(out@) + ls),
                Err(d) => Err(d),
            }),
        decreases n - i,
    {
        proof {
            assert(full.skip(i as int)[0] == generics.params@[i as int]@);
        }
        let ghost out_pre = out@;
        match &generics.params[i] {
            GenParam::Lifetime(d) => {
                if contains_lt(used, &d.lifetime) {
                    match validate_lifetime_def(&d.bounds) {
                        Ok(_) => {
                            out.push(d.lifetime.clone_lt());
                            proof {
                                assert(lts_view(out@) =~= lts_view(out_pre).push(d.lifetime@));
                            }
                        },
                        Err(e) => {
                            return Err(e);
                        },
                    }
                }
            },
            _ => {},
        }
        i = i + 1;
        proof {
            assert(full.skip(i - 1).drop_first() =~= full.skip(i as int));
            if out@.len() > out_pre.len() {
                match spec_filter_params(full.skip(i as int), used_v) {
                    Ok(ls) => {
                        assert(lts_view(out_pre) + (seq![lts_view(out@)[out@.len() - 1]] + ls)
                            =~= lts_view(out@) + ls);
                    },
                    Err(_) => {},
                }
            }
        }
    }
    proof {
        assert(full.skip(n as int) =~= Seq::<GenParamV>::empty());
        match spec_filter_params(full.skip(n as int), used_v) {
            Ok(ls) => {
                assert(lts_view(out@) + ls =~= lts_view(out@));
            },
            Err(_) => {},
        }
    }
    let ghost preds = generics@.where_preds;
    proof {
        assert(preds.skip(0) =~= preds);
    }
    let m = generics.where_preds.len();
    let mut j: usize = 0;
    while j < m
        invariant
            j <= m,
            spec_check_where(preds, used_v) == spec_check_where(preds.skip(j as int), used_v),
        decreases m - j,
    {
        proof {
            assert(preds.skip(j as int)[0] == generics.where_preds@[j as int]@);
        }
        match &generics.where_preds[j] {
            WherePred::Lifetime(d) => {
                if contains_lt(used, &d.lifetime) {
                    match validate_lifetime_def(&d.bounds) {
                        Ok(_) => {},
                        Err(e) => {
                            return Err(e);
                        },
                    }
                }
            },
            WherePred::Other(_) => {},
        }
        j = j + 1;
        proof {
            assert(preds.skip(j - 1).drop_first() =~= preds.skip(j as int));
        }
    }
    proof {
        assert(preds.skip(m as int) =~= Seq::<WherePredV>::empty());
    }
    Ok(out)
}

/// What extraction makes of a whole function: validation first, then the
/// parameter list, then the return type resolved against the input lifetime
/// set, then the function's lifetime parameters filtered against the union
/// of both lifetime sets.
pub open spec fn spec_signature_build(f: FnDeclV) -> Result<TestFnSignatureV, Seq<DiagV>> {
    match spec_validate(f) {
        Err(ds) => Err(ds),
        Ok(_) => match spec_input_build(f.inputs) {
            Err(ds) => Err(ds),
            Ok(input) => {
                let output_r = match f.output {
                    None => Ok(spec_unit_return()),
                    Some(t) => spec_return_build(t, input.item.lifetimes),
                };
                match output_r {
                    Err(ds) => Err(ds),
                    Ok(output) => {
                        let all = spec_union_lts(input.item.lifetimes, output.item.lifetimes);
                        match spec_filter_fn_lifetimes(f.generics, all) {
                            Err(d) => Err(seq![d]),
                            Ok(lps) => Ok(
                                TestFnSignatureV { input, output, lifetime_params: lps },
                            ),
                        }
                    },
                }
            },
        },
    }
}

impl TestFnSignature {
    /// Extracts, validates and normalizes a function's whole signature as
    /// `spec_signature_build` says.
    pub fn try_build(item: &FnDecl) -> (r: Result<TestFnSignature, ErrorRecord>)
        ensures
            match r {
                Ok(s) => spec_signature_build(item@) matches Ok(v) && s@ == v,
                Err(e) => spec_signature_build(item@) matches Err(ds) && e@ == ds,
            },
    {
        match validate(item) {
            Ok(_) => {},
            Err(e) => {
                return Err(e);
            },
        }
        let input = match TestInputSignature::try_build(&item.inputs) {
            Ok(s) => s,
            Err(e) => {
                return Err(e);
            },
        };
        let output = match &item.output {
            None => TestReturnSignature::unit(),
            Some(ty) => match TestReturnSignature::try_build(ty, &input.item.lifetimes) {
                Ok(s) => s,
                Err(e) => {
                    return Err(e);
                },
            },
        };
        let all = union_lts(&input.item.lifetimes, &output.item.lifetimes);
        let lifetime_params = match filter_fn_lifetimes(&item.generics, &all) {
            Ok(ls) => ls,
            Err(e) => {
                return Err(e);
            },
        };
        Ok(TestFnSignature { input, output, lifetime_params })
    }
}

// ---------------------------------------------------------------------------
// Laws of lifetime resolution
// ---------------------------------------------------------------------------
/// For a function taking one reference parameter with an elided lifetime and
/// returning a reference with a placeholder lifetime, the resolver
/// substitutes the same synthesized lifetime in both positions: the one
/// minted for the parameter becomes the whole input lifetime set, and the
/// placeholder resolves to it.  The referent types may be anything the walk
/// leaves untouched, that is, anything without a free lifetime position.
pub proof fn lemma_placeholder_resolves_to_input(
    attrs: Seq<AttrV>,
    name: Seq<char>,
    m1: bool,
    elem1: Box<TyV>,
    m2: bool,
    elem2: Box<TyV>,
)
    requires
        forall|c: CollectorV| #[trigger] spec_visit_ty(c, *elem1) == (c, *elem1),
        forall|c: CollectorV| #[trigger] spec_visit_ty(c, *elem2) == (c, *elem2),
    ensures
        ({
            let param = ParamV::Typed(
                crate::tree::TypedParamV {
                    attrs,
                    pat: PatV::Ident(
                        crate::tree::PatIdentV {
                            ident: name,
                            mutable: false,
                            by_ref: false,
                            has_subpat: false,
                            has_attrs: false,
                        },
                    ),
                    ty: TyV::Reference(
                        crate::tree::RefTyV { lifetime: None, mutable: m1, elem: elem1 },
                    ),
                },
            );
            let ret = TyV::Reference(
                crate::tree::RefTyV {
                    lifetime: Some(crate::tree::LtV::Placeholder),
                    mutable: m2,
                    elem: elem2,
                },
            );
            &&& spec_input_build(seq![param]) matches Ok(inp)
                && inp.item.lifetimes == seq![crate::tree::LtV::Synthetic(0)]
                && inp.args[0].field_ty == TyV::Reference(
                crate::tree::RefTyV {
                    lifetime: Some(crate::tree::LtV::Synthetic(0)),
                    mutable: m1,
                    elem: elem1,
                },
            )
            &&& spec_return_build(ret, seq![crate::tree::LtV::Synthetic(0)]) matches Ok(out)
                && out.ty == TyV::Reference(
                crate::tree::RefTyV {
                    lifetime: Some(crate::tree::LtV::Synthetic(0)),
                    mutable: m2,
                    elem: elem2,
                },
            )
        }),
{
    let param = ParamV::Typed(
        crate::tree::TypedParamV {
            attrs,
            pat: PatV::Ident(
                crate::tree::PatIdentV {
                    ident: name,
                    mutable: false,
                    by_ref: false,
                    has_subpat: false,
                    has_attrs: false,
                },
            ),
            ty: TyV::Reference(crate::tree::RefTyV { lifetime: None, mutable: m1, elem: elem1 }),
        },
    );
    let c0 = spec_input_collector();
    let (c1, l1) = crate::lifetimes::spec_mint(c0);
    assert(l1 == crate::tree::LtV::Synthetic(0));
    assert(c1.lifetimes =~= seq![crate::tree::LtV::Synthetic(0)]);
    assert(spec_visit_ty(c1, *elem1) == (c1, *elem1));
    assert(seq![param].drop_first() =~= Seq::<ParamV>::empty());
    assert(seq![param][0] == param);
    assert(Box::new(*elem1) == elem1);
    assert(spec_visit_ty(
        c0,
        TyV::Reference(crate::tree::RefTyV { lifetime: None, mutable: m1, elem: elem1 }),
    ) == (
        c1,
        TyV::Reference(
            crate::tree::RefTyV {
                lifetime: Some(crate::tree::LtV::Synthetic(0)),
                mutable: m1,
                elem: elem1,
            },
        ),
    ));
    assert(spec_build_args(c1, Seq::<ParamV>::empty()) == Ok::<
        (CollectorV, Seq<TestFnArgV>),
        DiagV,
    >((c1, Seq::empty())));
    match spec_build_args(c0, seq![param]) {
        Ok(p) => {
            assert(p.0 == c1);
            assert(p.1 =~= seq![
                TestFnArgV {
                    attrs,
                    ident: name,
                    arg_ty: param->Typed_0.ty,
                    field_ty: TyV::Reference(
                        crate::tree::RefTyV {
                            lifetime: Some(crate::tree::LtV::Synthetic(0)),
                            mutable: m1,
                            elem: elem1,
                        },
                    ),
                },
            ]);
        },
        Err(_) => {
            assert(false);
        },
    }
    let ls = seq![crate::tree::LtV::Synthetic(0)];
    let cr0 = CollectorV {
        lifetimes: Seq::empty(),
        mode: spec_return_mode(ls),
        bound: Seq::empty(),
        errors: Seq::empty(),
    };
    assert(cr0.mode == ModeV::Output(crate::tree::LtV::Synthetic(0)));
    let cr1 = crate::lifetimes::spec_collect(cr0, crate::tree::LtV::Synthetic(0));
    assert(spec_visit_ty(cr1, *elem2) == (cr1, *elem2));
    assert(cr1.errors.len() == 0);
}

/// With anything but exactly one distinct input lifetime, a return type that
/// is a reference with a placeholder lifetime cannot be tied to an input:
/// extraction of the return type fails, whatever the referent, and the first
/// diagnostic is the placeholder ambiguity.
pub proof fn lemma_placeholder_ambiguous(m2: bool, elem2: Box<TyV>, input_ls: Seq<LtV>)
    requires
        input_ls.len() != 1,
    ensures
        ({
            let ret = TyV::Reference(
                crate::tree::RefTyV {
                    lifetime: Some(crate::tree::LtV::Placeholder),
                    mutable: m2,
                    elem: elem2,
                },
            );
            spec_return_build(ret, input_ls) matches Err(ds) && ds.len() >= 1 && ds[0]
                == DiagV::PlaceholderAmbiguous
        }),
{
    let cr0 = CollectorV {
        lifetimes: Seq::empty(),
        mode: spec_return_mode(input_ls),
        bound: Seq::empty(),
        errors: Seq::empty(),
    };
    assert(cr0.mode == ModeV::Fail);
    let (cr1, l1) = crate::lifetimes::spec_visit_lt(cr0, crate::tree::LtV::Placeholder);
    assert(cr1.errors =~= seq![DiagV::PlaceholderAmbiguous]);
    crate::lifetimes::lemma_visit_ty_kept(cr1, *elem2);
    let c2 = spec_visit_ty(cr1, *elem2).0;
    assert(c2.errors[0] == DiagV::PlaceholderAmbiguous) by {
        assert(c2.errors.take(cr1.errors.len() as int)[0] == c2.errors[0]);
    }
}

/// With anything but exactly one distinct input lifetime, a return type that
/// is a reference with an elided lifetime cannot be tied to an input:
/// extraction of the return type fails at once with the elision ambiguity
/// and nothing else, whatever the referent, which the failing walk never
/// enters.
pub proof fn lemma_elided_ambiguous(m2: bool, elem2: Box<TyV>, input_ls: Seq<LtV>)
    requires
        input_ls.len() != 1,
    ensures
        ({
            let ret = TyV::Reference(
                crate::tree::RefTyV { lifetime: None, mutable: m2, elem: elem2 },
            );
            spec_return_build(ret, input_ls) matches Err(ds) && ds == seq![
                DiagV::ElidedAmbiguous,
            ]
        }),
{
    let cr0 = CollectorV {
        lifetimes: Seq::empty(),
        mode: spec_return_mode(input_ls),
        bound: Seq::empty(),
        errors: Seq::empty(),
    };
    assert(cr0.mode == ModeV::Fail);
    assert(crate::lifetimes::spec_record(cr0, DiagV::ElidedAmbiguous).errors =~= seq![
        DiagV::ElidedAmbiguous,
    ]);
}

/// Whether a segment carries no arguments at all.
fn seg_has_no_args(s: &PathSeg) -> (r: bool)
    ensures
        r == spec_seg_no_args(crate::tree::pathseg_view(*s)),
{
    match &s.args {
        SegArgs::Angle(gs) => {
            let r = gs.len() == 0;
            proof {
                crate::tree::lemma_genargs_view(gs@);
                if gs@.len() == 0 {
                    assert(crate::tree::genargs_view(gs@) =~= Seq::<crate::tree::GenArgV>::empty());
                }
            }
            r
        },
        SegArgs::Paren(_) => false,
    }
}

} // verus!
