//! The lifetime resolver.
//!
//! A scoped walk over a type expression that, in input mode, mints a fresh
//! synthetic lifetime for every elided reference lifetime and collects every
//! named one; in output mode, substitutes the author's placeholder lifetime
//! and elided reference lifetimes with the one unambiguous input lifetime;
//! and in fail mode, reports every elided or placeholder lifetime as an
//! ambiguity.  The universal lifetime is never collected.  A form with its
//! own lifetime binder opens a local scope: for bare function pointers and
//! call-style trait signatures, collection and substitution are suspended
//! entirely and the subtree is left untouched; for trait bounds, the names
//! bound by the binder are tracked so that their occurrences are recognized
//! as locally bound, and the tracked set is restored exactly on leaving the
//! bound.

use vstd::prelude::*;

use crate::error::Diag;
use crate::error::DiagV;
use crate::error::ErrorRecord;
use crate::tree::clone_lifetimes;
use crate::tree::genarg_view;
use crate::tree::genargs_view;
use crate::tree::lemma_genargs_view;
use crate::tree::lemma_pathsegs_view;
use crate::tree::lemma_traitbounds_view;
use crate::tree::lemma_tys_view;
use crate::tree::lts_view;
use crate::tree::opt_ty_view;
use crate::tree::pathseg_view;
use crate::tree::pathsegs_view;
use crate::tree::traitbound_view;
use crate::tree::traitbounds_view;
use crate::tree::ty_view;
use crate::tree::tys_view;
use crate::tree::GenArg;
use crate::tree::GenArgV;
use crate::tree::Lifetime;
use crate::tree::LtV;
use crate::tree::PathSeg;
use crate::tree::PathSegV;
use crate::tree::RefTy;
use crate::tree::RefTyV;
use crate::tree::SegArgs;
use crate::tree::SegArgsV;
use crate::tree::TraitBoundTy;
use crate::tree::TraitBoundTyV;
use crate::tree::Ty;
use crate::tree::TyPath;
use crate::tree::TyPathV;
use crate::tree::TyV;

verus! {

/// How the walk treats elided and placeholder lifetimes.
pub enum LifetimeSubstMode {
    /// Mint a synthetic lifetime for every elided reference lifetime;
    /// a placeholder is an error.
    Input,
    /// Substitute placeholders and elided reference lifetimes with the given
    /// lifetime.
    Output(Lifetime),
    /// Any elided or placeholder lifetime is an ambiguity error.
    Fail,
}

/// Ghost form of the substitution mode.
#[verifier::ext_equal]
pub ghost enum ModeV {
    Input,
    Output(LtV),
    Fail,
}

impl View for LifetimeSubstMode {
    type V = ModeV;

    open spec fn view(&self) -> ModeV {
        match *self {
            LifetimeSubstMode::Input => ModeV::Input,
            LifetimeSubstMode::Output(l) => ModeV::Output(l@),
            LifetimeSubstMode::Fail => ModeV::Fail,
        }
    }
}

/// The resolver's state: the lifetimes collected so far in the order first
/// seen, the substitution mode, the names bound by enclosing local binders,
/// and the ambiguity errors found.
pub struct LifetimeCollector {
    lifetimes: Vec<Lifetime>,
    subst_mode: LifetimeSubstMode,
    bound_lifetimes: Vec<Lifetime>,
    errors: ErrorRecord,
}

/// Ghost form of the resolver's state.
#[verifier::ext_equal]
pub ghost struct CollectorV {
    pub lifetimes: Seq<LtV>,
    pub mode: ModeV,
    pub bound: Seq<LtV>,
    pub errors: Seq<DiagV>,
}

impl View for LifetimeCollector {
    type V = CollectorV;

    closed spec fn view(&self) -> CollectorV {
        CollectorV {
            lifetimes: lts_view(self.lifetimes@),
            mode: self.subst_mode@,
            bound: lts_view(self.bound_lifetimes@),
            errors: self.errors@,
        }
    }
}

/// Collection of one lifetime: added once, unless locally bound.
pub open spec fn spec_collect(c: CollectorV, l: LtV) -> CollectorV {
    if c.lifetimes.contains(l) || c.bound.contains(l) {
        c
    } else {
        CollectorV { lifetimes: c.lifetimes.push(l), ..c }
    }
}

/// Minting of a fresh synthetic lifetime, named by the count of lifetimes
/// collected so far.
pub open spec fn spec_mint(c: CollectorV) -> (CollectorV, LtV) {
    let l = LtV::Synthetic(c.lifetimes.len());
    (CollectorV { lifetimes: c.lifetimes.push(l), ..c }, l)
}

/// An error recorded in passing.
pub open spec fn spec_record(c: CollectorV, d: DiagV) -> CollectorV {
    CollectorV { errors: c.errors.push(d), ..c }
}

/// What the walk does at one written lifetime: the universal lifetime is
/// left alone; a placeholder resolves in output mode and is an ambiguity
/// otherwise; any other lifetime is collected.
pub open spec fn spec_visit_lt(c: CollectorV, l: LtV) -> (CollectorV, LtV) {
    match l {
        LtV::Immortal => (c, l),
        LtV::Placeholder => match c.mode {
            ModeV::Output(x) => (spec_collect(c, x), x),
            _ => (spec_record(c, DiagV::PlaceholderAmbiguous), l),
        },
        _ => (spec_collect(c, l), l),
    }
}

/// What the walk does at one type expression.
pub open spec fn spec_visit_ty(c: CollectorV, t: TyV) -> (CollectorV, TyV)
    decreases t,
{
    match t {
        TyV::Path(p) => {
            let (c1, p1) = spec_visit_typath(c, p);
            (c1, TyV::Path(p1))
        },
        TyV::Reference(r) => match r.lifetime {
            Some(l) => {
                let (c1, l1) = spec_visit_lt(c, l);
                let (c2, e1) = spec_visit_ty(c1, *r.elem);
                (
                    c2,
                    TyV::Reference(
                        RefTyV { lifetime: Some(l1), mutable: r.mutable, elem: Box::new(e1) },
                    ),
                )
            },
            None => match c.mode {
                ModeV::Input => {
                    let (c1, l1) = spec_mint(c);
                    let (c2, e1) = spec_visit_ty(c1, *r.elem);
                    (
                        c2,
                        TyV::Reference(
                            RefTyV { lifetime: Some(l1), mutable: r.mutable, elem: Box::new(e1) },
                        ),
                    )
                },
                ModeV::Output(x) => {
                    let c1 = spec_collect(c, x);
                    let (c2, e1) = spec_visit_ty(c1, *r.elem);
                    (
                        c2,
                        TyV::Reference(
                            RefTyV { lifetime: Some(x), mutable: r.mutable, elem: Box::new(e1) },
                        ),
                    )
                },
                ModeV::Fail => (spec_record(c, DiagV::ElidedAmbiguous), t),
            },
        },
        // A bare function pointer forms its own lifetime inference scope:
        // collection and substitution are suspended for its whole subtree,
        // which stays untouched.
        TyV::BareFn(_) => (c, t),
        TyV::Tuple(ts) => {
            let (c1, ts1) = spec_visit_tys(c, ts);
            (c1, TyV::Tuple(ts1))
        },
        TyV::Slice(e) => {
            let (c1, e1) = spec_visit_ty(c, *e);
            (c1, TyV::Slice(Box::new(e1)))
        },
        TyV::TraitObject(bs) => {
            let (c1, bs1) = spec_visit_bounds(c, bs);
            (c1, TyV::TraitObject(bs1))
        },
        // Opaque text carries no lifetime position the walk reads.
        TyV::Opaque(_) => (c, t),
    }
}

/// The walk over a type list, threading the state left to right.
pub open spec fn spec_visit_tys(c: CollectorV, ts: Seq<TyV>) -> (CollectorV, Seq<TyV>)
    decreases ts,
{
    if ts.len() == 0 {
        (c, Seq::empty())
    } else {
        let (c1, t1) = spec_visit_ty(c, ts[0]);
        let (c2, rest) = spec_visit_tys(c1, ts.drop_first());
        (c2, seq![t1] + rest)
    }
}

/// The walk over an optional type.
pub open spec fn spec_visit_opt_ty(c: CollectorV, t: Option<Box<TyV>>) -> (CollectorV, Option<
    Box<TyV>,
>)
    decreases t,
{
    match t {
        Some(b) => {
            let (c1, t1) = spec_visit_ty(c, *b);
            (c1, Some(Box::new(t1)))
        },
        None => (c, None),
    }
}

/// The walk over a path type: the qualifying type first, then every
/// segment's arguments.
pub open spec fn spec_visit_typath(c: CollectorV, p: TyPathV) -> (CollectorV, TyPathV)
    decreases p,
{
    let (c1, q1) = spec_visit_qself(c, p.qself);
    let (c2, segs1) = spec_visit_segs(c1, p.segments);
    (c2, TyPathV { leading_colon: p.leading_colon, qself: q1, segments: segs1 })
}

/// The walk over an optional qualifying type.
pub open spec fn spec_visit_qself(c: CollectorV, q: Option<crate::tree::QSelfV>) -> (
    CollectorV,
    Option<crate::tree::QSelfV>,
)
    decreases q,
{
    match q {
        Some(qs) => {
            let (c1, t1) = spec_visit_ty(c, *qs.ty);
            (c1, Some(crate::tree::QSelfV { ty: Box::new(t1), position: qs.position }))
        },
        None => (c, None),
    }
}

/// The walk over a segment list.
pub open spec fn spec_visit_segs(c: CollectorV, ss: Seq<PathSegV>) -> (CollectorV, Seq<PathSegV>)
    decreases ss,
{
    if ss.len() == 0 {
        (c, Seq::empty())
    } else {
        let (c1, s1) = spec_visit_seg(c, ss[0]);
        let (c2, rest) = spec_visit_segs(c1, ss.drop_first());
        (c2, seq![s1] + rest)
    }
}

/// The walk over one segment: angle-bracketed arguments are visited; a
/// call-style trait signature forms its own lifetime inference scope and
/// stays untouched.
pub open spec fn spec_visit_seg(c: CollectorV, s: PathSegV) -> (CollectorV, PathSegV)
    decreases s,
{
    match s.args {
        SegArgsV::Angle(gs) => {
            let (c1, gs1) = spec_visit_genargs(c, gs);
            (c1, PathSegV { ident: s.ident, args: SegArgsV::Angle(gs1) })
        },
        SegArgsV::Paren(_) => (c, s),
    }
}

/// The walk over a generic-argument list.
pub open spec fn spec_visit_genargs(c: CollectorV, gs: Seq<GenArgV>) -> (CollectorV, Seq<GenArgV>)
    decreases gs,
{
    if gs.len() == 0 {
        (c, Seq::empty())
    } else {
        let (c1, g1) = spec_visit_genarg(c, gs[0]);
        let (c2, rest) = spec_visit_genargs(c1, gs.drop_first());
        (c2, seq![g1] + rest)
    }
}

/// The walk over one generic argument.
pub open spec fn spec_visit_genarg(c: CollectorV, g: GenArgV) -> (CollectorV, GenArgV)
    decreases g,
{
    match g {
        GenArgV::Lifetime(l) => {
            let (c1, l1) = spec_visit_lt(c, l);
            (c1, GenArgV::Lifetime(l1))
        },
        GenArgV::Ty(t) => {
            let (c1, t1) = spec_visit_ty(c, t);
            (c1, GenArgV::Ty(t1))
        },
        GenArgV::Konst(_) => (c, g),
    }
}

/// The walk over the bounds of a trait object.
pub open spec fn spec_visit_bounds(c: CollectorV, bs: Seq<TraitBoundTyV>) -> (CollectorV, Seq<
    TraitBoundTyV,
>)
    decreases bs,
{
    if bs.len() == 0 {
        (c, Seq::empty())
    } else {
        let (c1, b1) = spec_visit_bound(c, bs[0]);
        let (c2, rest) = spec_visit_bounds(c1, bs.drop_first());
        (c2, seq![b1] + rest)
    }
}

/// The walk over one trait bound: the names bound by its binder are tracked
/// while its path is visited, and the tracked set is restored exactly on
/// leaving.
pub open spec fn spec_visit_bound(c: CollectorV, b: TraitBoundTyV) -> (CollectorV, TraitBoundTyV)
    decreases b,
{
    let entered = CollectorV { bound: c.bound + b.binder, ..c };
    let (c1, p1) = spec_visit_typath(entered, b.path);
    (CollectorV { bound: c.bound, ..c1 }, TraitBoundTyV { binder: b.binder, path: p1 })
}

impl LifetimeCollector {
    /// A fresh resolver in the given mode.
    pub fn new(subst_mode: LifetimeSubstMode) -> (r: LifetimeCollector)
        ensures
            r@ == (CollectorV {
                lifetimes: Seq::empty(),
                mode: subst_mode@,
                bound: Seq::empty(),
                errors: Seq::empty(),
            }),
    {
        let r = LifetimeCollector {
            lifetimes: Vec::new(),
            subst_mode,
            bound_lifetimes: Vec::new(),
            errors: ErrorRecord::new(),
        };
        proof {
            assert(lts_view(r.lifetimes@) =~= Seq::<LtV>::empty());
            assert(lts_view(r.bound_lifetimes@) =~= Seq::<LtV>::empty());
            assert(r@ =~= (CollectorV {
                lifetimes: Seq::empty(),
                mode: subst_mode@,
                bound: Seq::empty(),
                errors: Seq::empty(),
            }));
        }
        r
    }

    /// Adds one lifetime to the collected set unless already present or
    /// locally bound.
    pub fn collect_lifetime(&mut self, l: &Lifetime)
        ensures
            final(self)@ == spec_collect(old(self)@, l@),
    {
        if !contains_lt(&self.lifetimes, l) && !contains_lt(&self.bound_lifetimes, l) {
            self.lifetimes.push(l.clone_lt());
            proof {
                assert(lts_view(self.lifetimes@) =~= lts_view(old(self).lifetimes@).push(l@));
                assert(self@ =~= spec_collect(old(self)@, l@));
            }
        } else {
            proof {
                assert(self@ =~= spec_collect(old(self)@, l@));
            }
        }
    }

    /// Mints the next synthetic lifetime and collects it.
    pub fn add_elided_lifetime(&mut self) -> (r: Lifetime)
        ensures
            final(self)@ == spec_mint(old(self)@).0,
            r@ == spec_mint(old(self)@).1,
    {
        let l = Lifetime::Synthetic(self.lifetimes.len());
        let r = l.clone_lt();
        self.lifetimes.push(l);
        proof {
            assert(lts_view(self.lifetimes@) =~= lts_view(old(self).lifetimes@).push(
                LtV::Synthetic(old(self).lifetimes@.len()),
            ));
            assert(self@ =~= spec_mint(old(self)@).0);
        }
        r
    }

    /// Records one ambiguity error.
    fn record(&mut self, d: Diag)
        ensures
            final(self)@ == spec_record(old(self)@, d@),
    {
        self.errors.add_error(d);
        proof {
            assert(self@ =~= spec_record(old(self)@, d@));
        }
    }

    /// Resolves one written lifetime.
    pub fn visit_lifetime(&mut self, l: &Lifetime) -> (r: Lifetime)
        ensures
            final(self)@ == spec_visit_lt(old(self)@, l@).0,
            r@ == spec_visit_lt(old(self)@, l@).1,
    {
        match l {
            Lifetime::Immortal => Lifetime::Immortal,
            Lifetime::Placeholder => {
                let subst = match &self.subst_mode {
                    LifetimeSubstMode::Output(x) => Some(x.clone_lt()),
                    _ => None,
                };
                match subst {
                    Some(x) => {
                        self.collect_lifetime(&x);
                        x
                    },
                    None => {
                        self.record(Diag::PlaceholderAmbiguous);
                        Lifetime::Placeholder
                    },
                }
            },
            _ => {
                self.collect_lifetime(l);
                l.clone_lt()
            },
        }
    }

    /// Ends the walk: the collected lifetimes, or every ambiguity found.
    pub fn validate(self) -> (r: Result<Vec<Lifetime>, ErrorRecord>)
        ensures
            match r {
                Ok(ls) => self@.errors.len() == 0 && lts_view(ls@) == self@.lifetimes,
                Err(e) => self@.errors.len() > 0 && e@ == self@.errors,
            },
    {
        let LifetimeCollector { lifetimes, subst_mode: _, bound_lifetimes: _, errors } = self;
        match errors.check() {
            Ok(_) => Ok(lifetimes),
            Err(e) => Err(e),
        }
    }
}

impl LifetimeCollector {
    /// The current mode as a value.
    fn mode_snapshot(&self) -> (m: LifetimeSubstMode)
        ensures
            m@ == self@.mode,
    {
        match &self.subst_mode {
            LifetimeSubstMode::Input => LifetimeSubstMode::Input,
            LifetimeSubstMode::Output(x) => LifetimeSubstMode::Output(x.clone_lt()),
            LifetimeSubstMode::Fail => LifetimeSubstMode::Fail,
        }
    }

    /// Resolves one type expression.
    pub fn visit_type(&mut self, t: &Ty) -> (r: Ty)
        ensures
            final(self)@ == spec_visit_ty(old(self)@, t@).0,
            r@ == spec_visit_ty(old(self)@, t@).1,
        decreases t,
    {
        match t {
            Ty::Path(p) => Ty::Path(self.visit_typath(p)),
            Ty::Reference(rf) => match &rf.lifetime {
                Some(l) => {
                    let l1 = self.visit_lifetime(l);
                    let e1 = self.visit_type(&rf.elem);
                    Ty::Reference(
                        RefTy { lifetime: Some(l1), mutable: rf.mutable, elem: Box::new(e1) },
                    )
                },
                None => {
                    let m = self.mode_snapshot();
                    match m {
                        LifetimeSubstMode::Input => {
                            let l1 = self.add_elided_lifetime();
                            let e1 = self.visit_type(&rf.elem);
                            Ty::Reference(
                                RefTy {
                                    lifetime: Some(l1),
                                    mutable: rf.mutable,
                                    elem: Box::new(e1),
                                },
                            )
                        },
                        LifetimeSubstMode::Output(x) => {
                            self.collect_lifetime(&x);
                            let e1 = self.visit_type(&rf.elem);
                            Ty::Reference(
                                RefTy { lifetime: Some(x), mutable: rf.mutable, elem: Box::new(e1) },
                            )
                        },
                        LifetimeSubstMode::Fail => {
                            self.record(Diag::ElidedAmbiguous);
                            crate::tree::clone_ty(t)
                        },
                    }
                },
            },
            // A bare function pointer forms its own lifetime inference scope:
            // the walk is suspended and the subtree stays untouched.
            Ty::BareFn(_) => crate::tree::clone_ty(t),
            Ty::Tuple(ts) => Ty::Tuple(self.visit_tys(ts)),
            Ty::Slice(e) => Ty::Slice(Box::new(self.visit_type(e))),
            Ty::TraitObject(bs) => Ty::TraitObject(self.visit_bounds(bs)),
            // Opaque text carries no lifetime position the walk reads.
            Ty::Opaque(_) => crate::tree::clone_ty(t),
        }
    }

    /// Resolves an optional type.
    pub fn visit_opt_ty(&mut self, t: &Option<Box<Ty>>) -> (r: Option<Box<Ty>>)
        ensures
            final(self)@ == spec_visit_opt_ty(old(self)@, opt_ty_view(*t)).0,
            opt_ty_view(r) == spec_visit_opt_ty(old(self)@, opt_ty_view(*t)).1,
        decreases t,
    {
        match t {
            Some(b) => Some(Box::new(self.visit_type(b))),
            None => None,
        }
    }

    /// Resolves every type of a list, left to right.
    #[verifier::loop_isolation(false)]
    pub fn visit_tys(&mut self, ts: &Vec<Ty>) -> (r: Vec<Ty>)
        ensures
            final(self)@ == spec_visit_tys(old(self)@, tys_view(ts@)).0,
            tys_view(r@) == spec_visit_tys(old(self)@, tys_view(ts@)).1,
        decreases ts,
    {
        let ghost full = tys_view(ts@);
        proof {
            lemma_tys_view(ts@);
            assert(full.skip(0) =~= full);
        }
        let mut out: Vec<Ty> = Vec::new();
        let n = ts.len();
        let mut i: usize = 0;
        while i < n
            invariant
                i <= n,
                spec_visit_tys(old(self)@, full).0 == spec_visit_tys(
                    self@,
                    full.skip(i as int),
                ).0,
                spec_visit_tys(old(self)@, full).1 == tys_view(out@) + spec_visit_tys(
                    self@,
                    full.skip(i as int),
                ).1,
            decreases n - i,
        {
            proof {
                assert(full.skip(i as int)[0] == ty_view(ts@[i as int]));
            }
            let ghost out_pre = out@;
            let t1 = self.visit_type(&ts[i]);
            out.push(t1);
            i = i + 1;
            proof {
                lemma_tys_view(out_pre);
                lemma_tys_view(out@);
                assert(tys_view(out@) =~= tys_view(out_pre).push(ty_view(out@[out@.len() - 1])));
                assert(full.skip(i - 1).drop_first() =~= full.skip(i as int));
                assert(tys_view(out@) + spec_visit_tys(self@, full.skip(i as int)).1 =~= tys_view(
                    out_pre,
                ) + (seq![ty_view(out@[out@.len() - 1])] + spec_visit_tys(
                    self@,
                    full.skip(i as int),
                ).1));
            }
        }
        proof {
            assert(full.skip(n as int) =~= Seq::<TyV>::empty());
            assert(tys_view(out@) + Seq::<TyV>::empty() =~= tys_view(out@));
        }
        out
    }

    /// Resolves a path type: the qualifying type, then every segment.
    #[verifier::loop_isolation(false)]
    pub fn visit_typath(&mut self, p: &TyPath) -> (r: TyPath)
        ensures
            final(self)@ == spec_visit_typath(old(self)@, p@).0,
            r@ == spec_visit_typath(old(self)@, p@).1,
        decreases p,
    {
        let q1 = match &p.qself {
            Some(qs) => Some(
                crate::tree::QSelf { ty: Box::new(self.visit_type(&qs.ty)), position: qs.position },
            ),
            None => None,
        };
        let ghost full = pathsegs_view(p.segments@);
        let ghost c_segs = self@;
        proof {
            lemma_pathsegs_view(p.segments@);
            assert(full.skip(0) =~= full);
        }
        let mut segs: Vec<PathSeg> = Vec::new();
        let n = p.segments.len();
        let mut i: usize = 0;
        while i < n
            invariant
                i <= n,
                spec_visit_segs(c_segs, full).0 == spec_visit_segs(self@, full.skip(i as int)).0,
                spec_visit_segs(c_segs, full).1 == pathsegs_view(segs@) + spec_visit_segs(
                    self@,
                    full.skip(i as int),
                ).1,
            decreases n - i,
        {
            proof {
                assert(full.skip(i as int)[0] == pathseg_view(p.segments@[i as int]));
            }
            let ghost segs_pre = segs@;
            let s1 = self.visit_seg(&p.segments[i]);
            segs.push(s1);
            i = i + 1;
            proof {
                lemma_pathsegs_view(segs_pre);
                lemma_pathsegs_view(segs@);
                assert(pathsegs_view(segs@) =~= pathsegs_view(segs_pre).push(
                    pathseg_view(segs@[segs@.len() - 1]),
                ));
                assert(full.skip(i - 1).drop_first() =~= full.skip(i as int));
                assert(pathsegs_view(segs@) + spec_visit_segs(self@, full.skip(i as int)).1
                    =~= pathsegs_view(segs_pre) + (seq![pathseg_view(segs@[segs@.len() - 1])]
                    + spec_visit_segs(self@, full.skip(i as int)).1));
            }
        }
        proof {
            assert(full.skip(n as int) =~= Seq::<PathSegV>::empty());
            assert(pathsegs_view(segs@) + Seq::<PathSegV>::empty() =~= pathsegs_view(segs@));
        }
        TyPath { leading_colon: p.leading_colon, qself: q1, segments: segs }
    }

    /// Resolves one path segment.
    pub fn visit_seg(&mut self, s: &PathSeg) -> (r: PathSeg)
        ensures
            final(self)@ == spec_visit_seg(old(self)@, pathseg_view(*s)).0,
            pathseg_view(r) == spec_visit_seg(old(self)@, pathseg_view(*s)).1,
        decreases s,
    {
        match &s.args {
            SegArgs::Angle(gs) => PathSeg {
                ident: s.ident.clone(),
                args: SegArgs::Angle(self.visit_genargs(gs)),
            },
            // A call-style trait signature forms its own lifetime inference
            // scope: the walk is suspended and the segment stays untouched.
            SegArgs::Paren(_) => crate::tree::clone_pathseg(s),
        }
    }

    /// Resolves every generic argument of a list, left to right.
    #[verifier::loop_isolation(false)]
    pub fn visit_genargs(&mut self, gs: &Vec<GenArg>) -> (r: Vec<GenArg>)
        ensures
            final(self)@ == spec_visit_genargs(old(self)@, genargs_view(gs@)).0,
            genargs_view(r@) == spec_visit_genargs(old(self)@, genargs_view(gs@)).1,
        decreases gs,
    {
        let ghost full = genargs_view(gs@);
        proof {
            lemma_genargs_view(gs@);
            assert(full.skip(0) =~= full);
        }
        let mut out: Vec<GenArg> = Vec::new();
        let n = gs.len();
        let mut i: usize = 0;
        while i < n
            invariant
                i <= n,
                spec_visit_genargs(old(self)@, full).0 == spec_visit_genargs(
                    self@,
                    full.skip(i as int),
                ).0,
                spec_visit_genargs(old(self)@, full).1 == genargs_view(out@)
                    + spec_visit_genargs(self@, full.skip(i as int)).1,
            decreases n - i,
        {
            proof {
                assert(full.skip(i as int)[0] == genarg_view(gs@[i as int]));
            }
            let ghost out_pre = out@;
            let g1 = self.visit_genarg(&gs[i]);
            out.push(g1);
            i = i + 1;
            proof {
                lemma_genargs_view(out_pre);
                lemma_genargs_view(out@);
                assert(genargs_view(out@) =~= genargs_view(out_pre).push(
                    genarg_view(out@[out@.len() - 1]),
                ));
                assert(full.skip(i - 1).drop_first() =~= full.skip(i as int));
                assert(genargs_view(out@) + spec_visit_genargs(self@, full.skip(i as int)).1
                    =~= genargs_view(out_pre) + (seq![genarg_view(out@[out@.len() - 1])]
                    + spec_visit_genargs(self@, full.skip(i as int)).1));
            }
        }
        proof {
            assert(full.skip(n as int) =~= Seq::<GenArgV>::empty());
            assert(genargs_view(out@) + Seq::<GenArgV>::empty() =~= genargs_view(out@));
        }
        out
    }

    /// Resolves one generic argument.
    pub fn visit_genarg(&mut self, g: &GenArg) -> (r: GenArg)
        ensures
            final(self)@ == spec_visit_genarg(old(self)@, genarg_view(*g)).0,
            genarg_view(r) == spec_visit_genarg(old(self)@, genarg_view(*g)).1,
        decreases g,
    {
        match g {
            GenArg::Lifetime(l) => GenArg::Lifetime(self.visit_lifetime(l)),
            GenArg::Ty(t) => GenArg::Ty(self.visit_type(t)),
            GenArg::Konst(k) => GenArg::Konst(k.clone()),
        }
    }

    /// Resolves every bound of a trait object, left to right.
    #[verifier::loop_isolation(false)]
    pub fn visit_bounds(&mut self, bs: &Vec<TraitBoundTy>) -> (r: Vec<TraitBoundTy>)
        ensures
            final(self)@ == spec_visit_bounds(old(self)@, traitbounds_view(bs@)).0,
            traitbounds_view(r@) == spec_visit_bounds(old(self)@, traitbounds_view(bs@)).1,
        decreases bs,
    {
        let ghost full = traitbounds_view(bs@);
        proof {
            lemma_traitbounds_view(bs@);
            assert(full.skip(0) =~= full);
        }
        let mut out: Vec<TraitBoundTy> = Vec::new();
        let n = bs.len();
        let mut i: usize = 0;
        while i < n
            invariant
                i <= n,
                spec_visit_bounds(old(self)@, full).0 == spec_visit_bounds(
                    self@,
                    full.skip(i as int),
                ).0,
                spec_visit_bounds(old(self)@, full).1 == traitbounds_view(out@)
                    + spec_visit_bounds(self@, full.skip(i as int)).1,
            decreases n - i,
        {
            proof {
                assert(full.skip(i as int)[0] == traitbound_view(bs@[i as int]));
            }
            let ghost out_pre = out@;
            let b1 = self.visit_bound(&bs[i]);
            out.push(b1);
            i = i + 1;
            proof {
                lemma_traitbounds_view(out_pre);
                lemma_traitbounds_view(out@);
                assert(traitbounds_view(out@) =~= traitbounds_view(out_pre).push(
                    traitbound_view(out@[out@.len() - 1]),
                ));
                assert(full.skip(i - 1).drop_first() =~= full.skip(i as int));
                assert(traitbounds_view(out@) + spec_visit_bounds(self@, full.skip(i as int)).1
                    =~= traitbounds_view(out_pre) + (seq![traitbound_view(out@[out@.len() - 1])]
                    + spec_visit_bounds(self@, full.skip(i as int)).1));
            }
        }
        proof {
            assert(full.skip(n as int) =~= Seq::<TraitBoundTyV>::empty());
            assert(traitbounds_view(out@) + Seq::<TraitBoundTyV>::empty() =~= traitbounds_view(
                out@,
            ));
        }
        out
    }

    /// Resolves one trait bound inside its own binder scope: the binder's
    /// names are tracked while the bound's path is visited and the tracked
    /// set is restored exactly on leaving, whatever the visit did.
    pub fn visit_bound(&mut self, b: &TraitBoundTy) -> (r: TraitBoundTy)
        ensures
            final(self)@ == spec_visit_bound(old(self)@, traitbound_view(*b)).0,
            traitbound_view(r) == spec_visit_bound(old(self)@, traitbound_view(*b)).1,
        decreases b,
    {
        let saved = clone_lifetimes(&self.bound_lifetimes);
        let mut binder_clone = clone_lifetimes(&b.binder);
        self.bound_lifetimes.append(&mut binder_clone);
        proof {
            assert(lts_view(self.bound_lifetimes@) =~= lts_view(old(self).bound_lifetimes@)
                + lts_view(b.binder@));
            assert(self@ =~= (CollectorV {
                bound: old(self)@.bound + traitbound_view(*b).binder,
                ..old(self)@
            }));
        }
        let p1 = self.visit_typath(&b.path);
        self.bound_lifetimes = saved;
        proof {
            assert(self@ =~= spec_visit_bound(old(self)@, traitbound_view(*b)).0);
        }
        TraitBoundTy { binder: clone_lifetimes(&b.binder), path: p1 }
    }
}

// ---------------------------------------------------------------------------
// The walk only ever appends errors
// ---------------------------------------------------------------------------
/// The walk's state keeps every error it already held: what it held on
/// entry is a prefix of what it holds on exit.
pub open spec fn spec_errors_kept(before: CollectorV, after: CollectorV) -> bool {
    after.errors.len() >= before.errors.len() && after.errors.take(before.errors.len() as int)
        == before.errors
}

/// Two kept-prefix steps compose.
proof fn lemma_kept_trans(a: CollectorV, b: CollectorV, c: CollectorV)
    requires
        spec_errors_kept(a, b),
        spec_errors_kept(b, c),
    ensures
        spec_errors_kept(a, c),
{
    assert(c.errors.take(a.errors.len() as int) =~= a.errors) by {
        assert(forall|i: int| 0 <= i < b.errors.len() ==> c.errors[i] == b.errors.take(
            b.errors.len() as int,
        )[i]);
        assert(forall|i: int| 0 <= i < a.errors.len() ==> b.errors[i] == a.errors.take(
            a.errors.len() as int,
        )[i]);
    }
}

/// One written lifetime never drops an error.
proof fn lemma_visit_lt_kept(c: CollectorV, l: LtV)
    ensures
        spec_errors_kept(c, spec_visit_lt(c, l).0),
{
    assert(spec_visit_lt(c, l).0.errors.take(c.errors.len() as int) =~= c.errors);
}

/// One type never drops an error.
pub proof fn lemma_visit_ty_kept(c: CollectorV, t: TyV)
    ensures
        spec_errors_kept(c, spec_visit_ty(c, t).0),
    decreases t, 1int,
{
    match t {
        TyV::Path(p) => {
            lemma_visit_typath_kept(c, p);
        },
        TyV::Reference(r) => match r.lifetime {
            Some(l) => {
                lemma_visit_lt_kept(c, l);
                let c1 = spec_visit_lt(c, l).0;
                lemma_visit_ty_kept(c1, *r.elem);
                lemma_kept_trans(c, c1, spec_visit_ty(c1, *r.elem).0);
            },
            None => match c.mode {
                ModeV::Input => {
                    let c1 = spec_mint(c).0;
                    lemma_visit_ty_kept(c1, *r.elem);
                    assert(spec_errors_kept(c, c1)) by {
                        assert(c1.errors.take(c.errors.len() as int) =~= c.errors);
                    }
                    lemma_kept_trans(c, c1, spec_visit_ty(c1, *r.elem).0);
                },
                ModeV::Output(x) => {
                    let c1 = spec_collect(c, x);
                    lemma_visit_ty_kept(c1, *r.elem);
                    assert(spec_errors_kept(c, c1)) by {
                        assert(c1.errors.take(c.errors.len() as int) =~= c.errors);
                    }
                    lemma_kept_trans(c, c1, spec_visit_ty(c1, *r.elem).0);
                },
                ModeV::Fail => {
                    assert(spec_record(c, DiagV::ElidedAmbiguous).errors.take(
                        c.errors.len() as int,
                    ) =~= c.errors);
                },
            },
        },
        TyV::BareFn(_) => {
            assert(c.errors.take(c.errors.len() as int) =~= c.errors);
        },
        TyV::Tuple(ts) => {
            lemma_visit_tys_kept(c, ts);
        },
        TyV::Slice(e) => {
            lemma_visit_ty_kept(c, *e);
        },
        TyV::TraitObject(bs) => {
            lemma_visit_bounds_kept(c, bs);
        },
        TyV::Opaque(_) => {
            assert(c.errors.take(c.errors.len() as int) =~= c.errors);
        },
    }
}

/// A type list never drops an error.
pub proof fn lemma_visit_tys_kept(c: CollectorV, ts: Seq<TyV>)
    ensures
        spec_errors_kept(c, spec_visit_tys(c, ts).0),
    decreases ts,
{
    if ts.len() == 0 {
        assert(c.errors.take(c.errors.len() as int) =~= c.errors);
    } else {
        lemma_visit_ty_kept(c, ts[0]);
        let c1 = spec_visit_ty(c, ts[0]).0;
        lemma_visit_tys_kept(c1, ts.drop_first());
        lemma_kept_trans(c, c1, spec_visit_tys(c1, ts.drop_first()).0);
    }
}

/// A path type never drops an error.
pub proof fn lemma_visit_typath_kept(c: CollectorV, p: TyPathV)
    ensures
        spec_errors_kept(c, spec_visit_typath(c, p).0),
    decreases p,
{
    lemma_visit_qself_kept(c, p.qself);
    let c1 = spec_visit_qself(c, p.qself).0;
    lemma_visit_segs_kept(c1, p.segments);
    lemma_kept_trans(c, c1, spec_visit_segs(c1, p.segments).0);
}

/// A qualifying type never drops an error.
pub proof fn lemma_visit_qself_kept(c: CollectorV, q: Option<crate::tree::QSelfV>)
    ensures
        spec_errors_kept(c, spec_visit_qself(c, q).0),
    decreases q,
{
    match q {
        Some(qs) => {
            lemma_visit_ty_kept(c, *qs.ty);
        },
        None => {
            assert(c.errors.take(c.errors.len() as int) =~= c.errors);
        },
    }
}

/// A segment list never drops an error.
pub proof fn lemma_visit_segs_kept(c: CollectorV, ss: Seq<PathSegV>)
    ensures
        spec_errors_kept(c, spec_visit_segs(c, ss).0),
    decreases ss,
{
    if ss.len() == 0 {
        assert(c.errors.take(c.errors.len() as int) =~= c.errors);
    } else {
        lemma_visit_seg_kept(c, ss[0]);
        let c1 = spec_visit_seg(c, ss[0]).0;
        lemma_visit_segs_kept(c1, ss.drop_first());
        lemma_kept_trans(c, c1, spec_visit_segs(c1, ss.drop_first()).0);
    }
}

/// One segment never drops an error.
pub proof fn lemma_visit_seg_kept(c: CollectorV, s: PathSegV)
    ensures
        spec_errors_kept(c, spec_visit_seg(c, s).0),
    decreases s,
{
    match s.args {
        SegArgsV::Angle(gs) => {
            lemma_visit_genargs_kept(c, gs);
        },
        SegArgsV::Paren(_) => {
            assert(c.errors.take(c.errors.len() as int) =~= c.errors);
        },
    }
}

/// A generic-argument list never drops an error.
pub proof fn lemma_visit_genargs_kept(c: CollectorV, gs: Seq<GenArgV>)
    ensures
        spec_errors_kept(c, spec_visit_genargs(c, gs).0),
    decreases gs,
{
    if gs.len() == 0 {
        assert(c.errors.take(c.errors.len() as int) =~= c.errors);
    } else {
        lemma_visit_genarg_kept(c, gs[0]);
        let c1 = spec_visit_genarg(c, gs[0]).0;
        lemma_visit_genargs_kept(c1, gs.drop_first());
        lemma_kept_trans(c, c1, spec_visit_genargs(c1, gs.drop_first()).0);
    }
}

/// One generic argument never drops an error.
pub proof fn lemma_visit_genarg_kept(c: CollectorV, g: GenArgV)
    ensures
        spec_errors_kept(c, spec_visit_genarg(c, g).0),
    decreases g,
{
    match g {
        GenArgV::Lifetime(l) => {
            lemma_visit_lt_kept(c, l);
        },
        GenArgV::Ty(t) => {
            lemma_visit_ty_kept(c, t);
        },
        GenArgV::Konst(_) => {
            assert(c.errors.take(c.errors.len() as int) =~= c.errors);
        },
    }
}

/// A bound list never drops an error.
pub proof fn lemma_visit_bounds_kept(c: CollectorV, bs: Seq<TraitBoundTyV>)
    ensures
        spec_errors_kept(c, spec_visit_bounds(c, bs).0),
    decreases bs,
{
    if bs.len() == 0 {
        assert(c.errors.take(c.errors.len() as int) =~= c.errors);
    } else {
        lemma_visit_bound_kept(c, bs[0]);
        let c1 = spec_visit_bound(c, bs[0]).0;
        lemma_visit_bounds_kept(c1, bs.drop_first());
        lemma_kept_trans(c, c1, spec_visit_bounds(c1, bs.drop_first()).0);
    }
}

/// One bound never drops an error: restoring the binder scope leaves the
/// errors alone.
pub proof fn lemma_visit_bound_kept(c: CollectorV, b: TraitBoundTyV)
    ensures
        spec_errors_kept(c, spec_visit_bound(c, b).0),
    decreases b,
{
    let entered = CollectorV { bound: c.bound + b.binder, ..c };
    lemma_visit_typath_kept(entered, b.path);
}

/// Whether a lifetime list holds a given lifetime.
#[verifier::loop_isolation(false)]
pub fn contains_lt(set: &Vec<Lifetime>, l: &Lifetime) -> (r: bool)
    ensures
        r == lts_view(set@).contains(l@),
{
    let n = set.len();
    let mut i: usize = 0;
    while i < n
        invariant
            i <= n,
            forall|k: int| 0 <= k < i ==> set@[k]@ != l@,
        decreases n - i,
    {
        if set[i].eq_lt(l) {
            proof {
                assert(lts_view(set@)[i as int] == l@);
            }
            return true;
        }
        i = i + 1;
    }
    proof {
        assert forall|k: int| 0 <= k < lts_view(set@).len() implies lts_view(set@)[k] != l@ by {}
    }
    false
}

} // verus!
