//! The parse-tree model the transformation works on.
//!
//! One container holds an ordered list of declarations: functions, nested
//! containers, and opaque items that pass through untouched.  Types carry the
//! structure the lifetime resolver and the signature validator read —
//! references, bare function pointers, trait bounds with their own lifetime
//! binders, path types with generic arguments — while everything else
//! (function bodies, constant expressions, unrecognized items) is carried as
//! opaque text.  Each type has a ghost mirror over `Seq` used by every
//! contract; the mirror of a value is its `view`.

use vstd::prelude::*;

verus! {

// ---------------------------------------------------------------------------
// Lifetimes
// ---------------------------------------------------------------------------
/// A lifetime position in the tree.  Synthetic lifetimes are minted by the
/// resolver for elided input lifetimes and never occur in source trees.
#[derive(Debug, PartialEq)]
pub enum Lifetime {
    /// The universal `'static` lifetime; never collected.
    Immortal,
    /// The author's "infer this" placeholder, written `'_`.
    Placeholder,
    /// An ordinary named lifetime.
    Named(String),
    /// A generated lifetime, identified by the counter value it was minted
    /// with.
    Synthetic(usize),
}

/// Ghost form of a lifetime.
#[verifier::ext_equal]
pub ghost enum LtV {
    Immortal,
    Placeholder,
    Named(Seq<char>),
    Synthetic(nat),
}

impl View for Lifetime {
    type V = LtV;

    open spec fn view(&self) -> LtV {
        match *self {
            Lifetime::Immortal => LtV::Immortal,
            Lifetime::Placeholder => LtV::Placeholder,
            Lifetime::Named(n) => LtV::Named(n@),
            Lifetime::Synthetic(k) => LtV::Synthetic(k as nat),
        }
    }
}

/// View of a lifetime list.
pub open spec fn lts_view(s: Seq<Lifetime>) -> Seq<LtV> {
    Seq::new(s.len(), |i: int| s[i]@)
}

// ---------------------------------------------------------------------------
// Attribute paths and attribute arguments
// ---------------------------------------------------------------------------
/// A path-like attribute tag, such as `test` or `tokio::test`.
#[derive(Debug, PartialEq)]
pub struct AttrPath {
    pub segments: Vec<String>,
}

/// Ghost form of an attribute path: its segments as character sequences.
#[verifier::ext_equal]
pub ghost struct AttrPathV {
    pub segments: Seq<Seq<char>>,
}

impl View for AttrPath {
    type V = AttrPathV;

    open spec fn view(&self) -> AttrPathV {
        AttrPathV { segments: Seq::new(self.segments@.len(), |i: int| self.segments@[i]@) }
    }
}

/// View of an attribute-path list.
pub open spec fn attr_paths_view(s: Seq<AttrPath>) -> Seq<AttrPathV> {
    Seq::new(s.len(), |i: int| s[i]@)
}

/// The value attached to one item of a structured configuration list.
#[derive(Debug, PartialEq)]
pub enum MetaValue {
    /// A parenthesized list of attribute paths, as in `attrs(test, bench)`.
    Paths(Vec<AttrPath>),
    /// Anything else: no value, or a value of an unsupported shape.
    Other,
}

/// Ghost form of a configuration value.
#[verifier::ext_equal]
pub ghost enum MetaValueV {
    Paths(Seq<AttrPathV>),
    Other,
}

impl View for MetaValue {
    type V = MetaValueV;

    open spec fn view(&self) -> MetaValueV {
        match *self {
            MetaValue::Paths(ps) => MetaValueV::Paths(attr_paths_view(ps@)),
            MetaValue::Other => MetaValueV::Other,
        }
    }
}

/// One item of a structured configuration list: a key path with its value.
#[derive(Debug, PartialEq)]
pub struct MetaItem {
    pub path: AttrPath,
    pub value: MetaValue,
}

/// Ghost form of a configuration item.
#[verifier::ext_equal]
pub ghost struct MetaItemV {
    pub path: AttrPathV,
    pub value: MetaValueV,
}

impl View for MetaItem {
    type V = MetaItemV;

    open spec fn view(&self) -> MetaItemV {
        MetaItemV { path: self.path@, value: self.value@ }
    }
}

/// View of a configuration-item list.
pub open spec fn meta_items_view(s: Seq<MetaItem>) -> Seq<MetaItemV> {
    Seq::new(s.len(), |i: int| s[i]@)
}

// ---------------------------------------------------------------------------
// Types
// ---------------------------------------------------------------------------
/// A reference type: optional lifetime, mutability, referent.
#[derive(Debug, PartialEq)]
pub struct RefTy {
    pub lifetime: Option<Lifetime>,
    pub mutable: bool,
    pub elem: Box<Ty>,
}

/// A bare function-pointer type with its own lifetime binder.
#[derive(Debug, PartialEq)]
pub struct BareFnTy {
    pub binder: Vec<Lifetime>,
    pub inputs: Vec<Ty>,
    pub output: Option<Box<Ty>>,
}

/// One bound of a trait-object type, with the bound's own lifetime binder.
#[derive(Debug, PartialEq)]
pub struct TraitBoundTy {
    pub binder: Vec<Lifetime>,
    pub path: TyPath,
}

/// Call-style generic arguments, as in `Fn(A, B) -> C`.
#[derive(Debug, PartialEq)]
pub struct ParenArgs {
    pub inputs: Vec<Ty>,
    pub output: Option<Box<Ty>>,
}

/// One generic argument inside angle brackets.
#[derive(Debug, PartialEq)]
pub enum GenArg {
    /// A lifetime argument.
    Lifetime(Lifetime),
    /// A type argument.
    Ty(Ty),
    /// A constant argument, carried as opaque text.
    Konst(String),
}

/// The arguments of one path segment.
#[derive(Debug, PartialEq)]
pub enum SegArgs {
    /// Angle-bracketed arguments; an empty list stands for no arguments.
    Angle(Vec<GenArg>),
    /// Call-style parenthesized arguments.
    Paren(ParenArgs),
}

/// One segment of a type path.
#[derive(Debug, PartialEq)]
pub struct PathSeg {
    pub ident: String,
    pub args: SegArgs,
}

/// The qualifying type of a qualified path, with the count of leading path
/// segments naming the trait the type is viewed through.
#[derive(Debug, PartialEq)]
pub struct QSelf {
    pub ty: Box<Ty>,
    pub position: usize,
}

/// A (possibly qualified) path type.
#[derive(Debug, PartialEq)]
pub struct TyPath {
    /// Whether the path starts at the crate root with a leading separator.
    pub leading_colon: bool,
    pub qself: Option<QSelf>,
    pub segments: Vec<PathSeg>,
}

/// A type expression, as far as the transformation reads it.  Any form
/// beyond these carries no position the engine reads and is held as opaque
/// text, echoed verbatim.
#[derive(Debug, PartialEq)]
pub enum Ty {
    Path(TyPath),
    Reference(RefTy),
    BareFn(BareFnTy),
    Tuple(Vec<Ty>),
    Slice(Box<Ty>),
    TraitObject(Vec<TraitBoundTy>),
    Opaque(String),
}

/// Ghost form of a reference type.
#[verifier::ext_equal]
pub ghost struct RefTyV {
    pub lifetime: Option<LtV>,
    pub mutable: bool,
    pub elem: Box<TyV>,
}

/// Ghost form of a bare function-pointer type.
#[verifier::ext_equal]
pub ghost struct BareFnTyV {
    pub binder: Seq<LtV>,
    pub inputs: Seq<TyV>,
    pub output: Option<Box<TyV>>,
}

/// Ghost form of one trait-object bound.
#[verifier::ext_equal]
pub ghost struct TraitBoundTyV {
    pub binder: Seq<LtV>,
    pub path: TyPathV,
}

/// Ghost form of call-style generic arguments.
#[verifier::ext_equal]
pub ghost struct ParenArgsV {
    pub inputs: Seq<TyV>,
    pub output: Option<Box<TyV>>,
}

/// Ghost form of one generic argument.
#[verifier::ext_equal]
pub ghost enum GenArgV {
    Lifetime(LtV),
    Ty(TyV),
    Konst(Seq<char>),
}

/// Ghost form of a path segment's arguments.
#[verifier::ext_equal]
pub ghost enum SegArgsV {
    Angle(Seq<GenArgV>),
    Paren(ParenArgsV),
}

/// Ghost form of one path segment.
#[verifier::ext_equal]
pub ghost struct PathSegV {
    pub ident: Seq<char>,
    pub args: SegArgsV,
}

/// Ghost form of a qualifying type.
#[verifier::ext_equal]
pub ghost struct QSelfV {
    pub ty: Box<TyV>,
    pub position: nat,
}

/// Ghost form of a path type.
#[verifier::ext_equal]
pub ghost struct TyPathV {
    pub leading_colon: bool,
    pub qself: Option<QSelfV>,
    pub segments: Seq<PathSegV>,
}

/// Ghost form of a type expression.
#[verifier::ext_equal]
pub ghost enum TyV {
    Path(TyPathV),
    Reference(RefTyV),
    BareFn(BareFnTyV),
    Tuple(Seq<TyV>),
    Slice(Box<TyV>),
    TraitObject(Seq<TraitBoundTyV>),
    Opaque(Seq<char>),
}

/// View of a type expression.
pub open spec fn ty_view(t: Ty) -> TyV
    decreases t,
{
    match t {
        Ty::Path(p) => TyV::Path(ty_path_view(p)),
        Ty::Reference(r) => TyV::Reference(
            RefTyV {
                lifetime: match r.lifetime {
                    Some(l) => Some(l@),
                    None => None,
                },
                mutable: r.mutable,
                elem: Box::new(ty_view(*r.elem)),
            },
        ),
        Ty::BareFn(f) => TyV::BareFn(
            BareFnTyV {
                binder: lts_view(f.binder@),
                inputs: tys_view(f.inputs@),
                output: opt_ty_view(f.output),
            },
        ),
        Ty::Tuple(ts) => TyV::Tuple(tys_view(ts@)),
        Ty::Slice(e) => TyV::Slice(Box::new(ty_view(*e))),
        Ty::TraitObject(bs) => TyV::TraitObject(traitbounds_view(bs@)),
        Ty::Opaque(s) => TyV::Opaque(s@),
    }
}

/// View of an optional boxed type.
pub open spec fn opt_ty_view(t: Option<Box<Ty>>) -> Option<Box<TyV>>
    decreases t,
{
    match t {
        Some(b) => Some(Box::new(ty_view(*b))),
        None => None,
    }
}

/// View of a type list.
pub open spec fn tys_view(s: Seq<Ty>) -> Seq<TyV>
    decreases s,
{
    if s.len() == 0 {
        Seq::empty()
    } else {
        seq![ty_view(s[0])] + tys_view(s.drop_first())
    }
}

/// View of a path type.
pub open spec fn ty_path_view(p: TyPath) -> TyPathV
    decreases p,
{
    TyPathV {
        leading_colon: p.leading_colon,
        qself: qself_view(p.qself),
        segments: pathsegs_view(p.segments@),
    }
}

/// View of an optional qualifying type.
pub open spec fn qself_view(q: Option<QSelf>) -> Option<QSelfV>
    decreases q,
{
    match q {
        Some(qs) => Some(QSelfV { ty: Box::new(ty_view(*qs.ty)), position: qs.position as nat }),
        None => None,
    }
}

/// View of one path segment.
pub open spec fn pathseg_view(s: PathSeg) -> PathSegV
    decreases s,
{
    PathSegV {
        ident: s.ident@,
        args: match s.args {
            SegArgs::Angle(gs) => SegArgsV::Angle(genargs_view(gs@)),
            SegArgs::Paren(p) => SegArgsV::Paren(
                ParenArgsV { inputs: tys_view(p.inputs@), output: opt_ty_view(p.output) },
            ),
        },
    }
}

/// View of a path-segment list.
pub open spec fn pathsegs_view(s: Seq<PathSeg>) -> Seq<PathSegV>
    decreases s,
{
    if s.len() == 0 {
        Seq::empty()
    } else {
        seq![pathseg_view(s[0])] + pathsegs_view(s.drop_first())
    }
}

/// View of one generic argument.
pub open spec fn genarg_view(g: GenArg) -> GenArgV
    decreases g,
{
    match g {
        GenArg::Lifetime(l) => GenArgV::Lifetime(l@),
        GenArg::Ty(t) => GenArgV::Ty(ty_view(t)),
        GenArg::Konst(k) => GenArgV::Konst(k@),
    }
}

/// View of a generic-argument list.
pub open spec fn genargs_view(s: Seq<GenArg>) -> Seq<GenArgV>
    decreases s,
{
    if s.len() == 0 {
        Seq::empty()
    } else {
        seq![genarg_view(s[0])] + genargs_view(s.drop_first())
    }
}

/// View of one trait-object bound.
pub open spec fn traitbound_view(b: TraitBoundTy) -> TraitBoundTyV
    decreases b,
{
    TraitBoundTyV { binder: lts_view(b.binder@), path: ty_path_view(b.path) }
}

/// View of a trait-object bound list.
pub open spec fn traitbounds_view(s: Seq<TraitBoundTy>) -> Seq<TraitBoundTyV>
    decreases s,
{
    if s.len() == 0 {
        Seq::empty()
    } else {
        seq![traitbound_view(s[0])] + traitbounds_view(s.drop_first())
    }
}

impl View for Ty {
    type V = TyV;

    open spec fn view(&self) -> TyV {
        ty_view(*self)
    }
}

impl View for TyPath {
    type V = TyPathV;

    open spec fn view(&self) -> TyPathV {
        ty_path_view(*self)
    }
}

/// A type list's view is as long as the list and is its elementwise view.
pub broadcast proof fn lemma_tys_view(s: Seq<Ty>)
    ensures
        (#[trigger] tys_view(s)).len() == s.len(),
        forall|i: int| 0 <= i < s.len() ==> tys_view(s)[i] == ty_view(s[i]),
    decreases s,
{
    if s.len() > 0 {
        lemma_tys_view(s.drop_first());
    }
}

/// A generic-argument list's view is its elementwise view.
pub broadcast proof fn lemma_genargs_view(s: Seq<GenArg>)
    ensures
        (#[trigger] genargs_view(s)).len() == s.len(),
        forall|i: int| 0 <= i < s.len() ==> genargs_view(s)[i] == genarg_view(s[i]),
    decreases s,
{
    if s.len() > 0 {
        lemma_genargs_view(s.drop_first());
    }
}

/// A path-segment list's view is its elementwise view.
pub broadcast proof fn lemma_pathsegs_view(s: Seq<PathSeg>)
    ensures
        (#[trigger] pathsegs_view(s)).len() == s.len(),
        forall|i: int| 0 <= i < s.len() ==> pathsegs_view(s)[i] == pathseg_view(s[i]),
    decreases s,
{
    if s.len() > 0 {
        lemma_pathsegs_view(s.drop_first());
    }
}

/// A trait-bound list's view is its elementwise view.
pub broadcast proof fn lemma_traitbounds_view(s: Seq<TraitBoundTy>)
    ensures
        (#[trigger] traitbounds_view(s)).len() == s.len(),
        forall|i: int| 0 <= i < s.len() ==> traitbounds_view(s)[i] == traitbound_view(s[i]),
    decreases s,
{
    if s.len() > 0 {
        lemma_traitbounds_view(s.drop_first());
    }
}

// ---------------------------------------------------------------------------
// Attributes
// ---------------------------------------------------------------------------
/// The argument part of an attribute.
#[derive(Debug, PartialEq)]
pub enum AttrArgs {
    /// No arguments, as in `#[test]`.
    Empty,
    /// A structured configuration list, as carried by the per-function
    /// override attribute.
    Meta(Vec<MetaItem>),
    /// An angle-bracketed concrete argument list, as carried by an
    /// instantiation marker.
    TypeArgs(Vec<GenArg>),
    /// Any other argument tokens, carried as opaque text and echoed verbatim.
    Opaque(String),
}

/// An attribute: a path-like tag with optional arguments.  Classification
/// compares the path only.
#[derive(Debug, PartialEq)]
pub struct Attr {
    /// Whether the attribute was written in inner style.
    pub inner: bool,
    pub path: AttrPath,
    pub args: AttrArgs,
}

/// Ghost form of attribute arguments.
#[verifier::ext_equal]
pub ghost enum AttrArgsV {
    Empty,
    Meta(Seq<MetaItemV>),
    TypeArgs(Seq<GenArgV>),
    Opaque(Seq<char>),
}

/// Ghost form of an attribute.
#[verifier::ext_equal]
pub ghost struct AttrV {
    pub inner: bool,
    pub path: AttrPathV,
    pub args: AttrArgsV,
}

impl View for AttrArgs {
    type V = AttrArgsV;

    open spec fn view(&self) -> AttrArgsV {
        match *self {
            AttrArgs::Empty => AttrArgsV::Empty,
            AttrArgs::Meta(ms) => AttrArgsV::Meta(meta_items_view(ms@)),
            AttrArgs::TypeArgs(gs) => AttrArgsV::TypeArgs(genargs_view(gs@)),
            AttrArgs::Opaque(s) => AttrArgsV::Opaque(s@),
        }
    }
}

impl View for Attr {
    type V = AttrV;

    open spec fn view(&self) -> AttrV {
        AttrV { inner: self.inner, path: self.path@, args: self.args@ }
    }
}

/// View of an attribute list.
pub open spec fn attrs_view(s: Seq<Attr>) -> Seq<AttrV> {
    Seq::new(s.len(), |i: int| s[i]@)
}

// ---------------------------------------------------------------------------
// Function declarations
// ---------------------------------------------------------------------------
/// A plain-identifier parameter pattern with the extras the extractor
/// rejects.
#[derive(Debug, PartialEq)]
pub struct PatIdent {
    pub ident: String,
    pub mutable: bool,
    pub by_ref: bool,
    pub has_subpat: bool,
    pub has_attrs: bool,
}

/// A parameter pattern.
#[derive(Debug, PartialEq)]
pub enum Pat {
    Ident(PatIdent),
    Wild,
    Other,
}

/// One function parameter.
#[derive(Debug, PartialEq)]
pub enum Param {
    /// A `self` receiver.
    Receiver,
    /// An ordinary typed parameter.
    Typed(TypedParam),
}

/// An ordinary typed parameter.
#[derive(Debug, PartialEq)]
pub struct TypedParam {
    pub attrs: Vec<Attr>,
    pub pat: Pat,
    pub ty: Ty,
}

/// Ghost form of a plain-identifier pattern.
#[verifier::ext_equal]
pub ghost struct PatIdentV {
    pub ident: Seq<char>,
    pub mutable: bool,
    pub by_ref: bool,
    pub has_subpat: bool,
    pub has_attrs: bool,
}

/// Ghost form of a parameter pattern.
#[verifier::ext_equal]
pub ghost enum PatV {
    Ident(PatIdentV),
    Wild,
    Other,
}

/// Ghost form of one parameter.
#[verifier::ext_equal]
pub ghost enum ParamV {
    Receiver,
    Typed(TypedParamV),
}

/// Ghost form of an ordinary typed parameter.
#[verifier::ext_equal]
pub ghost struct TypedParamV {
    pub attrs: Seq<AttrV>,
    pub pat: PatV,
    pub ty: TyV,
}

impl View for Pat {
    type V = PatV;

    open spec fn view(&self) -> PatV {
        match *self {
            Pat::Ident(p) => PatV::Ident(
                PatIdentV {
                    ident: p.ident@,
                    mutable: p.mutable,
                    by_ref: p.by_ref,
                    has_subpat: p.has_subpat,
                    has_attrs: p.has_attrs,
                },
            ),
            Pat::Wild => PatV::Wild,
            Pat::Other => PatV::Other,
        }
    }
}

impl View for Param {
    type V = ParamV;

    open spec fn view(&self) -> ParamV {
        match *self {
            Param::Receiver => ParamV::Receiver,
            Param::Typed(t) => ParamV::Typed(
                TypedParamV { attrs: attrs_view(t.attrs@), pat: t.pat@, ty: t.ty@ },
            ),
        }
    }
}

/// View of a parameter list.
pub open spec fn params_view(s: Seq<Param>) -> Seq<ParamV> {
    Seq::new(s.len(), |i: int| s[i]@)
}

/// A lifetime parameter or `where`-clause lifetime predicate with its bounds.
#[derive(Debug, PartialEq)]
pub struct LtDecl {
    pub lifetime: Lifetime,
    pub bounds: Vec<Lifetime>,
}

/// Ghost form of a lifetime declaration.
#[verifier::ext_equal]
pub ghost struct LtDeclV {
    pub lifetime: LtV,
    pub bounds: Seq<LtV>,
}

impl View for LtDecl {
    type V = LtDeclV;

    open spec fn view(&self) -> LtDeclV {
        LtDeclV { lifetime: self.lifetime@, bounds: lts_view(self.bounds@) }
    }
}

/// A type generic parameter: its identifier, and its bounds and default —
/// which the engine never reads — held as opaque text, echoed verbatim on
/// the surviving definition (empty where none are written).
#[derive(Debug, PartialEq)]
pub struct TypeParamDecl {
    pub ident: String,
    pub decl: String,
}

/// Ghost form of a type generic parameter.
#[verifier::ext_equal]
pub ghost struct TypeParamDeclV {
    pub ident: Seq<char>,
    pub decl: Seq<char>,
}

impl View for TypeParamDecl {
    type V = TypeParamDeclV;

    open spec fn view(&self) -> TypeParamDeclV {
        TypeParamDeclV { ident: self.ident@, decl: self.decl@ }
    }
}

/// A constant generic parameter: its identifier, and its declared type and
/// default — which the engine never reads — held as opaque text, echoed
/// verbatim on the surviving definition.
#[derive(Debug, PartialEq)]
pub struct KonstParamDecl {
    pub ident: String,
    pub decl: String,
}

/// Ghost form of a constant generic parameter.
#[verifier::ext_equal]
pub ghost struct KonstParamDeclV {
    pub ident: Seq<char>,
    pub decl: Seq<char>,
}

impl View for KonstParamDecl {
    type V = KonstParamDeclV;

    open spec fn view(&self) -> KonstParamDeclV {
        KonstParamDeclV { ident: self.ident@, decl: self.decl@ }
    }
}

/// One generic parameter of a function.
#[derive(Debug, PartialEq)]
pub enum GenParam {
    Lifetime(LtDecl),
    Type(TypeParamDecl),
    Konst(KonstParamDecl),
}

/// Ghost form of one generic parameter.
#[verifier::ext_equal]
pub ghost enum GenParamV {
    Lifetime(LtDeclV),
    Type(TypeParamDeclV),
    Konst(KonstParamDeclV),
}

impl View for GenParam {
    type V = GenParamV;

    open spec fn view(&self) -> GenParamV {
        match *self {
            GenParam::Lifetime(d) => GenParamV::Lifetime(d@),
            GenParam::Type(d) => GenParamV::Type(d@),
            GenParam::Konst(d) => GenParamV::Konst(d@),
        }
    }
}

/// One `where`-clause predicate: a lifetime predicate, which the engine
/// reads, or any other predicate held as opaque text and echoed verbatim on
/// the surviving definition.
#[derive(Debug, PartialEq)]
pub enum WherePred {
    Lifetime(LtDecl),
    Other(String),
}

/// Ghost form of one `where`-clause predicate.
#[verifier::ext_equal]
pub ghost enum WherePredV {
    Lifetime(LtDeclV),
    Other(Seq<char>),
}

impl View for WherePred {
    type V = WherePredV;

    open spec fn view(&self) -> WherePredV {
        match *self {
            WherePred::Lifetime(d) => WherePredV::Lifetime(d@),
            WherePred::Other(t) => WherePredV::Other(t@),
        }
    }
}

/// A function's generics: ordered parameters and `where`-clause predicates.
#[derive(Debug, PartialEq)]
pub struct Generics {
    pub params: Vec<GenParam>,
    pub where_preds: Vec<WherePred>,
}

/// Ghost form of a function's generics.
#[verifier::ext_equal]
pub ghost struct GenericsV {
    pub params: Seq<GenParamV>,
    pub where_preds: Seq<WherePredV>,
}

impl View for Generics {
    type V = GenericsV;

    open spec fn view(&self) -> GenericsV {
        GenericsV {
            params: Seq::new(self.params@.len(), |i: int| self.params@[i]@),
            where_preds: Seq::new(self.where_preds@.len(), |i: int| self.where_preds@[i]@),
        }
    }
}

// ---------------------------------------------------------------------------
// Generated carrier declarations and forwarding bodies
// ---------------------------------------------------------------------------
/// One field of a generated argument-record carrier.
#[derive(Debug, PartialEq)]
pub struct CarrierField {
    pub ident: String,
    pub ty: Ty,
}

/// Ghost form of one carrier field.
#[verifier::ext_equal]
pub ghost struct CarrierFieldV {
    pub ident: Seq<char>,
    pub ty: TyV,
}

impl View for CarrierField {
    type V = CarrierFieldV;

    open spec fn view(&self) -> CarrierFieldV {
        CarrierFieldV { ident: self.ident@, ty: self.ty@ }
    }
}

/// A generated record type carrying one deduplicated parameter-list shape.
/// Its unit-unique name is its position in the catalog.
#[derive(Debug, PartialEq)]
pub struct ArgsCarrier {
    pub lifetimes: Vec<Lifetime>,
    pub fields: Vec<CarrierField>,
}

/// Ghost form of an argument-record carrier.
#[verifier::ext_equal]
pub ghost struct ArgsCarrierV {
    pub lifetimes: Seq<LtV>,
    pub fields: Seq<CarrierFieldV>,
}

impl View for ArgsCarrier {
    type V = ArgsCarrierV;

    open spec fn view(&self) -> ArgsCarrierV {
        ArgsCarrierV {
            lifetimes: lts_view(self.lifetimes@),
            fields: Seq::new(self.fields@.len(), |i: int| self.fields@[i]@),
        }
    }
}

/// A generated type alias carrying one deduplicated return-type shape.
#[derive(Debug, PartialEq)]
pub struct RetCarrier {
    pub lifetimes: Vec<Lifetime>,
    pub ty: Ty,
}

/// Ghost form of a return-alias carrier.
#[verifier::ext_equal]
pub ghost struct RetCarrierV {
    pub lifetimes: Seq<LtV>,
    pub ty: TyV,
}

impl View for RetCarrier {
    type V = RetCarrierV;

    open spec fn view(&self) -> RetCarrierV {
        RetCarrierV { lifetimes: lts_view(self.lifetimes@), ty: self.ty@ }
    }
}

/// The generated module holding every carrier declaration shared by the
/// forwarding functions of one instantiation site.  `root_supers` is the
/// number of step-up segments from the instantiation site back to the
/// processing root, whose names the carried types may mention; a reference
/// from inside a generated module prepends one more step per module.
#[derive(Debug, PartialEq)]
pub struct CallSigDecl {
    pub root_supers: usize,
    pub args_carriers: Vec<ArgsCarrier>,
    pub ret_carriers: Vec<RetCarrier>,
}

/// Ghost form of the generated carrier module.
#[verifier::ext_equal]
pub ghost struct CallSigDeclV {
    pub root_supers: nat,
    pub args_carriers: Seq<ArgsCarrierV>,
    pub ret_carriers: Seq<RetCarrierV>,
}

impl View for CallSigDecl {
    type V = CallSigDeclV;

    open spec fn view(&self) -> CallSigDeclV {
        CallSigDeclV {
            root_supers: self.root_supers as nat,
            args_carriers: Seq::new(self.args_carriers@.len(), |i: int| self.args_carriers@[i]@),
            ret_carriers: Seq::new(self.ret_carriers@.len(), |i: int| self.ret_carriers@[i]@),
        }
    }
}

/// The generated inner forwarding layer of one forwarding function: an
/// unsafe function that takes the argument record apart and performs the
/// concrete-type-parameterized call of the generic original.
#[derive(Debug, PartialEq)]
pub struct ShimFn {
    /// Whether the shim itself is asynchronous.
    pub asyncness: bool,
    /// The shim's own lifetime binder: the union of the resolved input and
    /// output lifetime sets.
    pub lifetimes: Vec<Lifetime>,
    /// Handle of the argument-record carrier, with the lifetime arguments
    /// applied at the reference site.
    pub args_carrier: usize,
    pub args_lifetimes: Vec<Lifetime>,
    /// Handle of the return-alias carrier, with its lifetime arguments.
    pub ret_carrier: usize,
    pub ret_lifetimes: Vec<Lifetime>,
    /// Step-up segments from the instantiation site back to the root; the
    /// call from inside the shim's module prepends one more.
    pub root_supers: usize,
    /// The generic original's identifier.
    pub target: String,
    /// The marker's concrete argument list, bound at the call.
    pub inst_args: Vec<GenArg>,
    /// The record fields forwarded to the call, in parameter order.
    pub arg_names: Vec<String>,
    /// Whether the inner call is awaited.
    pub awaited: bool,
}

/// Ghost form of the forwarding layer.
#[verifier::ext_equal]
pub ghost struct ShimFnV {
    pub asyncness: bool,
    pub lifetimes: Seq<LtV>,
    pub args_carrier: nat,
    pub args_lifetimes: Seq<LtV>,
    pub ret_carrier: nat,
    pub ret_lifetimes: Seq<LtV>,
    pub root_supers: nat,
    pub target: Seq<char>,
    pub inst_args: Seq<GenArgV>,
    pub arg_names: Seq<Seq<char>>,
    pub awaited: bool,
}

impl View for ShimFn {
    type V = ShimFnV;

    open spec fn view(&self) -> ShimFnV {
        ShimFnV {
            asyncness: self.asyncness,
            lifetimes: lts_view(self.lifetimes@),
            args_carrier: self.args_carrier as nat,
            args_lifetimes: lts_view(self.args_lifetimes@),
            ret_carrier: self.ret_carrier as nat,
            ret_lifetimes: lts_view(self.ret_lifetimes@),
            root_supers: self.root_supers as nat,
            target: self.target@,
            inst_args: genargs_view(self.inst_args@),
            arg_names: Seq::new(self.arg_names@.len(), |i: int| self.arg_names@[i]@),
            awaited: self.awaited,
        }
    }
}

/// The generated body of a forwarding function: it builds the argument
/// record from the actual parameters, hands it to the shim, and returns the
/// value produced, awaiting it first where the function is asynchronous.
#[derive(Debug, PartialEq)]
pub struct ForwardBody {
    pub shim: ShimFn,
    /// The field initializers of the argument record, in parameter order.
    pub field_inits: Vec<String>,
    /// Whether the shim call is awaited.
    pub awaited: bool,
}

/// Ghost form of a forwarding body.
#[verifier::ext_equal]
pub ghost struct ForwardBodyV {
    pub shim: ShimFnV,
    pub field_inits: Seq<Seq<char>>,
    pub awaited: bool,
}

impl View for ForwardBody {
    type V = ForwardBodyV;

    open spec fn view(&self) -> ForwardBodyV {
        ForwardBodyV {
            shim: self.shim@,
            field_inits: Seq::new(self.field_inits@.len(), |i: int| self.field_inits@[i]@),
            awaited: self.awaited,
        }
    }
}

/// A function body: either the original's, never inspected, or a generated
/// forwarding body.
#[derive(Debug, PartialEq)]
pub enum Body {
    Opaque(String),
    Forward(ForwardBody),
}

/// Ghost form of a function body.
#[verifier::ext_equal]
pub ghost enum BodyV {
    Opaque(Seq<char>),
    Forward(ForwardBodyV),
}

impl View for Body {
    type V = BodyV;

    open spec fn view(&self) -> BodyV {
        match *self {
            Body::Opaque(s) => BodyV::Opaque(s@),
            Body::Forward(f) => BodyV::Forward(f@),
        }
    }
}

// ---------------------------------------------------------------------------
// Declarations and containers
// ---------------------------------------------------------------------------
/// A function declaration.
#[derive(Debug, PartialEq)]
pub struct FnDecl {
    pub attrs: Vec<Attr>,
    pub constness: bool,
    pub asyncness: bool,
    pub unsafety: bool,
    /// Whether a foreign calling convention is declared.
    pub abi: bool,
    pub variadic: bool,
    pub ident: String,
    pub generics: Generics,
    pub inputs: Vec<Param>,
    pub output: Option<Ty>,
    pub body: Body,
}

/// Ghost form of a function declaration.
#[verifier::ext_equal]
pub ghost struct FnDeclV {
    pub attrs: Seq<AttrV>,
    pub constness: bool,
    pub asyncness: bool,
    pub unsafety: bool,
    pub abi: bool,
    pub variadic: bool,
    pub ident: Seq<char>,
    pub generics: GenericsV,
    pub inputs: Seq<ParamV>,
    pub output: Option<TyV>,
    pub body: BodyV,
}

impl View for FnDecl {
    type V = FnDeclV;

    open spec fn view(&self) -> FnDeclV {
        FnDeclV {
            attrs: attrs_view(self.attrs@),
            constness: self.constness,
            asyncness: self.asyncness,
            unsafety: self.unsafety,
            abi: self.abi,
            variadic: self.variadic,
            ident: self.ident@,
            generics: self.generics@,
            inputs: params_view(self.inputs@),
            output: match self.output {
                Some(t) => Some(t@),
                None => None,
            },
            body: self.body@,
        }
    }
}

/// A named container of declarations.  `None` content is an opaque container
/// whose body lives elsewhere.
#[derive(Debug, PartialEq)]
pub struct Container {
    pub attrs: Vec<Attr>,
    pub ident: String,
    pub content: Option<Vec<Decl>>,
}

/// One declaration of a container.
#[derive(Debug, PartialEq)]
pub enum Decl {
    Fn(FnDecl),
    Container(Container),
    /// A generated glob import bringing the root's names into view; the
    /// payload is the number of step-up segments to the root.
    RootGlob(usize),
    /// The generated module of shared carrier declarations.
    CallSig(CallSigDecl),
    /// Any other declaration, carried as opaque text.
    Other(String),
}

/// Ghost form of a container.
#[verifier::ext_equal]
pub ghost struct ContainerV {
    pub attrs: Seq<AttrV>,
    pub ident: Seq<char>,
    pub content: Option<Seq<DeclV>>,
}

/// Ghost form of one declaration.
#[verifier::ext_equal]
pub ghost enum DeclV {
    Fn(FnDeclV),
    Container(ContainerV),
    RootGlob(nat),
    CallSig(CallSigDeclV),
    Other(Seq<char>),
}

/// View of one declaration.
pub open spec fn decl_view(d: Decl) -> DeclV
    decreases d,
{
    match d {
        Decl::Fn(f) => DeclV::Fn(f@),
        Decl::Container(c) => DeclV::Container(container_view(c)),
        Decl::RootGlob(n) => DeclV::RootGlob(n as nat),
        Decl::CallSig(cs) => DeclV::CallSig(cs@),
        Decl::Other(s) => DeclV::Other(s@),
    }
}

/// View of a container.
pub open spec fn container_view(c: Container) -> ContainerV
    decreases c,
{
    ContainerV {
        attrs: attrs_view(c.attrs@),
        ident: c.ident@,
        content: match c.content {
            Some(ds) => Some(decls_view(ds@)),
            None => None,
        },
    }
}

/// View of a declaration list.
pub open spec fn decls_view(s: Seq<Decl>) -> Seq<DeclV>
    decreases s,
{
    if s.len() == 0 {
        Seq::empty()
    } else {
        seq![decl_view(s[0])] + decls_view(s.drop_first())
    }
}

impl View for Decl {
    type V = DeclV;

    open spec fn view(&self) -> DeclV {
        decl_view(*self)
    }
}

impl View for Container {
    type V = ContainerV;

    open spec fn view(&self) -> ContainerV {
        container_view(*self)
    }
}

/// The nesting height of one declaration: how many containers a path from
/// here can descend through.
pub open spec fn decl_height(d: DeclV) -> nat
    decreases d,
{
    match d {
        DeclV::Container(c) => container_height(c),
        _ => 0,
    }
}

/// The nesting height of a container: itself plus its deepest child.
pub open spec fn container_height(c: ContainerV) -> nat
    decreases c,
{
    1 + match c.content {
        Some(items) => decls_height(items),
        None => 0,
    }
}

/// The deepest nesting height among a declaration list.
pub open spec fn decls_height(s: Seq<DeclV>) -> nat
    decreases s,
{
    if s.len() == 0 {
        0
    } else if decl_height(s[0]) >= decls_height(s.drop_first()) {
        decl_height(s[0])
    } else {
        decls_height(s.drop_first())
    }
}

/// No member of a list is deeper than the list.
pub proof fn lemma_decls_height(s: Seq<DeclV>)
    ensures
        forall|i: int| 0 <= i < s.len() ==> decl_height(s[i]) <= decls_height(s),
    decreases s,
{
    if s.len() > 0 {
        lemma_decls_height(s.drop_first());
        assert(forall|j: int| 1 <= j < s.len() ==> s[j] == s.drop_first()[j - 1]);
    }
}

impl CarrierField {
    /// An equal carrier field.
    pub fn clone_field(&self) -> (r: CarrierField)
        ensures
            r@ == self@,
    {
        CarrierField { ident: self.ident.clone(), ty: clone_ty(&self.ty) }
    }
}

impl ArgsCarrier {
    /// An equal argument-record carrier.
    #[verifier::loop_isolation(false)]
    pub fn clone_carrier(&self) -> (r: ArgsCarrier)
        ensures
            r@ == self@,
    {
        let mut fields: Vec<CarrierField> = Vec::new();
        let n = self.fields.len();
        let mut i: usize = 0;
        while i < n
            invariant
                i <= n,
                fields@.len() == i,
                forall|k: int| 0 <= k < i ==> fields@[k]@ == self.fields@[k]@,
            decreases n - i,
        {
            fields.push(self.fields[i].clone_field());
            i = i + 1;
        }
        let r = ArgsCarrier { lifetimes: clone_lifetimes(&self.lifetimes), fields };
        proof {
            assert(r@.fields =~= self@.fields);
            assert(r@ =~= self@);
        }
        r
    }
}

impl RetCarrier {
    /// An equal return-alias carrier.
    pub fn clone_carrier(&self) -> (r: RetCarrier)
        ensures
            r@ == self@,
    {
        let r = RetCarrier { lifetimes: clone_lifetimes(&self.lifetimes), ty: clone_ty(&self.ty) };
        proof {
            assert(r@ =~= self@);
        }
        r
    }
}

/// A declaration list's view is its elementwise view.
pub broadcast proof fn lemma_decls_view(s: Seq<Decl>)
    ensures
        (#[trigger] decls_view(s)).len() == s.len(),
        forall|i: int| 0 <= i < s.len() ==> decls_view(s)[i] == decl_view(s[i]),
    decreases s,
{
    if s.len() > 0 {
        lemma_decls_view(s.drop_first());
    }
}

// ---------------------------------------------------------------------------
// Duplication with an unchanged view
// ---------------------------------------------------------------------------
/// An equal string list.
#[verifier::loop_isolation(false)]
pub fn clone_strings(v: &Vec<String>) -> (r: Vec<String>)
    ensures
        r@.len() == v@.len(),
        forall|i: int| 0 <= i < v@.len() ==> r@[i]@ == v@[i]@,
{
    let mut out: Vec<String> = Vec::new();
    let n = v.len();
    let mut i: usize = 0;
    while i < n
        invariant
            i <= n,
            out@.len() == i,
            forall|k: int| 0 <= k < i ==> out@[k]@ == v@[k]@,
        decreases n - i,
    {
        out.push(v[i].clone());
        i = i + 1;
    }
    out
}

impl Lifetime {
    /// An equal lifetime.
    pub fn clone_lt(&self) -> (r: Lifetime)
        ensures
            r@ == self@,
    {
        match self {
            Lifetime::Immortal => Lifetime::Immortal,
            Lifetime::Placeholder => Lifetime::Placeholder,
            Lifetime::Named(n) => Lifetime::Named(n.clone()),
            Lifetime::Synthetic(k) => Lifetime::Synthetic(*k),
        }
    }
}

/// An equal lifetime list.
#[verifier::loop_isolation(false)]
pub fn clone_lifetimes(v: &Vec<Lifetime>) -> (r: Vec<Lifetime>)
    ensures
        lts_view(r@) == lts_view(v@),
{
    let mut out: Vec<Lifetime> = Vec::new();
    let n = v.len();
    let mut i: usize = 0;
    while i < n
        invariant
            i <= n,
            out@.len() == i,
            forall|k: int| 0 <= k < i ==> out@[k]@ == v@[k]@,
        decreases n - i,
    {
        out.push(v[i].clone_lt());
        i = i + 1;
    }
    proof {
        assert(lts_view(out@) =~= lts_view(v@));
    }
    out
}

/// View of a string list.
pub open spec fn strs_view(s: Seq<String>) -> Seq<Seq<char>> {
    Seq::new(s.len(), |i: int| s[i]@)
}

/// Whether a string list holds a given string.
#[verifier::loop_isolation(false)]
pub fn contains_str(set: &Vec<String>, s: &String) -> (r: bool)
    ensures
        r == strs_view(set@).contains(s@),
{
    let n = set.len();
    let mut i: usize = 0;
    while i < n
        invariant
            i <= n,
            forall|k: int| 0 <= k < i ==> set@[k]@ != s@,
        decreases n - i,
    {
        if set[i] == *s {
            proof {
                assert(strs_view(set@)[i as int] == s@);
            }
            return true;
        }
        i = i + 1;
    }
    proof {
        assert forall|k: int| 0 <= k < strs_view(set@).len() implies strs_view(set@)[k] != s@ by {}
    }
    false
}

/// The ghost path with the one given segment.
pub open spec fn spec_path1(name: Seq<char>) -> AttrPathV {
    AttrPathV { segments: seq![name] }
}

/// The ghost path with the two given segments.
pub open spec fn spec_path2(a: Seq<char>, b: Seq<char>) -> AttrPathV {
    AttrPathV { segments: seq![a, b] }
}

impl AttrPath {
    /// The path with the one given segment.
    pub fn from_name(name: &str) -> (r: AttrPath)
        ensures
            r@ == spec_path1(name@),
    {
        let mut segments: Vec<String> = Vec::new();
        segments.push(name.to_owned());
        let r = AttrPath { segments };
        proof {
            assert(r@.segments =~= seq![name@]);
        }
        r
    }

    /// The path with the two given segments.
    pub fn from_two(a: &str, b: &str) -> (r: AttrPath)
        ensures
            r@ == spec_path2(a@, b@),
    {
        let mut segments: Vec<String> = Vec::new();
        segments.push(a.to_owned());
        segments.push(b.to_owned());
        let r = AttrPath { segments };
        proof {
            assert(r@.segments =~= seq![a@, b@]);
        }
        r
    }

    /// Whether the path is exactly the one given single-segment name.
    pub fn is_ident(&self, name: &str) -> (r: bool)
        ensures
            r == (self@ == spec_path1(name@)),
    {
        if self.segments.len() != 1 {
            proof {
                assert(self@.segments.len() != 1);
            }
            return false;
        }
        let r = self.segments[0] == name.to_owned();
        proof {
            if self.segments@[0]@ == name@ {
                assert(self@.segments =~= seq![name@]);
            } else {
                assert(self@.segments[0] != spec_path1(name@).segments[0]);
            }
        }
        r
    }

    /// An equal attribute path.
    pub fn clone_path(&self) -> (r: AttrPath)
        ensures
            r@ == self@,
    {
        let r = AttrPath { segments: clone_strings(&self.segments) };
        proof {
            assert(r@.segments =~= self@.segments);
        }
        r
    }
}

/// An equal attribute-path list.
#[verifier::loop_isolation(false)]
pub fn clone_attr_paths(v: &Vec<AttrPath>) -> (r: Vec<AttrPath>)
    ensures
        attr_paths_view(r@) == attr_paths_view(v@),
{
    let mut out: Vec<AttrPath> = Vec::new();
    let n = v.len();
    let mut i: usize = 0;
    while i < n
        invariant
            i <= n,
            out@.len() == i,
            forall|k: int| 0 <= k < i ==> out@[k]@ == v@[k]@,
        decreases n - i,
    {
        out.push(v[i].clone_path());
        i = i + 1;
    }
    proof {
        assert(attr_paths_view(out@) =~= attr_paths_view(v@));
    }
    out
}

/// An equal type expression.
#[verifier::loop_isolation(false)]
pub fn clone_ty(t: &Ty) -> (r: Ty)
    ensures
        r@ == t@,
    decreases t,
{
    match t {
        Ty::Path(p) => Ty::Path(clone_ty_path(p)),
        Ty::Reference(rf) => Ty::Reference(
            RefTy {
                lifetime: match &rf.lifetime {
                    Some(l) => Some(l.clone_lt()),
                    None => None,
                },
                mutable: rf.mutable,
                elem: Box::new(clone_ty(&rf.elem)),
            },
        ),
        Ty::BareFn(f) => Ty::BareFn(
            BareFnTy {
                binder: clone_lifetimes(&f.binder),
                inputs: clone_tys(&f.inputs),
                output: clone_opt_ty(&f.output),
            },
        ),
        Ty::Tuple(ts) => Ty::Tuple(clone_tys(ts)),
        Ty::Opaque(s) => Ty::Opaque(s.clone()),
        Ty::Slice(e) => Ty::Slice(Box::new(clone_ty(e))),
        Ty::TraitObject(bs) => {
            let mut out: Vec<TraitBoundTy> = Vec::new();
            let n = bs.len();
            let mut i: usize = 0;
            while i < n
                invariant
                    i <= n,
                    out@.len() == i,
                    forall|k: int| 0 <= k < i ==> traitbound_view(out@[k]) == traitbound_view(
                        bs@[k],
                    ),
                decreases n - i,
            {
                let b = &bs[i];
                out.push(TraitBoundTy { binder: clone_lifetimes(&b.binder), path: clone_ty_path(&b.path) });
                i = i + 1;
            }
            proof {
                lemma_traitbounds_view(out@);
                lemma_traitbounds_view(bs@);
                assert(traitbounds_view(out@) =~= traitbounds_view(bs@));
            }
            Ty::TraitObject(out)
        },
    }
}

/// An equal optional type.
pub fn clone_opt_ty(t: &Option<Box<Ty>>) -> (r: Option<Box<Ty>>)
    ensures
        opt_ty_view(r) == opt_ty_view(*t),
    decreases t,
{
    match t {
        Some(b) => Some(Box::new(clone_ty(b))),
        None => None,
    }
}

/// An equal type list.
#[verifier::loop_isolation(false)]
pub fn clone_tys(v: &Vec<Ty>) -> (r: Vec<Ty>)
    ensures
        tys_view(r@) == tys_view(v@),
    decreases v,
{
    let mut out: Vec<Ty> = Vec::new();
    let n = v.len();
    let mut i: usize = 0;
    while i < n
        invariant
            i <= n,
            out@.len() == i,
            forall|k: int| 0 <= k < i ==> ty_view(out@[k]) == ty_view(v@[k]),
        decreases n - i,
    {
        out.push(clone_ty(&v[i]));
        i = i + 1;
    }
    proof {
        lemma_tys_view(out@);
        lemma_tys_view(v@);
        assert(tys_view(out@) =~= tys_view(v@));
    }
    out
}

/// An equal path type.
#[verifier::loop_isolation(false)]
pub fn clone_ty_path(p: &TyPath) -> (r: TyPath)
    ensures
        r@ == p@,
    decreases p,
{
    let qself = match &p.qself {
        Some(q) => Some(QSelf { ty: Box::new(clone_ty(&q.ty)), position: q.position }),
        None => None,
    };
    let mut segs: Vec<PathSeg> = Vec::new();
    let n = p.segments.len();
    let mut i: usize = 0;
    while i < n
        invariant
            i <= n,
            segs@.len() == i,
            forall|k: int| 0 <= k < i ==> pathseg_view(segs@[k]) == pathseg_view(p.segments@[k]),
        decreases n - i,
    {
        segs.push(clone_pathseg(&p.segments[i]));
        i = i + 1;
    }
    proof {
        lemma_pathsegs_view(segs@);
        lemma_pathsegs_view(p.segments@);
        assert(pathsegs_view(segs@) =~= pathsegs_view(p.segments@));
    }
    let r = TyPath { leading_colon: p.leading_colon, qself, segments: segs };
    proof {
        assert(r@ =~= p@);
    }
    r
}

/// An equal path segment.
pub fn clone_pathseg(s: &PathSeg) -> (r: PathSeg)
    ensures
        pathseg_view(r) == pathseg_view(*s),
    decreases s,
{
    PathSeg {
        ident: s.ident.clone(),
        args: match &s.args {
            SegArgs::Angle(gs) => SegArgs::Angle(clone_genargs(gs)),
            SegArgs::Paren(p) => SegArgs::Paren(
                ParenArgs { inputs: clone_tys(&p.inputs), output: clone_opt_ty(&p.output) },
            ),
        },
    }
}

/// An equal generic argument.
pub fn clone_genarg(g: &GenArg) -> (r: GenArg)
    ensures
        genarg_view(r) == genarg_view(*g),
    decreases g,
{
    match g {
        GenArg::Lifetime(l) => GenArg::Lifetime(l.clone_lt()),
        GenArg::Ty(t) => GenArg::Ty(clone_ty(t)),
        GenArg::Konst(k) => GenArg::Konst(k.clone()),
    }
}

/// An equal generic-argument list.
#[verifier::loop_isolation(false)]
pub fn clone_genargs(v: &Vec<GenArg>) -> (r: Vec<GenArg>)
    ensures
        genargs_view(r@) == genargs_view(v@),
    decreases v,
{
    let mut out: Vec<GenArg> = Vec::new();
    let n = v.len();
    let mut i: usize = 0;
    while i < n
        invariant
            i <= n,
            out@.len() == i,
            forall|k: int| 0 <= k < i ==> genarg_view(out@[k]) == genarg_view(v@[k]),
        decreases n - i,
    {
        out.push(clone_genarg(&v[i]));
        i = i + 1;
    }
    proof {
        lemma_genargs_view(out@);
        lemma_genargs_view(v@);
        assert(genargs_view(out@) =~= genargs_view(v@));
    }
    out
}

impl Attr {
    /// An equal attribute.
    pub fn clone_attr(&self) -> (r: Attr)
        ensures
            r@ == self@,
    {
        let r = Attr {
            inner: self.inner,
            path: self.path.clone_path(),
            args: match &self.args {
                AttrArgs::Empty => AttrArgs::Empty,
                AttrArgs::Meta(ms) => AttrArgs::Meta(clone_meta_items(ms)),
                AttrArgs::TypeArgs(gs) => AttrArgs::TypeArgs(clone_genargs(gs)),
                AttrArgs::Opaque(s) => AttrArgs::Opaque(s.clone()),
            },
        };
        proof {
            assert(r@ =~= self@);
        }
        r
    }
}

/// An equal attribute list.
#[verifier::loop_isolation(false)]
pub fn clone_attrs(v: &Vec<Attr>) -> (r: Vec<Attr>)
    ensures
        attrs_view(r@) == attrs_view(v@),
{
    let mut out: Vec<Attr> = Vec::new();
    let n = v.len();
    let mut i: usize = 0;
    while i < n
        invariant
            i <= n,
            out@.len() == i,
            forall|k: int| 0 <= k < i ==> out@[k]@ == v@[k]@,
        decreases n - i,
    {
        out.push(v[i].clone_attr());
        i = i + 1;
    }
    proof {
        assert(attrs_view(out@) =~= attrs_view(v@));
    }
    out
}

/// An equal configuration item.
pub fn clone_meta_item(m: &MetaItem) -> (r: MetaItem)
    ensures
        r@ == m@,
{
    let r = MetaItem {
        path: m.path.clone_path(),
        value: match &m.value {
            MetaValue::Paths(ps) => MetaValue::Paths(clone_attr_paths(ps)),
            MetaValue::Other => MetaValue::Other,
        },
    };
    proof {
        assert(r@ =~= m@);
    }
    r
}

impl LtDecl {
    /// An equal lifetime declaration.
    pub fn clone_decl(&self) -> (r: LtDecl)
        ensures
            r@ == self@,
    {
        let r = LtDecl {
            lifetime: self.lifetime.clone_lt(),
            bounds: clone_lifetimes(&self.bounds),
        };
        proof {
            assert(r@ =~= self@);
        }
        r
    }
}

/// Equal function generics.
#[verifier::loop_isolation(false)]
pub fn clone_generics(g: &Generics) -> (r: Generics)
    ensures
        r@ == g@,
{
    let mut params: Vec<GenParam> = Vec::new();
    let n = g.params.len();
    let mut i: usize = 0;
    while i < n
        invariant
            i <= n,
            params@.len() == i,
            forall|k: int| 0 <= k < i ==> params@[k]@ == g.params@[k]@,
        decreases n - i,
    {
        let p = match &g.params[i] {
            GenParam::Lifetime(d) => GenParam::Lifetime(d.clone_decl()),
            GenParam::Type(d) => GenParam::Type(
                TypeParamDecl { ident: d.ident.clone(), decl: d.decl.clone() },
            ),
            GenParam::Konst(d) => GenParam::Konst(
                KonstParamDecl { ident: d.ident.clone(), decl: d.decl.clone() },
            ),
        };
        params.push(p);
        i = i + 1;
    }
    let mut where_preds: Vec<WherePred> = Vec::new();
    let m = g.where_preds.len();
    let mut j: usize = 0;
    while j < m
        invariant
            j <= m,
            where_preds@.len() == j,
            forall|k: int| 0 <= k < j ==> where_preds@[k]@ == g.where_preds@[k]@,
        decreases m - j,
    {
        let p = match &g.where_preds[j] {
            WherePred::Lifetime(d) => WherePred::Lifetime(d.clone_decl()),
            WherePred::Other(t) => WherePred::Other(t.clone()),
        };
        where_preds.push(p);
        j = j + 1;
    }
    let r = Generics { params, where_preds };
    proof {
        assert(r@.params =~= g@.params);
        assert(r@.where_preds =~= g@.where_preds);
    }
    r
}

/// An equal parameter.
pub fn clone_param(p: &Param) -> (r: Param)
    ensures
        r@ == p@,
{
    match p {
        Param::Receiver => Param::Receiver,
        Param::Typed(t) => {
            let r = Param::Typed(
                TypedParam {
                    attrs: clone_attrs(&t.attrs),
                    pat: match &t.pat {
                        Pat::Ident(pi) => Pat::Ident(
                            PatIdent {
                                ident: pi.ident.clone(),
                                mutable: pi.mutable,
                                by_ref: pi.by_ref,
                                has_subpat: pi.has_subpat,
                                has_attrs: pi.has_attrs,
                            },
                        ),
                        Pat::Wild => Pat::Wild,
                        Pat::Other => Pat::Other,
                    },
                    ty: clone_ty(&t.ty),
                },
            );
            proof {
                assert(r@ =~= p@);
            }
            r
        },
    }
}

/// An equal parameter list.
#[verifier::loop_isolation(false)]
pub fn clone_params(v: &Vec<Param>) -> (r: Vec<Param>)
    ensures
        params_view(r@) == params_view(v@),
{
    let mut out: Vec<Param> = Vec::new();
    let n = v.len();
    let mut i: usize = 0;
    while i < n
        invariant
            i <= n,
            out@.len() == i,
            forall|k: int| 0 <= k < i ==> out@[k]@ == v@[k]@,
        decreases n - i,
    {
        out.push(clone_param(&v[i]));
        i = i + 1;
    }
    proof {
        assert(params_view(out@) =~= params_view(v@));
    }
    out
}

/// An equal optional return type.
pub fn clone_output(t: &Option<Ty>) -> (r: Option<Ty>)
    ensures
        ({
            let l = match *t {
                Some(ty) => Some(ty_view(ty)),
                None => None,
            };
            let rv = match r {
                Some(ty) => Some(ty_view(ty)),
                None => None,
            };
            rv == l
        }),
{
    match t {
        Some(ty) => Some(clone_ty(ty)),
        None => None,
    }
}

impl ShimFn {
    /// An equal forwarding layer.
    pub fn clone_shim(&self) -> (r: ShimFn)
        ensures
            r@ == self@,
    {
        let r = ShimFn {
            asyncness: self.asyncness,
            lifetimes: clone_lifetimes(&self.lifetimes),
            args_carrier: self.args_carrier,
            args_lifetimes: clone_lifetimes(&self.args_lifetimes),
            ret_carrier: self.ret_carrier,
            ret_lifetimes: clone_lifetimes(&self.ret_lifetimes),
            root_supers: self.root_supers,
            target: self.target.clone(),
            inst_args: clone_genargs(&self.inst_args),
            arg_names: clone_strings(&self.arg_names),
            awaited: self.awaited,
        };
        proof {
            assert(Seq::new(r.arg_names@.len(), |i: int| r.arg_names@[i]@) =~= Seq::new(
                self.arg_names@.len(),
                |i: int| self.arg_names@[i]@,
            ));
            assert(r@ =~= self@);
        }
        r
    }
}

/// An equal function body.
pub fn clone_body(b: &Body) -> (r: Body)
    ensures
        r@ == b@,
{
    match b {
        Body::Opaque(s) => Body::Opaque(s.clone()),
        Body::Forward(f) => {
            let r = Body::Forward(
                ForwardBody {
                    shim: f.shim.clone_shim(),
                    field_inits: clone_strings(&f.field_inits),
                    awaited: f.awaited,
                },
            );
            proof {
                assert(r@->Forward_0.field_inits =~= b@->Forward_0.field_inits);
                assert(r@ =~= b@);
            }
            r
        },
    }
}

// ---------------------------------------------------------------------------
// Structural equality, decided on views
// ---------------------------------------------------------------------------
impl Lifetime {
    /// Whether two lifetimes are the same.
    pub fn eq_lt(&self, other: &Lifetime) -> (r: bool)
        ensures
            r == (self@ == other@),
    {
        match (self, other) {
            (Lifetime::Immortal, Lifetime::Immortal) => true,
            (Lifetime::Placeholder, Lifetime::Placeholder) => true,
            (Lifetime::Named(a), Lifetime::Named(b)) => *a == *b,
            (Lifetime::Synthetic(a), Lifetime::Synthetic(b)) => *a == *b,
            _ => false,
        }
    }
}

/// Whether two lifetime lists are the same, element for element.
#[verifier::loop_isolation(false)]
pub fn eq_lifetimes(a: &Vec<Lifetime>, b: &Vec<Lifetime>) -> (r: bool)
    ensures
        r == (lts_view(a@) == lts_view(b@)),
{
    if a.len() != b.len() {
        proof {
            assert(lts_view(a@).len() != lts_view(b@).len());
        }
        return false;
    }
    let n = a.len();
    let mut i: usize = 0;
    while i < n
        invariant
            i <= n,
            forall|k: int| 0 <= k < i ==> a@[k]@ == b@[k]@,
        decreases n - i,
    {
        if !a[i].eq_lt(&b[i]) {
            proof {
                assert(lts_view(a@)[i as int] != lts_view(b@)[i as int]);
            }
            return false;
        }
        i = i + 1;
    }
    proof {
        assert(lts_view(a@) =~= lts_view(b@));
    }
    true
}

impl AttrPath {
    /// Whether two attribute paths are the same, segment for segment.
    #[verifier::loop_isolation(false)]
    pub fn eq_path(&self, other: &AttrPath) -> (r: bool)
        ensures
            r == (self@ == other@),
    {
        if self.segments.len() != other.segments.len() {
            proof {
                assert(self@.segments.len() != other@.segments.len());
            }
            return false;
        }
        let n = self.segments.len();
        let mut i: usize = 0;
        while i < n
            invariant
                i <= n,
                forall|k: int| 0 <= k < i ==> self.segments@[k]@ == other.segments@[k]@,
            decreases n - i,
        {
            if !(self.segments[i] == other.segments[i]) {
                proof {
                    assert(self@.segments[i as int] != other@.segments[i as int]);
                }
                return false;
            }
            i = i + 1;
        }
        proof {
            assert(self@.segments =~= other@.segments);
        }
        true
    }
}

/// Whether a path list holds a given path.
#[verifier::loop_isolation(false)]
pub fn contains_path(set: &Vec<AttrPath>, p: &AttrPath) -> (r: bool)
    ensures
        r == attr_paths_view(set@).contains(p@),
{
    let n = set.len();
    let mut i: usize = 0;
    while i < n
        invariant
            i <= n,
            forall|k: int| 0 <= k < i ==> set@[k]@ != p@,
        decreases n - i,
    {
        if set[i].eq_path(p) {
            proof {
                assert(attr_paths_view(set@)[i as int] == p@);
            }
            return true;
        }
        i = i + 1;
    }
    proof {
        assert forall|k: int| 0 <= k < attr_paths_view(set@).len() implies attr_paths_view(set@)[k]
            != p@ by {}
    }
    false
}

/// Whether two type expressions are the same.
#[verifier::loop_isolation(false)]
pub fn eq_ty(a: &Ty, b: &Ty) -> (r: bool)
    ensures
        r == (a@ == b@),
    decreases a,
{
    match (a, b) {
        (Ty::Path(p1), Ty::Path(p2)) => eq_ty_path(p1, p2),
        (Ty::Reference(r1), Ty::Reference(r2)) => {
            let lt_ok = match (&r1.lifetime, &r2.lifetime) {
                (None, None) => true,
                (Some(l1), Some(l2)) => l1.eq_lt(l2),
                _ => false,
            };
            lt_ok && r1.mutable == r2.mutable && eq_ty(&r1.elem, &r2.elem)
        },
        (Ty::BareFn(f1), Ty::BareFn(f2)) => eq_lifetimes(&f1.binder, &f2.binder) && eq_tys(
            &f1.inputs,
            &f2.inputs,
        ) && eq_opt_ty(&f1.output, &f2.output),
        (Ty::Tuple(t1), Ty::Tuple(t2)) => eq_tys(t1, t2),
        (Ty::Slice(e1), Ty::Slice(e2)) => eq_ty(e1, e2),
        (Ty::Opaque(s1), Ty::Opaque(s2)) => *s1 == *s2,
        (Ty::TraitObject(b1), Ty::TraitObject(b2)) => {
            if b1.len() != b2.len() {
                proof {
                    lemma_traitbounds_view(b1@);
                    lemma_traitbounds_view(b2@);
                }
                return false;
            }
            let n = b1.len();
            let mut i: usize = 0;
            while i < n
                invariant
                    i <= n,
                    forall|k: int| 0 <= k < i ==> traitbound_view(b1@[k]) == traitbound_view(
                        b2@[k],
                    ),
                decreases n - i,
            {
                let ok = eq_lifetimes(&b1[i].binder, &b2[i].binder) && eq_ty_path(
                    &b1[i].path,
                    &b2[i].path,
                );
                if !ok {
                    proof {
                        lemma_traitbounds_view(b1@);
                        lemma_traitbounds_view(b2@);
                        assert(traitbounds_view(b1@)[i as int] != traitbounds_view(b2@)[i as int]);
                    }
                    return false;
                }
                i = i + 1;
            }
            proof {
                lemma_traitbounds_view(b1@);
                lemma_traitbounds_view(b2@);
                assert(traitbounds_view(b1@) =~= traitbounds_view(b2@));
            }
            true
        },
        _ => false,
    }
}

/// Whether two optional types are the same.
pub fn eq_opt_ty(a: &Option<Box<Ty>>, b: &Option<Box<Ty>>) -> (r: bool)
    ensures
        r == (opt_ty_view(*a) == opt_ty_view(*b)),
    decreases a,
{
    match (a, b) {
        (None, None) => true,
        (Some(t1), Some(t2)) => eq_ty(t1, t2),
        _ => false,
    }
}

/// Whether two type lists are the same, element for element.
#[verifier::loop_isolation(false)]
pub fn eq_tys(a: &Vec<Ty>, b: &Vec<Ty>) -> (r: bool)
    ensures
        r == (tys_view(a@) == tys_view(b@)),
    decreases a,
{
    proof {
        lemma_tys_view(a@);
        lemma_tys_view(b@);
    }
    if a.len() != b.len() {
        return false;
    }
    let n = a.len();
    let mut i: usize = 0;
    while i < n
        invariant
            i <= n,
            forall|k: int| 0 <= k < i ==> ty_view(a@[k]) == ty_view(b@[k]),
        decreases n - i,
    {
        if !eq_ty(&a[i], &b[i]) {
            proof {
                assert(tys_view(a@)[i as int] != tys_view(b@)[i as int]);
            }
            return false;
        }
        i = i + 1;
    }
    proof {
        assert(tys_view(a@) =~= tys_view(b@));
    }
    true
}

/// Whether two path types are the same.
#[verifier::loop_isolation(false)]
pub fn eq_ty_path(a: &TyPath, b: &TyPath) -> (r: bool)
    ensures
        r == (a@ == b@),
    decreases a,
{
    proof {
        lemma_pathsegs_view(a.segments@);
        lemma_pathsegs_view(b.segments@);
    }
    if a.leading_colon != b.leading_colon {
        return false;
    }
    let qself_ok = match (&a.qself, &b.qself) {
        (None, None) => true,
        (Some(q1), Some(q2)) => q1.position == q2.position && eq_ty(&q1.ty, &q2.ty),
        _ => false,
    };
    if !qself_ok {
        return false;
    }
    if a.segments.len() != b.segments.len() {
        return false;
    }
    let n = a.segments.len();
    let mut i: usize = 0;
    while i < n
        invariant
            i <= n,
            forall|k: int| 0 <= k < i ==> pathseg_view(a.segments@[k]) == pathseg_view(
                b.segments@[k],
            ),
        decreases n - i,
    {
        if !eq_pathseg(&a.segments[i], &b.segments[i]) {
            proof {
                assert(pathsegs_view(a.segments@)[i as int] != pathsegs_view(b.segments@)[
                    i as int
                ]);
            }
            return false;
        }
        i = i + 1;
    }
    proof {
        assert(pathsegs_view(a.segments@) =~= pathsegs_view(b.segments@));
    }
    true
}

/// Whether two path segments are the same.
pub fn eq_pathseg(a: &PathSeg, b: &PathSeg) -> (r: bool)
    ensures
        r == (pathseg_view(*a) == pathseg_view(*b)),
    decreases a,
{
    if !(a.ident == b.ident) {
        return false;
    }
    match (&a.args, &b.args) {
        (SegArgs::Angle(g1), SegArgs::Angle(g2)) => eq_genargs(g1, g2),
        (SegArgs::Paren(p1), SegArgs::Paren(p2)) => eq_tys(&p1.inputs, &p2.inputs) && eq_opt_ty(
            &p1.output,
            &p2.output,
        ),
        _ => false,
    }
}

/// Whether two generic arguments are the same.
pub fn eq_genarg(a: &GenArg, b: &GenArg) -> (r: bool)
    ensures
        r == (genarg_view(*a) == genarg_view(*b)),
    decreases a,
{
    match (a, b) {
        (GenArg::Lifetime(l1), GenArg::Lifetime(l2)) => l1.eq_lt(l2),
        (GenArg::Ty(t1), GenArg::Ty(t2)) => eq_ty(t1, t2),
        (GenArg::Konst(k1), GenArg::Konst(k2)) => *k1 == *k2,
        _ => false,
    }
}

/// Whether two generic-argument lists are the same, element for element.
#[verifier::loop_isolation(false)]
pub fn eq_genargs(a: &Vec<GenArg>, b: &Vec<GenArg>) -> (r: bool)
    ensures
        r == (genargs_view(a@) == genargs_view(b@)),
    decreases a,
{
    proof {
        lemma_genargs_view(a@);
        lemma_genargs_view(b@);
    }
    if a.len() != b.len() {
        return false;
    }
    let n = a.len();
    let mut i: usize = 0;
    while i < n
        invariant
            i <= n,
            forall|k: int| 0 <= k < i ==> genarg_view(a@[k]) == genarg_view(b@[k]),
        decreases n - i,
    {
        if !eq_genarg(&a[i], &b[i]) {
            proof {
                assert(genargs_view(a@)[i as int] != genargs_view(b@)[i as int]);
            }
            return false;
        }
        i = i + 1;
    }
    proof {
        assert(genargs_view(a@) =~= genargs_view(b@));
    }
    true
}

/// An equal configuration-item list.
#[verifier::loop_isolation(false)]
pub fn clone_meta_items(v: &Vec<MetaItem>) -> (r: Vec<MetaItem>)
    ensures
        meta_items_view(r@) == meta_items_view(v@),
{
    let mut out: Vec<MetaItem> = Vec::new();
    let n = v.len();
    let mut i: usize = 0;
    while i < n
        invariant
            i <= n,
            out@.len() == i,
            forall|k: int| 0 <= k < i ==> out@[k]@ == v@[k]@,
        decreases n - i,
    {
        out.push(clone_meta_item(&v[i]));
        i = i + 1;
    }
    proof {
        assert(meta_items_view(out@) =~= meta_items_view(v@));
    }
    out
}

} // verus!
