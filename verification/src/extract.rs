//! Discovery of test functions and instantiation markers.
//!
//! The functions directly contained by the processing root are classified:
//! those carrying at least one marker attribute become test cases, their
//! markers are erased from the surviving definition and replicated onto
//! every forwarding function, and copied attributes are mirrored without
//! being erased.  Every test function of one unit must have the same count
//! of type and constant generic parameters.  Failures are recorded per
//! function; the unit fails only after the whole list was seen.

use vstd::prelude::*;

use crate::catalog::spec_intern_args;
use crate::catalog::spec_intern_ret;
use crate::catalog::SignatureCatalog;
use crate::catalog::SignatureCatalogV;
use crate::error::Diag;
use crate::error::DiagV;
use crate::error::ErrorRecord;
use crate::options::spec_apply_attr;
use crate::options::spec_is_copied_attr;
use crate::options::spec_is_test_attr;
use crate::options::is_copied_attr;
use crate::options::is_test_attr;
use crate::options::MacroOpts;
use crate::options::MacroOptsV;
use crate::options::TestFnOpts;
use crate::options::TestFnOptsV;
use crate::signature::spec_param_names;
use crate::signature::spec_signature_build;
use crate::signature::TestFnSignature;
use crate::signature::TestFnSignatureV;
use crate::tree::attrs_view;
use crate::tree::clone_body;
use crate::tree::clone_genargs;
use crate::tree::clone_generics;
use crate::tree::clone_output;
use crate::tree::clone_params;
use crate::tree::decls_view;
use crate::tree::genargs_view;
use crate::tree::spec_path1;
use crate::tree::Attr;
use crate::tree::AttrArgs;
use crate::tree::AttrV;
use crate::tree::ArgsCarrier;
use crate::tree::ArgsCarrierV;
use crate::tree::CarrierField;
use crate::tree::CarrierFieldV;
use crate::tree::Container;
use crate::tree::ContainerV;
use crate::tree::Decl;
use crate::tree::DeclV;
use crate::tree::FnDecl;
use crate::tree::FnDeclV;
use crate::tree::GenArg;
use crate::tree::GenArgV;
use crate::tree::Generics;
use crate::tree::RetCarrier;
use crate::tree::RetCarrierV;
use crate::tree::Ty;

verus! {

/// One discovered test function: the attributes to replicate, the mirrored
/// qualifiers, the written return type, the canonical signature, and the
/// handles of its two carriers in the unit's catalog.
pub struct TestFn {
    pub test_attrs: Vec<Attr>,
    pub asyncness: bool,
    pub unsafety: bool,
    pub ident: String,
    pub output: Option<Ty>,
    pub sig: TestFnSignature,
    pub args_carrier: usize,
    pub ret_carrier: usize,
}

/// Ghost form of one discovered test function.
#[verifier::ext_equal]
pub ghost struct TestFnV {
    pub test_attrs: Seq<AttrV>,
    pub asyncness: bool,
    pub unsafety: bool,
    pub ident: Seq<char>,
    pub output: Option<crate::tree::TyV>,
    pub sig: TestFnSignatureV,
    pub args_carrier: nat,
    pub ret_carrier: nat,
}

impl View for TestFn {
    type V = TestFnV;

    open spec fn view(&self) -> TestFnV {
        TestFnV {
            test_attrs: attrs_view(self.test_attrs@),
            asyncness: self.asyncness,
            unsafety: self.unsafety,
            ident: self.ident@,
            output: match self.output {
                Some(t) => Some(crate::tree::ty_view(t)),
                None => None,
            },
            sig: self.sig@,
            args_carrier: self.args_carrier as nat,
            ret_carrier: self.ret_carrier as nat,
        }
    }
}

/// View of a test-function list.
pub open spec fn test_fns_view(s: Seq<TestFn>) -> Seq<TestFnV> {
    Seq::new(s.len(), |i: int| s[i]@)
}

/// The unit's discovered test functions with their shared catalog.
pub struct Tests {
    pub test_fns: Vec<TestFn>,
    pub catalog: SignatureCatalog,
}

/// Ghost form of the unit's test functions.
#[verifier::ext_equal]
pub ghost struct TestsV {
    pub test_fns: Seq<TestFnV>,
    pub catalog: SignatureCatalogV,
}

impl View for Tests {
    type V = TestsV;

    open spec fn view(&self) -> TestsV {
        TestsV { test_fns: test_fns_view(self.test_fns@), catalog: self.catalog@ }
    }
}

// ---------------------------------------------------------------------------
// Attribute extraction
// ---------------------------------------------------------------------------
/// What removing the override attributes does: every `generic_test`
/// attribute is taken out and applied to the function's configuration in
/// order, the rest keep their order; the first malformed override stops
/// everything.
pub open spec fn spec_strip_fn_opts(attrs: Seq<AttrV>, o: TestFnOptsV) -> Result<
    (Seq<AttrV>, TestFnOptsV),
    DiagV,
>
    decreases attrs,
{
    if attrs.len() == 0 {
        Ok((Seq::empty(), o))
    } else {
        let a = attrs[0];
        if a.path == spec_path1("generic_test"@) {
            let (o1, err) = spec_apply_attr(o, a.args);
            match err {
                Some(d) => Err(d),
                None => spec_strip_fn_opts(attrs.drop_first(), o1),
            }
        } else {
            match spec_strip_fn_opts(attrs.drop_first(), o) {
                Ok((rest, o1)) => Ok((seq![a] + rest, o1)),
                Err(d) => Err(d),
            }
        }
    }
}

/// What classification does to the remaining attributes: markers are taken
/// out in order, the rest keep their order.
pub open spec fn spec_take_markers(attrs: Seq<AttrV>, m: MacroOptsV, f: TestFnOptsV) -> (
    Seq<AttrV>,
    Seq<AttrV>,
)
    decreases attrs,
{
    if attrs.len() == 0 {
        (Seq::empty(), Seq::empty())
    } else {
        let a = attrs[0];
        let (markers, kept) = spec_take_markers(attrs.drop_first(), m, f);
        if spec_is_test_attr(a, m, f) {
            (seq![a] + markers, kept)
        } else {
            (markers, seq![a] + kept)
        }
    }
}

/// The copied attributes among the surviving ones, in order.
pub open spec fn spec_copied_attrs(attrs: Seq<AttrV>, m: MacroOptsV, f: TestFnOptsV) -> Seq<AttrV>
    decreases attrs,
{
    if attrs.len() == 0 {
        Seq::empty()
    } else {
        let rest = spec_copied_attrs(attrs.drop_first(), m, f);
        if spec_is_copied_attr(attrs[0], m, f) {
            seq![attrs[0]] + rest
        } else {
            rest
        }
    }
}

/// What attribute extraction makes of a function's attribute list: the
/// attributes to put on every forwarding function — the markers, followed by
/// the copied attributes — and the attributes the surviving definition
/// keeps.  A function with no marker yields no replicated attributes.  The
/// override attribute itself is always stripped.
pub open spec fn spec_extract_test_attrs(m: MacroOptsV, attrs: Seq<AttrV>) -> Result<
    (Seq<AttrV>, Seq<AttrV>),
    DiagV,
> {
    match spec_strip_fn_opts(attrs, TestFnOptsV { inst_attrs: None, copy_attrs: None }) {
        Err(d) => Err(d),
        Ok((kept1, fo)) => {
            let (markers, kept) = spec_take_markers(kept1, m, fo);
            let test_attrs = if markers.len() > 0 {
                markers + spec_copied_attrs(kept, m, fo)
            } else {
                markers
            };
            Ok((test_attrs, kept))
        },
    }
}

/// Extracts the attributes to replicate, as `spec_extract_test_attrs` says;
/// the second list is what the surviving definition keeps.
#[verifier::loop_isolation(false)]
fn extract_test_attrs(opts: &MacroOpts, attrs: &Vec<Attr>) -> (r: Result<
    (Vec<Attr>, Vec<Attr>),
    ErrorRecord,
>)
    ensures
        match r {
            Ok(p) => spec_extract_test_attrs(opts@, attrs_view(attrs@)) matches Ok(v)
                && attrs_view(p.0@) == v.0 && attrs_view(p.1@) == v.1,
            Err(e) => spec_extract_test_attrs(opts@, attrs_view(attrs@)) matches Err(d) && e@
                == seq![d],
        },
{
    let ghost full = attrs_view(attrs@);
    proof {
        assert(full.skip(0) =~= full);
    }
    let mut fn_opts = TestFnOpts::new();
    let ghost o0 = fn_opts@;
    let mut kept1: Vec<Attr> = Vec::new();
    let n = attrs.len();
    let mut i: usize = 0;
    while i < n
        invariant
            i <= n,
            spec_strip_fn_opts(full, o0) == (match spec_strip_fn_opts(
                full.skip(i as int),
                fn_opts@,
            ) {
                Ok(p) => Ok::<_, DiagV>((attrs_view(kept1@) + p.0, p.1)),
                Err(d) => Err(d),
            }),
        decreases n - i,
    {
        proof {
            assert(full.skip(i as int)[0] == attrs@[i as int]@);
        }
        let ghost kept_pre = kept1@;
        let a = &attrs[i];
        if a.path.is_ident("generic_test") {
            let cloned = a.clone_attr();
            match fn_opts.apply_attr(cloned.args) {
                Ok(_) => {},
                Err(e) => {
                    return Err(e);
                },
            }
        } else {
            kept1.push(a.clone_attr());
        }
        i = i + 1;
        proof {
            assert(full.skip(i - 1).drop_first() =~= full.skip(i as int));
            if kept1@.len() > kept_pre.len() {
                assert(attrs_view(kept1@) =~= attrs_view(kept_pre).push(kept1@[kept1@.len() - 1]@));
                match spec_strip_fn_opts(full.skip(i as int), fn_opts@) {
                    Ok(p) => {
                        assert(attrs_view(kept1@) + p.0 =~= attrs_view(kept_pre) + (seq![
                            kept1@[kept1@.len() - 1]@,
                        ] + p.0));
                    },
                    Err(_) => {},
                }
            }
        }
    }
    proof {
        assert(full.skip(n as int) =~= Seq::<AttrV>::empty());
        match spec_strip_fn_opts(full.skip(n as int), fn_opts@) {
            Ok(p) => {
                assert(attrs_view(kept1@) + p.0 =~= attrs_view(kept1@));
            },
            Err(_) => {},
        }
    }
    // classification: markers out, the rest stays
    let ghost full2 = attrs_view(kept1@);
    proof {
        assert(full2.skip(0) =~= full2);
    }
    let mut markers: Vec<Attr> = Vec::new();
    let mut kept: Vec<Attr> = Vec::new();
    let n2 = kept1.len();
    let mut j: usize = 0;
    while j < n2
        invariant
            j <= n2,
            spec_take_markers(full2, opts@, fn_opts@) == ((
                attrs_view(markers@) + spec_take_markers(
                    full2.skip(j as int),
                    opts@,
                    fn_opts@,
                ).0,
                attrs_view(kept@) + spec_take_markers(full2.skip(j as int), opts@, fn_opts@).1,
            )),
        decreases n2 - j,
    {
        proof {
            assert(full2.skip(j as int)[0] == kept1@[j as int]@);
        }
        let ghost markers_pre = markers@;
        let ghost kept_pre = kept@;
        let a = &kept1[j];
        if is_test_attr(a, opts, &fn_opts) {
            markers.push(a.clone_attr());
        } else {
            kept.push(a.clone_attr());
        }
        j = j + 1;
        proof {
            assert(full2.skip(j - 1).drop_first() =~= full2.skip(j as int));
            let tail = spec_take_markers(full2.skip(j as int), opts@, fn_opts@);
            if markers@.len() > markers_pre.len() {
                assert(attrs_view(markers@) =~= attrs_view(markers_pre).push(
                    markers@[markers@.len() - 1]@,
                ));
                assert(attrs_view(markers@) + tail.0 =~= attrs_view(markers_pre) + (seq![
                    markers@[markers@.len() - 1]@,
                ] + tail.0));
            } else {
                assert(attrs_view(kept@) =~= attrs_view(kept_pre).push(kept@[kept@.len() - 1]@));
                assert(attrs_view(kept@) + tail.1 =~= attrs_view(kept_pre) + (seq![
                    kept@[kept@.len() - 1]@,
                ] + tail.1));
            }
        }
    }
    proof {
        assert(full2.skip(n2 as int) =~= Seq::<AttrV>::empty());
        let tail = spec_take_markers(full2.skip(n2 as int), opts@, fn_opts@);
        assert(attrs_view(markers@) + tail.0 =~= attrs_view(markers@));
        assert(attrs_view(kept@) + tail.1 =~= attrs_view(kept@));
    }
    // copied attributes are appended to the markers, which stay in front
    if markers.len() > 0 {
        let ghost base = attrs_view(markers@);
        let ghost fullk = attrs_view(kept@);
        proof {
            assert(fullk.skip(0) =~= fullk);
        }
        let n3 = kept.len();
        let mut k: usize = 0;
        while k < n3
            invariant
                k <= n3,
                base + spec_copied_attrs(fullk, opts@, fn_opts@) == attrs_view(markers@)
                    + spec_copied_attrs(fullk.skip(k as int), opts@, fn_opts@),
            decreases n3 - k,
        {
            proof {
                assert(fullk.skip(k as int)[0] == kept@[k as int]@);
            }
            let ghost markers_pre = markers@;
            let a = &kept[k];
            if is_copied_attr(a, opts, &fn_opts) {
                markers.push(a.clone_attr());
                proof {
                    assert(attrs_view(markers@) =~= attrs_view(markers_pre).push(
                        markers@[markers@.len() - 1]@,
                    ));
                }
            }
            k = k + 1;
            proof {
                assert(fullk.skip(k - 1).drop_first() =~= fullk.skip(k as int));
                let tail = spec_copied_attrs(fullk.skip(k as int), opts@, fn_opts@);
                if markers@.len() > markers_pre.len() {
                    assert(attrs_view(markers@) + tail =~= attrs_view(markers_pre) + (seq![
                        markers@[markers@.len() - 1]@,
                    ] + tail));
                }
            }
        }
        proof {
            assert(fullk.skip(n3 as int) =~= Seq::<AttrV>::empty());
            assert(attrs_view(markers@) + Seq::<AttrV>::empty() =~= attrs_view(markers@));
        }
    }
    Ok((markers, kept))
}

/// Ghost form of an optional test-function view.
pub open spec fn opt_test_fn_view(o: Option<TestFn>) -> Option<TestFnV> {
    match o {
        Some(tf) => Some(tf@),
        None => None,
    }
}

/// What discovering one function does: its attributes are extracted; a
/// function with no marker is only stripped of its override attributes;
/// a test case has its signature built and its two carrier shapes
/// registered in the catalog.
pub open spec fn spec_test_fn_extract(m: MacroOptsV, f: FnDeclV, cat: SignatureCatalogV) -> Result<
    (Option<TestFnV>, FnDeclV, SignatureCatalogV),
    Seq<DiagV>,
> {
    match spec_extract_test_attrs(m, f.attrs) {
        Err(d) => Err(seq![d]),
        Ok((tas, kept)) => {
            let newf = FnDeclV {
                attrs: kept,
                constness: f.constness,
                asyncness: f.asyncness,
                unsafety: f.unsafety,
                abi: f.abi,
                variadic: f.variadic,
                ident: f.ident,
                generics: f.generics,
                inputs: f.inputs,
                output: f.output,
                body: f.body,
            };
            if tas.len() == 0 {
                Ok((None, newf, cat))
            } else {
                match spec_signature_build(f) {
                    Err(ds) => Err(ds),
                    Ok(sig) => {
                        let ad = ArgsCarrierV {
                            lifetimes: sig.input.item.lifetimes,
                            fields: Seq::new(
                                sig.input.args.len(),
                                |i: int| CarrierFieldV {
                                    ident: sig.input.args[i].ident,
                                    ty: sig.input.args[i].field_ty,
                                },
                            ),
                        };
                        let rd = RetCarrierV {
                            lifetimes: sig.output.item.lifetimes,
                            ty: sig.output.ty,
                        };
                        let (as1, ah) = spec_intern_args(cat.args_carriers, ad);
                        let (rs1, rh) = spec_intern_ret(cat.ret_carriers, rd);
                        Ok(
                            (
                                Some(
                                    TestFnV {
                                        test_attrs: tas,
                                        asyncness: f.asyncness,
                                        unsafety: f.unsafety,
                                        ident: f.ident,
                                        output: f.output,
                                        sig,
                                        args_carrier: ah,
                                        ret_carrier: rh,
                                    },
                                ),
                                newf,
                                SignatureCatalogV { args_carriers: as1, ret_carriers: rs1 },
                            ),
                        )
                    },
                }
            }
        },
    }
}

impl TestFn {
    /// Discovers one function as `spec_test_fn_extract` says: the test case
    /// found, if any, and the surviving definition.  The catalog is
    /// untouched when discovery fails.
    pub fn try_extract(opts: &MacroOpts, item: &FnDecl, catalog: &mut SignatureCatalog) -> (r:
        Result<(Option<TestFn>, FnDecl), ErrorRecord>)
        ensures
            ({
                let res = spec_test_fn_extract(opts@, item@, old(catalog)@);
                match r {
                    Ok(p) => res matches Ok(v) && opt_test_fn_view(p.0) == v.0 && p.1@ == v.1
                        && final(catalog)@ == v.2,
                    Err(e) => res matches Err(ds) && e@ == ds && final(catalog)@ == old(catalog)@,
                }
            }),
    {
        let (test_attrs, kept) = match extract_test_attrs(opts, &item.attrs) {
            Ok(p) => p,
            Err(e) => {
                return Err(e);
            },
        };
        let newf = FnDecl {
            attrs: kept,
            constness: item.constness,
            asyncness: item.asyncness,
            unsafety: item.unsafety,
            abi: item.abi,
            variadic: item.variadic,
            ident: item.ident.clone(),
            generics: clone_generics(&item.generics),
            inputs: clone_params(&item.inputs),
            output: clone_output(&item.output),
            body: clone_body(&item.body),
        };
        if test_attrs.len() == 0 {
            proof {
                assert(attrs_view(test_attrs@).len() == 0);
                assert(newf@ =~= (spec_test_fn_extract(
                    opts@,
                    item@,
                    old(catalog)@,
                )->Ok_0.1));
            }
            return Ok((None, newf));
        }
        let sig = match TestFnSignature::try_build(item) {
            Ok(s) => s,
            Err(e) => {
                return Err(e);
            },
        };
        let mut fields: Vec<CarrierField> = Vec::new();
        let nargs = sig.input.args.len();
        let mut i: usize = 0;
        #[verifier::loop_isolation(false)]
        while i < nargs
            invariant
                i <= nargs,
                fields@.len() == i,
                forall|k: int| 0 <= k < i ==> fields@[k]@ == (CarrierFieldV {
                    ident: sig@.input.args[k].ident,
                    ty: sig@.input.args[k].field_ty,
                }),
            decreases nargs - i,
        {
            let arg = &sig.input.args[i];
            fields.push(
                CarrierField { ident: arg.ident.clone(), ty: crate::tree::clone_ty(&arg.field_ty) },
            );
            i = i + 1;
        }
        let args_desc = ArgsCarrier { lifetimes: sig.input.item.lifetime_generics(), fields };
        let ghost sigv = sig@;
        proof {
            assert(args_desc@ =~= (ArgsCarrierV {
                lifetimes: sigv.input.item.lifetimes,
                fields: Seq::new(
                    sigv.input.args.len(),
                    |i: int| CarrierFieldV {
                        ident: sigv.input.args[i].ident,
                        ty: sigv.input.args[i].field_ty,
                    },
                ),
            }));
        }
        let args_carrier = catalog.intern_params(args_desc);
        let ret_desc = RetCarrier {
            lifetimes: sig.output.item.lifetime_generics(),
            ty: crate::tree::clone_ty(&sig.output.ty),
        };
        proof {
            assert(ret_desc@ =~= (RetCarrierV {
                lifetimes: sigv.output.item.lifetimes,
                ty: sigv.output.ty,
            }));
        }
        let ret_carrier = catalog.intern_ret(ret_desc);
        let tf = TestFn {
            test_attrs,
            asyncness: item.asyncness,
            unsafety: item.unsafety,
            ident: item.ident.clone(),
            output: clone_output(&item.output),
            sig,
            args_carrier,
            ret_carrier,
        };
        proof {
            let res = spec_test_fn_extract(opts@, item@, old(catalog)@);
            assert(tf@ =~= res->Ok_0.0->0);
            assert(newf@ =~= res->Ok_0.1);
            assert(catalog@ =~= res->Ok_0.2);
        }
        Ok((Some(tf), newf))
    }
}

/// A function's count of type and constant generic parameters.  Only the
/// count is compared across the test functions of a unit: the kinds at
/// matching positions are deliberately not cross-checked, an accepted
/// leniency of this design.
pub open spec fn spec_generic_arity(g: crate::tree::GenericsV) -> nat {
    spec_param_names(g.params).len()
}

/// Counts the type and constant generic parameters.
#[verifier::loop_isolation(false)]
fn generic_arity(generics: &Generics) -> (r: usize)
    ensures
        r as nat == spec_generic_arity(generics@),
{
    let names = crate::signature::generic_param_names(generics);
    names.len()
}

// ---------------------------------------------------------------------------
// The whole unit
// ---------------------------------------------------------------------------
/// The state of discovery over a declaration list: the test cases found,
/// the catalog, the unit-wide generic arity once one test case was seen,
/// the rewritten declarations, and the failures recorded so far.
#[verifier::ext_equal]
pub ghost struct ExtractStateV {
    pub tests: Seq<TestFnV>,
    pub catalog: SignatureCatalogV,
    pub arity: Option<nat>,
    pub out: Seq<DeclV>,
    pub errs: Seq<DiagV>,
}

/// The starting state of discovery.
pub open spec fn spec_extract_init() -> ExtractStateV {
    ExtractStateV {
        tests: Seq::empty(),
        catalog: SignatureCatalogV {
            args_carriers: Seq::empty(),
            ret_carriers: Seq::empty(),
        },
        arity: None,
        out: Seq::empty(),
        errs: Seq::empty(),
    }
}

/// What one declaration does to the discovery state: a failing function is
/// recorded and left as written; a function that is no test case only loses
/// its override attributes; a test case whose generic arity disagrees with
/// the unit's is recorded and not collected; every other declaration passes
/// through untouched.
pub open spec fn spec_extract_step(m: MacroOptsV, st: ExtractStateV, d: DeclV) -> ExtractStateV {
    match d {
        DeclV::Fn(f) => match spec_test_fn_extract(m, f, st.catalog) {
            Err(ds) => ExtractStateV { out: st.out.push(d), errs: st.errs + ds, ..st },
            Ok((otf, newf, cat1)) => match otf {
                None => ExtractStateV { out: st.out.push(DeclV::Fn(newf)), catalog: cat1, ..st },
                Some(tf) => {
                    let a = spec_generic_arity(f.generics);
                    match st.arity {
                        None => ExtractStateV {
                            tests: st.tests.push(tf),
                            catalog: cat1,
                            arity: Some(a),
                            out: st.out.push(DeclV::Fn(newf)),
                            errs: st.errs,
                        },
                        Some(n) => if a != n {
                            ExtractStateV {
                                tests: st.tests,
                                catalog: cat1,
                                arity: st.arity,
                                out: st.out.push(DeclV::Fn(newf)),
                                errs: st.errs.push(
                                    DiagV::ArityMismatch { ident: f.ident, found: a, expected: n },
                                ),
                            }
                        } else {
                            ExtractStateV {
                                tests: st.tests.push(tf),
                                catalog: cat1,
                                arity: st.arity,
                                out: st.out.push(DeclV::Fn(newf)),
                                errs: st.errs,
                            }
                        },
                    }
                },
            },
        },
        _ => ExtractStateV { out: st.out.push(d), ..st },
    }
}

/// Discovery over a whole declaration list, in order.
pub open spec fn spec_extract_items(m: MacroOptsV, items: Seq<DeclV>, st: ExtractStateV) -> ExtractStateV
    decreases items,
{
    if items.len() == 0 {
        st
    } else {
        spec_extract_items(m, items.drop_first(), spec_extract_step(m, st, items[0]))
    }
}

/// Ghost form of the unit-wide arity.
pub open spec fn opt_arity_view(o: Option<usize>) -> Option<nat> {
    match o {
        Some(n) => Some(n as nat),
        None => None,
    }
}

/// Runs discovery over a declaration list, recording every failure and
/// continuing with the siblings.
#[verifier::loop_isolation(false)]
fn extract_recording_errors(opts: &MacroOpts, items: Vec<Decl>) -> (r: (Tests, Vec<Decl>, ErrorRecord))
    ensures
        ({
            let st = spec_extract_items(opts@, decls_view(items@), spec_extract_init());
            &&& r.0@.test_fns == st.tests
            &&& r.0@.catalog == st.catalog
            &&& decls_view(r.1@) == st.out
            &&& r.2@ == st.errs
        }),
{
    let ghost full = decls_view(items@);
    let mut rest = items;
    let mut tests: Vec<TestFn> = Vec::new();
    let mut catalog = SignatureCatalog::new();
    let mut arity: Option<usize> = None;
    let mut out: Vec<Decl> = Vec::new();
    let mut errors = ErrorRecord::new();
    let ghost mut done: int = 0;
    proof {
        crate::tree::lemma_decls_view(items@);
        assert(full.skip(0) =~= full);
        assert(test_fns_view(tests@) =~= Seq::<TestFnV>::empty());
        assert(decls_view(out@) =~= Seq::<DeclV>::empty());
        assert((ExtractStateV {
            tests: test_fns_view(tests@),
            catalog: catalog@,
            arity: opt_arity_view(arity),
            out: decls_view(out@),
            errs: errors@,
        }) =~= spec_extract_init());
    }
    while rest.len() > 0
        invariant
            0 <= done <= full.len(),
            decls_view(rest@) == full.skip(done),
            spec_extract_items(opts@, full, spec_extract_init()) == spec_extract_items(
                opts@,
                full.skip(done),
                ExtractStateV {
                    tests: test_fns_view(tests@),
                    catalog: catalog@,
                    arity: opt_arity_view(arity),
                    out: decls_view(out@),
                    errs: errors@,
                },
            ),
        decreases rest.len(),
    {
        let ghost st_pre = ExtractStateV {
            tests: test_fns_view(tests@),
            catalog: catalog@,
            arity: opt_arity_view(arity),
            out: decls_view(out@),
            errs: errors@,
        };
        proof {
            crate::tree::lemma_decls_view(rest@);
        }
        let d = rest.remove(0);
        proof {
            assert(crate::tree::decl_view(d) == full.skip(done)[0]);
            crate::tree::lemma_decls_view(rest@);
            assert(decls_view(rest@) =~= full.skip(done).drop_first());
            assert(full.skip(done).drop_first() =~= full.skip(done + 1));
        }
        let ghost tests_pre = tests@;
        let ghost out_pre = out@;
        match d {
            Decl::Fn(f) => {
                match TestFn::try_extract(opts, &f, &mut catalog) {
                    Err(e) => {
                        errors.append(e);
                        out.push(Decl::Fn(f));
                    },
                    Ok((otf, newf)) => match otf {
                        None => {
                            out.push(Decl::Fn(newf));
                        },
                        Some(tf) => {
                            let a = generic_arity(&f.generics);
                            match arity {
                                None => {
                                    arity = Some(a);
                                    tests.push(tf);
                                    out.push(Decl::Fn(newf));
                                },
                                Some(n) => {
                                    if a != n {
                                        errors.add_error(
                                            Diag::ArityMismatch {
                                                ident: f.ident.clone(),
                                                found: a,
                                                expected: n,
                                            },
                                        );
                                        out.push(Decl::Fn(newf));
                                    } else {
                                        tests.push(tf);
                                        out.push(Decl::Fn(newf));
                                    }
                                },
                            }
                        },
                    },
                }
            },
            other => {
                out.push(other);
            },
        }
        proof {
            done = done + 1;
            crate::tree::lemma_decls_view(out@);
            crate::tree::lemma_decls_view(out_pre);
            assert(decls_view(out@) =~= decls_view(out_pre).push(
                crate::tree::decl_view(out@[out@.len() - 1]),
            ));
            if tests@.len() > tests_pre.len() {
                assert(test_fns_view(tests@) =~= test_fns_view(tests_pre).push(
                    tests@[tests@.len() - 1]@,
                ));
            } else {
                assert(test_fns_view(tests@) =~= test_fns_view(tests_pre));
            }
            assert((ExtractStateV {
                tests: test_fns_view(tests@),
                catalog: catalog@,
                arity: opt_arity_view(arity),
                out: decls_view(out@),
                errs: errors@,
            }) =~= spec_extract_step(opts@, st_pre, full.skip(done - 1)[0]));
        }
    }
    proof {
        assert(full.skip(done) =~= Seq::<DeclV>::empty());
        assert(decls_view(rest@).len() == 0);
    }
    (Tests { test_fns: tests, catalog }, out, errors)
}

/// What extracting a whole unit does: a root without an inline body is the
/// one hard error; otherwise discovery runs over every declaration, and the
/// unit fails with all recorded failures together, or yields the test cases
/// and the rewritten declarations.
pub open spec fn spec_tests_extract(m: MacroOptsV, ast: ContainerV) -> Result<
    (TestsV, Seq<DeclV>),
    Seq<DiagV>,
> {
    match ast.content {
        None => Err(seq![DiagV::RootNotInline]),
        Some(items) => {
            let st = spec_extract_items(m, items, spec_extract_init());
            if st.errs.len() > 0 {
                Err(st.errs)
            } else {
                Ok((TestsV { test_fns: st.tests, catalog: st.catalog }, st.out))
            }
        },
    }
}

impl Tests {
    /// Extracts a whole unit as `spec_tests_extract` says.
    pub fn try_extract(opts: &MacroOpts, ast: Container) -> (r: Result<
        (Tests, Vec<Decl>),
        ErrorRecord,
    >)
        ensures
            match r {
                Ok(p) => spec_tests_extract(opts@, ast@) matches Ok(v) && p.0@ == v.0
                    && decls_view(p.1@) == v.1,
                Err(e) => spec_tests_extract(opts@, ast@) matches Err(ds) && e@ == ds,
            },
    {
        let Container { attrs: _, ident: _, content } = ast;
        let items = match content {
            None => {
                return Err(ErrorRecord::single(Diag::RootNotInline));
            },
            Some(items) => items,
        };
        let (tests, out, errors) = extract_recording_errors(opts, items);
        match errors.check() {
            Ok(_) => Ok((tests, out)),
            Err(e) => Err(e),
        }
    }
}

// ---------------------------------------------------------------------------
// Instantiation markers
// ---------------------------------------------------------------------------
/// The concrete argument list of one instantiation marker.
pub struct InstArguments(pub Vec<GenArg>);

impl View for InstArguments {
    type V = Seq<GenArgV>;

    open spec fn view(&self) -> Seq<GenArgV> {
        genargs_view(self.0@)
    }
}

/// The first position among a container's attributes holding the marker.
pub open spec fn spec_find_marker(attrs: Seq<AttrV>) -> Option<nat>
    decreases attrs,
{
    if attrs.len() == 0 {
        None
    } else if attrs[0].path == spec_path1("instantiate_tests"@) {
        Some(0)
    } else {
        match spec_find_marker(attrs.drop_first()) {
            Some(k) => Some(k + 1),
            None => None,
        }
    }
}

/// What marker extraction does to a container: no marker leaves it alone;
/// an inner-style marker and a marker without an angle-bracketed argument
/// list are each a hard error for this container; a well-formed marker is
/// removed and its arguments handed out.
pub open spec fn spec_inst_extract(c: ContainerV) -> Result<
    (Option<Seq<GenArgV>>, ContainerV),
    DiagV,
> {
    match spec_find_marker(c.attrs) {
        None => Ok((None, c)),
        Some(k) => {
            let a = c.attrs[k as int];
            if a.inner {
                Err(DiagV::MarkerInnerAttr { container: c.ident })
            } else {
                match a.args {
                    crate::tree::AttrArgsV::TypeArgs(gs) => Ok(
                        (
                            Some(gs),
                            ContainerV {
                                attrs: c.attrs.remove(k as int),
                                ident: c.ident,
                                content: c.content,
                            },
                        ),
                    ),
                    _ => Err(DiagV::MarkerArgsInvalid { container: c.ident }),
                }
            }
        },
    }
}

impl InstArguments {
    /// Extracts and removes a container's instantiation marker as
    /// `spec_inst_extract` says; the container is left as written when there
    /// is no marker or the marker is bad.
    #[verifier::loop_isolation(false)]
    pub fn try_extract(item: &mut Container) -> (r: Result<Option<InstArguments>, ErrorRecord>)
        ensures
            ({
                let res = spec_inst_extract(old(item)@);
                match r {
                    Ok(o) => match o {
                        None => res == Ok::<_, DiagV>((
                            None::<Seq<GenArgV>>,
                            old(item)@,
                        )) && final(item)@ == old(item)@,
                        Some(ia) => res matches Ok(p) && p.0 matches Some(gs) && ia@ == gs
                            && final(item)@ == p.1,
                    },
                    Err(e) => res matches Err(d) && e@ == seq![d] && final(item)@ == old(item)@,
                }
            }),
    {
        let ghost full = attrs_view(item.attrs@);
        proof {
            assert(full.skip(0) =~= full);
        }
        let n = item.attrs.len();
        let mut i: usize = 0;
        while i < n
            invariant
                i <= n,
                item@ == old(item)@,
                forall|k: int| 0 <= k < i ==> full[k].path != spec_path1("instantiate_tests"@),
                spec_find_marker(full) == (match spec_find_marker(full.skip(i as int)) {
                    Some(k) => Some((k + i) as nat),
                    None => None::<nat>,
                }),
            decreases n - i,
        {
            proof {
                assert(full.skip(i as int)[0] == item.attrs@[i as int]@);
            }
            let found = item.attrs[i].path.is_ident("instantiate_tests");
            if found {
                if item.attrs[i].inner {
                    return Err(
                        ErrorRecord::single(
                            Diag::MarkerInnerAttr { container: item.ident.clone() },
                        ),
                    );
                }
                let gs = match &item.attrs[i].args {
                    AttrArgs::TypeArgs(gs) => clone_genargs(gs),
                    _ => {
                        return Err(
                            ErrorRecord::single(
                                Diag::MarkerArgsInvalid { container: item.ident.clone() },
                            ),
                        );
                    },
                };
                let _removed = item.attrs.remove(i);
                proof {
                    assert(attrs_view(item.attrs@) =~= full.remove(i as int));
                    assert(item@ =~= (ContainerV {
                        attrs: full.remove(i as int),
                        ident: old(item)@.ident,
                        content: old(item)@.content,
                    }));
                }
                return Ok(Some(InstArguments(gs)));
            }
            i = i + 1;
            proof {
                assert(full.skip(i - 1).drop_first() =~= full.skip(i as int));
            }
        }
        proof {
            assert(full.skip(n as int) =~= Seq::<AttrV>::empty());
        }
        Ok(None)
    }
}

} // verus!
