//! The tree walk and the instantiation of test cases.
//!
//! A single depth-first pass visits every container, counting the containers
//! on the path back to the processing root.  A container carrying a valid
//! instantiation marker — inline and empty — is populated: a glob import of
//! the root's names, the shared carrier declarations, and one forwarding
//! function per test case, each mirroring the original's name, replicated
//! attributes and qualifiers, and calling the generic original through its
//! shim with the marker's concrete arguments bound.  A bad marker is a
//! recorded error for that one container; its siblings are processed as if
//! it were not there.

use vstd::prelude::*;

use crate::error::Diag;
use crate::error::DiagV;
use crate::error::ErrorRecord;
use crate::extract::spec_inst_extract;
use crate::extract::spec_tests_extract;
use crate::extract::InstArguments;
use crate::extract::TestFn;
use crate::extract::TestFnV;
use crate::extract::Tests;
use crate::extract::TestsV;
use crate::options::MacroOpts;
use crate::options::MacroOptsV;
use crate::signature::spec_to_fn_arg;
use crate::signature::spec_union_lts;
use crate::signature::union_lts;
use crate::tree::clone_attrs;
use crate::tree::clone_genargs;
use crate::tree::clone_output;
use crate::tree::container_height;
use crate::tree::decl_height;
use crate::tree::decl_view;
use crate::tree::decls_height;
use crate::tree::decls_view;
use crate::tree::lemma_decls_height;
use crate::tree::lemma_decls_view;
use crate::tree::Body;
use crate::tree::BodyV;
use crate::tree::CallSigDecl;
use crate::tree::CallSigDeclV;
use crate::tree::Container;
use crate::tree::ContainerV;
use crate::tree::Decl;
use crate::tree::DeclV;
use crate::tree::FnDecl;
use crate::tree::FnDeclV;
use crate::tree::ForwardBody;
use crate::tree::ForwardBodyV;
use crate::tree::GenArgV;
use crate::tree::GenParam;
use crate::tree::GenParamV;
use crate::tree::Generics;
use crate::tree::GenericsV;
use crate::tree::LtDecl;
use crate::tree::LtDeclV;
use crate::tree::Param;
use crate::tree::ShimFn;
use crate::tree::ShimFnV;

verus! {

// ---------------------------------------------------------------------------
// What one instantiation site emits
// ---------------------------------------------------------------------------
/// The forwarding layer generated for one test case at one site: an unsafe
/// shim taking the argument record apart and calling the generic original —
/// `supers` step-up segments from the instantiation site — with the marker's
/// arguments bound, awaiting the call where the test is asynchronous.
pub open spec fn spec_shim(tf: TestFnV, inst_args: Seq<GenArgV>, supers: nat) -> ShimFnV {
    ShimFnV {
        asyncness: tf.asyncness,
        lifetimes: spec_union_lts(tf.sig.input.item.lifetimes, tf.sig.output.item.lifetimes),
        args_carrier: tf.args_carrier,
        args_lifetimes: tf.sig.input.item.lifetimes,
        ret_carrier: tf.ret_carrier,
        ret_lifetimes: tf.sig.output.item.lifetimes,
        root_supers: supers,
        target: tf.ident,
        inst_args: inst_args,
        arg_names: Seq::new(tf.sig.input.args.len(), |i: int| tf.sig.input.args[i].ident),
        awaited: tf.asyncness,
    }
}

/// The forwarding function generated for one test case at one site: the
/// same name, the replicated attributes, mirrored qualifiers, the used
/// lifetime parameters, the parameter list with the original written types,
/// the original return type, and a body that builds the argument record and
/// hands it to the shim.
pub open spec fn spec_forward_fn(tf: TestFnV, inst_args: Seq<GenArgV>, supers: nat) -> FnDeclV {
    FnDeclV {
        attrs: tf.test_attrs,
        constness: false,
        asyncness: tf.asyncness,
        unsafety: tf.unsafety,
        abi: false,
        variadic: false,
        ident: tf.ident,
        generics: GenericsV {
            params: Seq::new(
                tf.sig.lifetime_params.len(),
                |i: int| GenParamV::Lifetime(
                    LtDeclV { lifetime: tf.sig.lifetime_params[i], bounds: Seq::empty() },
                ),
            ),
            where_preds: Seq::empty(),
        },
        inputs: Seq::new(tf.sig.input.args.len(), |i: int| spec_to_fn_arg(tf.sig.input.args[i])),
        output: tf.output,
        body: BodyV::Forward(
            ForwardBodyV {
                shim: spec_shim(tf, inst_args, supers),
                field_inits: Seq::new(
                    tf.sig.input.args.len(),
                    |i: int| tf.sig.input.args[i].ident,
                ),
                awaited: tf.asyncness,
            },
        ),
    }
}

/// What a valid marker at nesting depth `supers` expands to: a glob import
/// of the root's names first — so that the site's own scope, imported later
/// by each shim, is preferred over same-named root bindings — then the
/// shared carrier declarations, then one forwarding function per test case,
/// in the order the test cases were discovered.
pub open spec fn spec_marker_content(tests: TestsV, inst_args: Seq<GenArgV>, supers: nat) -> Seq<
    DeclV,
> {
    seq![
        DeclV::RootGlob(supers),
        DeclV::CallSig(
            CallSigDeclV {
                root_supers: supers,
                args_carriers: tests.catalog.args_carriers,
                ret_carriers: tests.catalog.ret_carriers,
            },
        ),
    ] + Seq::new(
        tests.test_fns.len(),
        |i: int| DeclV::Fn(spec_forward_fn(tests.test_fns[i], inst_args, supers)),
    )
}

/// Builds one forwarding function as `spec_forward_fn` says.
#[verifier::loop_isolation(false)]
fn forward_fn(tf: &TestFn, inst_args: &InstArguments, supers: usize) -> (r: FnDecl)
    ensures
        r@ == spec_forward_fn(tf@, inst_args@, supers as nat),
{
    let nlts = tf.sig.lifetime_params.len();
    let mut params: Vec<GenParam> = Vec::new();
    let mut i: usize = 0;
    while i < nlts
        invariant
            i <= nlts,
            params@.len() == i,
            forall|k: int| 0 <= k < i ==> params@[k]@ == GenParamV::Lifetime(
                LtDeclV { lifetime: tf.sig.lifetime_params@[k]@, bounds: Seq::empty() },
            ),
        decreases nlts - i,
    {
        let empty_bounds: Vec<crate::tree::Lifetime> = Vec::new();
        proof {
            assert(crate::tree::lts_view(empty_bounds@) =~= Seq::<crate::tree::LtV>::empty());
        }
        params.push(
            GenParam::Lifetime(
                LtDecl { lifetime: tf.sig.lifetime_params[i].clone_lt(), bounds: empty_bounds },
            ),
        );
        i = i + 1;
    }
    let nargs = tf.sig.input.args.len();
    let mut inputs: Vec<Param> = Vec::new();
    let mut field_inits: Vec<String> = Vec::new();
    let mut arg_names: Vec<String> = Vec::new();
    let mut j: usize = 0;
    while j < nargs
        invariant
            j <= nargs,
            inputs@.len() == j,
            field_inits@.len() == j,
            arg_names@.len() == j,
            forall|k: int| 0 <= k < j ==> inputs@[k]@ == spec_to_fn_arg(tf.sig.input.args@[k]@),
            forall|k: int| 0 <= k < j ==> field_inits@[k]@ == tf.sig.input.args@[k]@.ident,
            forall|k: int| 0 <= k < j ==> arg_names@[k]@ == tf.sig.input.args@[k]@.ident,
        decreases nargs - j,
    {
        let arg = &tf.sig.input.args[j];
        inputs.push(arg.to_fn_arg());
        field_inits.push(arg.ident.clone());
        arg_names.push(arg.ident.clone());
        j = j + 1;
    }
    let shim = ShimFn {
        asyncness: tf.asyncness,
        lifetimes: union_lts(&tf.sig.input.item.lifetimes, &tf.sig.output.item.lifetimes),
        args_carrier: tf.args_carrier,
        args_lifetimes: tf.sig.input.item.lifetime_generics(),
        ret_carrier: tf.ret_carrier,
        ret_lifetimes: tf.sig.output.item.lifetime_generics(),
        root_supers: supers,
        target: tf.ident.clone(),
        inst_args: clone_genargs(&inst_args.0),
        arg_names,
        awaited: tf.asyncness,
    };
    proof {
        assert(shim@ =~= spec_shim(tf@, inst_args@, supers as nat));
    }
    let generics = Generics { params, where_preds: Vec::new() };
    let r = FnDecl {
        attrs: clone_attrs(&tf.test_attrs),
        constness: false,
        asyncness: tf.asyncness,
        unsafety: tf.unsafety,
        abi: false,
        variadic: false,
        ident: tf.ident.clone(),
        generics,
        inputs,
        output: clone_output(&tf.output),
        body: Body::Forward(
            ForwardBody { shim, field_inits, awaited: tf.asyncness },
        ),
    };
    proof {
        assert(r@.generics.params =~= spec_forward_fn(tf@, inst_args@, supers as nat).generics.params);
        assert(r@.generics.where_preds =~= Seq::<crate::tree::WherePredV>::empty());
        assert(r@.inputs =~= spec_forward_fn(tf@, inst_args@, supers as nat).inputs);
        assert(r@.body->Forward_0.field_inits =~= spec_forward_fn(
            tf@,
            inst_args@,
            supers as nat,
        ).body->Forward_0.field_inits);
        assert(r@ =~= spec_forward_fn(tf@, inst_args@, supers as nat));
    }
    r
}

/// Emits the content of one instantiation site as `spec_marker_content`
/// says.
#[verifier::loop_isolation(false)]
fn instantiate_tests(tests: &Tests, inst_args: &InstArguments, supers: usize) -> (r: Vec<Decl>)
    ensures
        decls_view(r@) == spec_marker_content(tests@, inst_args@, supers as nat),
{
    let mut out: Vec<Decl> = Vec::new();
    out.push(Decl::RootGlob(supers));
    let (args_carriers, ret_carriers) = tests.catalog.carriers_cloned();
    out.push(Decl::CallSig(CallSigDecl { root_supers: supers, args_carriers, ret_carriers }));
    let n = tests.test_fns.len();
    let mut i: usize = 0;
    while i < n
        invariant
            i <= n,
            out@.len() == 2 + i,
            decl_view(out@[0]) == DeclV::RootGlob(supers as nat),
            decl_view(out@[1]) == DeclV::CallSig(
                CallSigDeclV {
                    root_supers: supers as nat,
                    args_carriers: tests@.catalog.args_carriers,
                    ret_carriers: tests@.catalog.ret_carriers,
                },
            ),
            forall|k: int| 0 <= k < i ==> decl_view(out@[2 + k]) == DeclV::Fn(
                spec_forward_fn(tests@.test_fns[k], inst_args@, supers as nat),
            ),
        decreases n - i,
    {
        out.push(Decl::Fn(forward_fn(&tests.test_fns[i], inst_args, supers)));
        i = i + 1;
    }
    proof {
        lemma_decls_view(out@);
        assert(decls_view(out@) =~= spec_marker_content(tests@, inst_args@, supers as nat));
    }
    out
}

// ---------------------------------------------------------------------------
// The depth-first walk
// ---------------------------------------------------------------------------
/// What the walk does at one declaration: only containers are of interest,
/// everything else passes through untouched.
pub open spec fn spec_walk_decl(tests: TestsV, depth: nat, d: DeclV) -> (DeclV, Seq<DiagV>)
    decreases decl_height(d), 1int,
{
    match d {
        DeclV::Container(c) => {
            let (c1, errs) = spec_walk_container(tests, depth, c);
            (DeclV::Container(c1), errs)
        },
        _ => (d, Seq::empty()),
    }
}

/// What the walk does at one container, `depth` containers below the root,
/// this one counted.  A bad marker is recorded and the container kept as
/// written; a valid marker on a container that is not inline and empty is
/// recorded, with the marker consumed; a valid marker on an inline, empty
/// container is replaced by the generated content; a container without a
/// marker has its children walked one level deeper.
pub open spec fn spec_walk_container(tests: TestsV, depth: nat, c: ContainerV) -> (
    ContainerV,
    Seq<DiagV>,
)
    decreases container_height(c), 0int,
{
    match spec_inst_extract(c) {
        Err(dg) => (c, seq![dg]),
        Ok((oargs, c1)) => match oargs {
            None => match c.content {
                None => (c, Seq::empty()),
                Some(items) => {
                    let (items1, errs) = spec_walk_decls(tests, depth + 1, items);
                    (
                        ContainerV { attrs: c.attrs, ident: c.ident, content: Some(items1) },
                        errs,
                    )
                },
            },
            Some(args) => match c1.content {
                None => (c1, seq![DiagV::MarkerNotInline { container: c.ident }]),
                Some(items) => if items.len() > 0 {
                    (c1, seq![DiagV::MarkerNotEmpty { container: c.ident }])
                } else {
                    (
                        ContainerV {
                            attrs: c1.attrs,
                            ident: c1.ident,
                            content: Some(spec_marker_content(tests, args, depth)),
                        },
                        Seq::empty(),
                    )
                },
            },
        },
    }
}

/// The walk over a declaration list: every declaration is processed
/// independently at the same depth, in order, and the recorded failures are
/// concatenated in that order.
pub open spec fn spec_walk_decls(tests: TestsV, depth: nat, items: Seq<DeclV>) -> (
    Seq<DeclV>,
    Seq<DiagV>,
)
    decreases decls_height(items), 2int, items.len(),
{
    if items.len() == 0 {
        (Seq::empty(), Seq::empty())
    } else {
        let (d1, e1) = spec_walk_decl(tests, depth, items[0]);
        let (rest, erest) = spec_walk_decls(tests, depth, items.drop_first());
        (seq![d1] + rest, e1 + erest)
    }
}

/// The walker's state: the unit's test cases, the count of containers on
/// the path back to the root, and the failures recorded so far.
struct Instantiator {
    tests: Tests,
    depth: usize,
    errors: ErrorRecord,
}

impl Instantiator {
    /// Walks one declaration.
    fn visit_decl(&mut self, d: Decl) -> (r: Decl)
        requires
            old(self).depth as nat + decl_height(d@) <= usize::MAX as nat,
        ensures
            final(self).tests == old(self).tests,
            final(self).depth == old(self).depth,
            final(self).errors@ == old(self).errors@ + spec_walk_decl(
                old(self).tests@,
                old(self).depth as nat,
                d@,
            ).1,
            r@ == spec_walk_decl(old(self).tests@, old(self).depth as nat, d@).0,
        decreases decl_height(d@), 1int,
    {
        match d {
            Decl::Container(c) => Decl::Container(self.visit_container(c)),
            other => {
                proof {
                    assert(self.errors@ =~= self.errors@ + Seq::<DiagV>::empty());
                }
                other
            },
        }
    }

    /// Walks one container.
    fn visit_container(&mut self, c: Container) -> (r: Container)
        requires
            old(self).depth as nat + container_height(c@) <= usize::MAX as nat,
        ensures
            final(self).tests == old(self).tests,
            final(self).depth == old(self).depth,
            final(self).errors@ == old(self).errors@ + spec_walk_container(
                old(self).tests@,
                old(self).depth as nat,
                c@,
            ).1,
            r@ == spec_walk_container(old(self).tests@, old(self).depth as nat, c@).0,
        decreases container_height(c@), 0int,
    {
        let ghost c0 = c@;
        let mut c = c;
        match InstArguments::try_extract(&mut c) {
            Err(e) => {
                self.errors.append(e);
                c
            },
            Ok(None) => {
                let Container { attrs, ident, content } = c;
                match content {
                    None => {
                        proof {
                            assert(self.errors@ =~= self.errors@ + Seq::<DiagV>::empty());
                            assert((Container { attrs, ident, content: None::<Vec<Decl>> })@
                                =~= c0);
                        }
                        Container { attrs, ident, content: None }
                    },
                    Some(items) => {
                        proof {
                            assert(decls_view(items@) == c0.content->0);
                        }
                        self.depth = self.depth + 1;
                        let items1 = self.visit_decls(items);
                        self.depth = self.depth - 1;
                        let r = Container { attrs, ident, content: Some(items1) };
                        proof {
                            assert(r@ =~= spec_walk_container(
                                old(self).tests@,
                                old(self).depth as nat,
                                c0,
                            ).0);
                        }
                        r
                    },
                }
            },
            Ok(Some(args)) => {
                let Container { attrs, ident, content } = c;
                match content {
                    None => {
                        self.errors.add_error(
                            Diag::MarkerNotInline { container: ident.clone() },
                        );
                        let r = Container { attrs, ident, content: None };
                        proof {
                            assert(r@ =~= spec_walk_container(
                                old(self).tests@,
                                old(self).depth as nat,
                                c0,
                            ).0);
                        }
                        r
                    },
                    Some(items) => {
                        if items.len() > 0 {
                            proof {
                                crate::tree::lemma_decls_view(items@);
                            }
                            self.errors.add_error(
                                Diag::MarkerNotEmpty { container: ident.clone() },
                            );
                            let r = Container { attrs, ident, content: Some(items) };
                            proof {
                                assert(r@ =~= spec_walk_container(
                                    old(self).tests@,
                                    old(self).depth as nat,
                                    c0,
                                ).0);
                            }
                            r
                        } else {
                            proof {
                                crate::tree::lemma_decls_view(items@);
                                assert(decls_view(items@) =~= Seq::<DeclV>::empty());
                                assert(self.errors@ =~= self.errors@ + Seq::<DiagV>::empty());
                            }
                            let content1 = instantiate_tests(&self.tests, &args, self.depth);
                            let r = Container { attrs, ident, content: Some(content1) };
                            proof {
                                assert(r@ =~= spec_walk_container(
                                    old(self).tests@,
                                    old(self).depth as nat,
                                    c0,
                                ).0);
                            }
                            r
                        }
                    },
                }
            },
        }
    }

    /// Walks a declaration list.
    #[verifier::loop_isolation(false)]
    fn visit_decls(&mut self, items: Vec<Decl>) -> (r: Vec<Decl>)
        requires
            old(self).depth as nat + decls_height(decls_view(items@)) <= usize::MAX as nat,
        ensures
            final(self).tests == old(self).tests,
            final(self).depth == old(self).depth,
            final(self).errors@ == old(self).errors@ + spec_walk_decls(
                old(self).tests@,
                old(self).depth as nat,
                decls_view(items@),
            ).1,
            decls_view(r@) == spec_walk_decls(
                old(self).tests@,
                old(self).depth as nat,
                decls_view(items@),
            ).0,
        decreases decls_height(decls_view(items@)), 2int,
    {
        let ghost full = decls_view(items@);
        let ghost items0 = items@;
        let mut rest = items;
        let mut out: Vec<Decl> = Vec::new();
        let ghost mut done: int = 0;
        proof {
            lemma_decls_view(items0);
            lemma_decls_height(full);
            assert(rest@ =~= items0.skip(0));
            assert(decls_view(out@) =~= Seq::<DeclV>::empty());
            assert(full.skip(0) =~= full);
        }
        while rest.len() > 0
            invariant
                0 <= done <= items0.len(),
                rest@ == items0.skip(done),
                spec_walk_decls(old(self).tests@, old(self).depth as nat, full) == ((
                    decls_view(out@) + spec_walk_decls(
                        self.tests@,
                        self.depth as nat,
                        full.skip(done),
                    ).0,
                    self.errors@.skip(old(self).errors@.len() as int) + spec_walk_decls(
                        self.tests@,
                        self.depth as nat,
                        full.skip(done),
                    ).1,
                )),
                self.tests == old(self).tests,
                self.depth == old(self).depth,
                old(self).errors@.len() <= self.errors@.len(),
                self.errors@.take(old(self).errors@.len() as int) == old(self).errors@,
            decreases rest.len(),
        {
            proof {
                lemma_decls_view(rest@);
                lemma_decls_view(items0);
                assert(decl_view(rest@[0]) == full.skip(done)[0]);
                assert(rest@[0] == items0[done]);
                assert(decl_view(items0[done]) == full[done]);
                assert(decl_height(full[done]) <= decls_height(full));
            }
            let d = rest.remove(0);
            let ghost errs_pre = self.errors@;
            let ghost out_pre = out@;
            let d1 = self.visit_decl(d);
            out.push(d1);
            proof {
                done = done + 1;
                assert(rest@ =~= items0.skip(done));
                assert(full.skip(done - 1).drop_first() =~= full.skip(done));
                lemma_decls_view(out@);
                lemma_decls_view(out_pre);
                assert(decls_view(out@) =~= decls_view(out_pre).push(
                    decl_view(out@[out@.len() - 1]),
                ));
                let step = spec_walk_decl(self.tests@, self.depth as nat, full.skip(done - 1)[0]);
                let tail = spec_walk_decls(self.tests@, self.depth as nat, full.skip(done));
                assert(decls_view(out@) + tail.0 =~= decls_view(out_pre) + (seq![step.0] + tail.0));
                assert(self.errors@.skip(old(self).errors@.len() as int) =~= errs_pre.skip(
                    old(self).errors@.len() as int,
                ) + step.1);
                assert(self.errors@.skip(old(self).errors@.len() as int) + tail.1 =~= errs_pre.skip(
                    old(self).errors@.len() as int,
                ) + (step.1 + tail.1));
                assert(self.errors@.take(old(self).errors@.len() as int) =~= old(self).errors@);
            }
        }
        proof {
            assert(items0.skip(done) =~= Seq::<Decl>::empty());
            assert(done == items0.len());
            assert(full.skip(done) =~= Seq::<DeclV>::empty());
            assert(decls_view(out@) + Seq::<DeclV>::empty() =~= decls_view(out@));
            assert(self.errors@.skip(old(self).errors@.len() as int) + Seq::<DiagV>::empty() =~= self.errors@.skip(
                old(self).errors@.len() as int,
            ));
            assert(old(self).errors@ + self.errors@.skip(old(self).errors@.len() as int) =~= self.errors@);
        }
        out
    }
}

// ---------------------------------------------------------------------------
// The whole transformation
// ---------------------------------------------------------------------------
/// Appending a declaration cannot make a list deeper than the deeper of the
/// two.
pub proof fn lemma_decls_height_push(s: Seq<DeclV>, x: DeclV, h: nat)
    requires
        decls_height(s) <= h,
        decl_height(x) <= h,
    ensures
        decls_height(s.push(x)) <= h,
    decreases s,
{
    if s.len() == 0 {
        assert(s.push(x)[0] == x);
        assert(s.push(x).drop_first() =~= Seq::<DeclV>::empty());
        assert(decls_height(s.push(x).drop_first()) == 0);
        assert(decls_height(s.push(x)) <= h);
    } else {
        assert(decl_height(s[0]) <= h);
        assert(decls_height(s.drop_first()) <= h);
        assert(s.push(x)[0] == s[0]);
        assert(s.push(x).drop_first() =~= s.drop_first().push(x));
        lemma_decls_height_push(s.drop_first(), x, h);
        assert(decls_height(s.push(x).drop_first()) <= h);
        assert(decls_height(s.push(x)) <= h);
    }
}

/// Discovery never deepens the tree: every declaration it emits is either
/// one of the given ones or a function.
pub proof fn lemma_extract_items_height(
    m: MacroOptsV,
    items: Seq<DeclV>,
    st: crate::extract::ExtractStateV,
    h: nat,
)
    requires
        decls_height(st.out) <= h,
        decls_height(items) <= h,
    ensures
        decls_height(crate::extract::spec_extract_items(m, items, st).out) <= h,
    decreases items,
{
    if items.len() > 0 {
        let st1 = crate::extract::spec_extract_step(m, st, items[0]);
        assert(decl_height(items[0]) <= decls_height(items));
        assert(st1.out == st.out.push(st1.out.last()) && decl_height(st1.out.last()) <= h) by {
            match items[0] {
                DeclV::Fn(f) => {
                    match crate::extract::spec_test_fn_extract(m, f, st.catalog) {
                        Err(_) => {
                            assert(st1.out =~= st.out.push(items[0]));
                        },
                        Ok(_) => {},
                    }
                },
                _ => {
                    assert(st1.out =~= st.out.push(items[0]));
                },
            }
        }
        lemma_decls_height_push(st.out, st1.out.last(), h);
        lemma_extract_items_height(m, items.drop_first(), st1, h);
    }
}

/// Runs the walk over the unit's declarations, from nesting depth one, and
/// fails with every recorded error together, or yields the rewritten
/// declarations.
fn instantiate(tests: Tests, items: Vec<Decl>) -> (r: Result<Vec<Decl>, ErrorRecord>)
    requires
        1 + decls_height(decls_view(items@)) <= usize::MAX as nat,
    ensures
        ({
            let (out, errs) = spec_walk_decls(tests@, 1, decls_view(items@));
            match r {
                Ok(items1) => errs.len() == 0 && decls_view(items1@) == out,
                Err(e) => errs.len() > 0 && e@ == errs,
            }
        }),
{
    let mut instantiator = Instantiator { tests, depth: 1, errors: ErrorRecord::new() };
    let out = instantiator.visit_decls(items);
    let Instantiator { tests: _, depth: _, errors } = instantiator;
    match errors.check() {
        Ok(_) => Ok(out),
        Err(e) => Err(e),
    }
}

/// What the whole transformation does to one unit: discovery first; then the
/// single depth-first walk instantiating every valid marker; the rewritten
/// container on success, and every diagnostic of both stages together on
/// failure, never only the first.
pub open spec fn spec_transform(m: MacroOptsV, ast: ContainerV) -> Result<ContainerV, Seq<DiagV>> {
    match spec_tests_extract(m, ast) {
        Err(ds) => Err(ds),
        Ok((tests, items)) => {
            let (items1, errs) = spec_walk_decls(tests, 1, items);
            if errs.len() > 0 {
                Err(errs)
            } else {
                Ok(ContainerV { attrs: ast.attrs, ident: ast.ident, content: Some(items1) })
            }
        },
    }
}

/// Transforms one unit as `spec_transform` says.  The nesting bound is what
/// the machine forces: a generated step-up path must fit a `usize`.
fn transform(opts: &MacroOpts, ast: Container) -> (r: Result<Container, ErrorRecord>)
    requires
        container_height(ast@) <= usize::MAX as nat,
    ensures
        match r {
            Ok(c) => spec_transform(opts@, ast@) matches Ok(v) && c@ == v,
            Err(e) => spec_transform(opts@, ast@) matches Err(ds) && e@ == ds,
        },
{
    let ghost ast0 = ast@;
    let attrs_copy = clone_attrs(&ast.attrs);
    let ident_copy = ast.ident.clone();
    let (tests, items) = match Tests::try_extract(opts, ast) {
        Ok(p) => p,
        Err(e) => {
            return Err(e);
        },
    };
    proof {
        match ast0.content {
            Some(items0) => {
                lemma_extract_items_height(
                    opts@,
                    items0,
                    crate::extract::spec_extract_init(),
                    decls_height(items0),
                );
            },
            None => {},
        }
    }
    let items1 = match instantiate(tests, items) {
        Ok(items1) => items1,
        Err(e) => {
            return Err(e);
        },
    };
    let r = Container { attrs: attrs_copy, ident: ident_copy, content: Some(items1) };
    proof {
        assert(r@ =~= spec_transform(opts@, ast0)->Ok_0);
    }
    Ok(r)
}

// ---------------------------------------------------------------------------
// Laws of instantiation
// ---------------------------------------------------------------------------
/// A container at nesting depth `n` with a valid marker — inline and empty —
/// expands without error to exactly one forwarding declaration per test
/// function of the unit, after the root glob import and the carrier module,
/// each forwarding declaration bearing its test function's name and
/// referencing the original via a relative path of exactly `n` step-up
/// segments.
pub proof fn lemma_marker_expansion(tests: TestsV, n: nat, c: ContainerV)
    requires
        spec_inst_extract(c) is Ok,
        spec_inst_extract(c)->Ok_0.0 is Some,
        spec_inst_extract(c)->Ok_0.1.content == Some(Seq::<DeclV>::empty()),
    ensures
        ({
            let args = spec_inst_extract(c)->Ok_0.0->0;
            let (c2, errs) = spec_walk_container(tests, n, c);
            &&& errs == Seq::<DiagV>::empty()
            &&& c2.content is Some
            &&& c2.content->0.len() == 2 + tests.test_fns.len()
            &&& c2.content->0[0] == DeclV::RootGlob(n)
            &&& forall|i: int| 0 <= i < tests.test_fns.len() ==> c2.content->0[2 + i] == DeclV::Fn(
                spec_forward_fn(tests.test_fns[i], args, n),
            )
            &&& forall|i: int|
                0 <= i < tests.test_fns.len() ==> spec_forward_fn(
                    tests.test_fns[i],
                    args,
                    n,
                ).ident == tests.test_fns[i].ident && spec_forward_fn(
                    tests.test_fns[i],
                    args,
                    n,
                ).body->Forward_0.shim.root_supers == n && spec_forward_fn(
                    tests.test_fns[i],
                    args,
                    n,
                ).body->Forward_0.shim.target == tests.test_fns[i].ident
        }),
{
    let args = spec_inst_extract(c)->Ok_0.0->0;
    let content = spec_marker_content(tests, args, n);
    assert(content.len() == 2 + tests.test_fns.len());
    assert(content[0] == DeclV::RootGlob(n));
    assert forall|i: int| 0 <= i < tests.test_fns.len() implies content[2 + i] == DeclV::Fn(
        spec_forward_fn(tests.test_fns[i], args, n),
    ) by {
        assert(content[2 + i] == Seq::new(
            tests.test_fns.len(),
            |i: int| DeclV::Fn(spec_forward_fn(tests.test_fns[i], args, n)),
        )[i]);
    }
}

/// The walk of a declaration list processes every declaration independently:
/// the rewritten list is the elementwise rewrite, and the recorded failures
/// of each declaration all surface.
pub proof fn lemma_walk_pointwise(tests: TestsV, depth: nat, items: Seq<DeclV>)
    ensures
        spec_walk_decls(tests, depth, items).0.len() == items.len(),
        forall|j: int| 0 <= j < items.len() ==> spec_walk_decls(tests, depth, items).0[j]
            == spec_walk_decl(tests, depth, items[j]).0,
        forall|j: int, d: DiagV|
            0 <= j < items.len() && spec_walk_decl(tests, depth, items[j]).1.contains(d)
                ==> spec_walk_decls(tests, depth, items).1.contains(d),
    decreases items.len(),
{
    if items.len() > 0 {
        lemma_walk_pointwise(tests, depth, items.drop_first());
        assert(forall|j: int| 1 <= j < items.len() ==> items[j] == items.drop_first()[j - 1]);
        let (d1, e1) = spec_walk_decl(tests, depth, items[0]);
        let (rest, erest) = spec_walk_decls(tests, depth, items.drop_first());
        assert forall|j: int, d: DiagV|
            0 <= j < items.len() && spec_walk_decl(tests, depth, items[j]).1.contains(d) implies (
        e1 + erest).contains(d) by {
            if j == 0 {
                let k = choose|k: int| 0 <= k < e1.len() && e1[k] == d;
                assert((e1 + erest)[k] == d);
            } else {
                assert(erest.contains(d));
                let k = choose|k: int| 0 <= k < erest.len() && erest[k] == d;
                assert((e1 + erest)[e1.len() + k] == d);
            }
        }
    }
}

/// A marker container that already holds a declaration fails with the
/// must-be-empty error — which surfaces among the walk's diagnostics — and
/// every sibling is rewritten exactly as it would be without it.
pub proof fn lemma_nonempty_marker_isolated(tests: TestsV, depth: nat, items: Seq<DeclV>, i: int)
    requires
        0 <= i < items.len(),
        items[i] is Container,
        spec_inst_extract(items[i]->Container_0) is Ok,
        spec_inst_extract(items[i]->Container_0)->Ok_0.0 is Some,
        spec_inst_extract(items[i]->Container_0)->Ok_0.1.content is Some,
        spec_inst_extract(items[i]->Container_0)->Ok_0.1.content->0.len() > 0,
    ensures
        ({
            let (out, errs) = spec_walk_decls(tests, depth, items);
            &&& errs.contains(
                DiagV::MarkerNotEmpty { container: items[i]->Container_0.ident },
            )
            &&& out.len() == items.len()
            &&& forall|j: int| 0 <= j < items.len() && j != i ==> out[j] == spec_walk_decl(
                tests,
                depth,
                items[j],
            ).0
        }),
{
    lemma_walk_pointwise(tests, depth, items);
    let c = items[i]->Container_0;
    let (c1, errs_i) = spec_walk_container(tests, depth, c);
    assert(errs_i == seq![DiagV::MarkerNotEmpty { container: c.ident }]);
    assert(spec_walk_decl(tests, depth, items[i]).1.contains(
        DiagV::MarkerNotEmpty { container: c.ident },
    )) by {
        assert(errs_i[0] == DiagV::MarkerNotEmpty { container: c.ident });
    }
}

/// Rewrites one unit: the tree with every valid marker expanded, or the
/// aggregated diagnostics of the whole pass.  Given the same configuration
/// and the same tree, the result is one value, pinned by `spec_transform`.
pub fn expand(opts: &MacroOpts, ast: Container) -> (r: Result<Container, ErrorRecord>)
    requires
        container_height(ast@) <= usize::MAX as nat,
    ensures
        match r {
            Ok(c) => spec_transform(opts@, ast@) matches Ok(v) && c@ == v,
            Err(e) => spec_transform(opts@, ast@) matches Err(ds) && e@ == ds,
        },
{
    transform(opts, ast)
}

} // verus!
