//! End-to-end tests of the transformation on whole module trees.

use generic_tests::define;
use generic_tests::error::Diag;
use generic_tests::tree::Attr;
use generic_tests::tree::AttrArgs;
use generic_tests::tree::AttrPath;
use generic_tests::tree::Body;
use generic_tests::tree::Container;
use generic_tests::tree::Decl;
use generic_tests::tree::FnDecl;
use generic_tests::tree::GenArg;
use generic_tests::tree::GenParam;
use generic_tests::tree::Generics;
use generic_tests::tree::Lifetime;
use generic_tests::tree::LtDecl;
use generic_tests::tree::MetaItem;
use generic_tests::tree::MetaValue;
use generic_tests::tree::Param;
use generic_tests::tree::Pat;
use generic_tests::tree::PatIdent;
use generic_tests::tree::PathSeg;
use generic_tests::tree::KonstParamDecl;
use generic_tests::tree::TypeParamDecl;
use generic_tests::tree::RefTy;
use generic_tests::tree::SegArgs;
use generic_tests::tree::Ty;
use generic_tests::tree::TyPath;
use generic_tests::tree::TypedParam;
use generic_tests::tree::WherePred;

fn s(x: &str) -> String {
    x.to_string()
}

fn plain_attr(name: &str) -> Attr {
    Attr { inner: false, path: AttrPath::from_name(name), args: AttrArgs::Empty }
}

fn opaque_attr(name: &str, tokens: &str) -> Attr {
    Attr { inner: false, path: AttrPath::from_name(name), args: AttrArgs::Opaque(s(tokens)) }
}

fn simple_ty(name: &str) -> Ty {
    Ty::Path(TyPath {
        leading_colon: false,
        qself: None,
        segments: vec![PathSeg { ident: s(name), args: SegArgs::Angle(vec![]) }],
    })
}

fn type_param(ident: &str, decl: &str) -> GenParam {
    GenParam::Type(TypeParamDecl { ident: s(ident), decl: s(decl) })
}

fn type_params(n: usize) -> Generics {
    let mut params = Vec::new();
    for i in 0..n {
        params.push(type_param(&format!("T{}", i), ""));
    }
    Generics { params, where_preds: vec![] }
}

/// A generic function with the given attributes and arity, no parameters,
/// no return type.
fn test_fn(name: &str, attrs: Vec<Attr>, arity: usize) -> FnDecl {
    FnDecl {
        attrs,
        constness: false,
        asyncness: false,
        unsafety: false,
        abi: false,
        variadic: false,
        ident: s(name),
        generics: type_params(arity),
        inputs: vec![],
        output: None,
        body: Body::Opaque(s("{}")),
    }
}

fn named_param(name: &str, ty: Ty) -> Param {
    Param::Typed(TypedParam {
        attrs: vec![],
        pat: Pat::Ident(PatIdent {
            ident: s(name),
            mutable: false,
            by_ref: false,
            has_subpat: false,
            has_attrs: false,
        }),
        ty,
    })
}

/// An empty inline submodule marked `instantiate_tests` with the given
/// concrete arguments.
fn marker_mod(name: &str, args: Vec<GenArg>) -> Decl {
    Decl::Container(Container {
        attrs: vec![Attr {
            inner: false,
            path: AttrPath::from_name("instantiate_tests"),
            args: AttrArgs::TypeArgs(args),
        }],
        ident: s(name),
        content: Some(vec![]),
    })
}

fn root(name: &str, items: Vec<Decl>) -> Container {
    Container { attrs: vec![], ident: s(name), content: Some(items) }
}

fn string_arg() -> Vec<GenArg> {
    vec![GenArg::Ty(simple_ty("String"))]
}

/// The forwarding functions of a rewritten container's content, in order.
fn forwarded(c: &Container) -> Vec<&FnDecl> {
    let items = c.content.as_ref().expect("inline content");
    let mut out = Vec::new();
    for d in items {
        if let Decl::Fn(f) = d {
            out.push(f);
        }
    }
    out
}

fn nth_container<'a>(c: &'a Container, i: usize) -> &'a Container {
    let items = c.content.as_ref().expect("inline content");
    let mut seen = 0;
    for d in items {
        if let Decl::Container(m) = d {
            if seen == i {
                return m;
            }
            seen += 1;
        }
    }
    panic!("no container at that position");
}

#[test]
fn equates_to_str() {
    // One generic test case instantiated for `String` and for a copy-on-write
    // string, as the instantiated tests themselves check:
    let st: String = "ab".into();
    assert_eq!(&st, "ab");
    assert_ne!(&st, "aa");
    let tree = root(
        "simple",
        vec![
            Decl::Fn(test_fn("equates_to_str", vec![plain_attr("test")], 1)),
            marker_mod("string", string_arg()),
            marker_mod("cow", vec![GenArg::Ty(simple_ty("Cow"))]),
        ],
    );
    let out = define(vec![], tree).expect("expansion succeeds");
    for i in 0..2 {
        let inst = nth_container(&out, i);
        let fns = forwarded(inst);
        assert_eq!(fns.len(), 1);
        assert_eq!(fns[0].ident, s("equates_to_str"));
        assert_eq!(fns[0].attrs, vec![plain_attr("test")]);
        // the marker attribute itself is consumed
        assert!(inst.attrs.is_empty());
    }
    // the generic definition survives, stripped of its marker
    let items = out.content.as_ref().unwrap();
    match &items[0] {
        Decl::Fn(f) => assert!(f.attrs.is_empty()),
        _ => panic!("generic definition expected first"),
    }
}

#[test]
fn ok_from_valid_utf8() {
    // The instantiated tests decode a fixed byte string:
    let v = std::str::from_utf8(b"Hello, world!").expect("valid");
    assert_eq!(v, "Hello, world!");
    let mut f = test_fn("ok_from_valid_utf8", vec![plain_attr("test")], 1);
    f.generics.params.insert(
        0,
        GenParam::Lifetime(LtDecl { lifetime: Lifetime::Named(s("a")), bounds: vec![] }),
    );
    f.output = Some(simple_ty("Result"));
    let tree = root(
        "fallible_protocol",
        vec![
            Decl::Fn(f),
            marker_mod("str_slice", vec![GenArg::Ty(simple_ty("str"))]),
            marker_mod("string", string_arg()),
            marker_mod("cow", vec![GenArg::Ty(simple_ty("Cow"))]),
        ],
    );
    let out = define(vec![], tree).expect("expansion succeeds");
    for i in 0..3 {
        let fns = forwarded(nth_container(&out, i));
        assert_eq!(fns.len(), 1);
        assert_eq!(fns[0].ident, s("ok_from_valid_utf8"));
        assert_eq!(fns[0].output, Some(simple_ty("Result")));
        // the declared lifetime is unused by the signature, so none survives
        assert!(fns[0].generics.params.is_empty());
    }
}

#[test]
fn print() {
    // Markers are recognized at every nesting depth, with the relative path
    // back to the root growing one step per level.
    let tree = root(
        "nested",
        vec![
            Decl::Fn(test_fn("print", vec![plain_attr("test")], 1)),
            Decl::Container(Container {
                attrs: vec![],
                ident: s("from_prelude"),
                content: Some(vec![marker_mod("string", string_arg())]),
            }),
            Decl::Container(Container {
                attrs: vec![],
                ident: s("imported"),
                content: Some(vec![marker_mod("cow", vec![GenArg::Ty(simple_ty("Cow"))])]),
            }),
        ],
    );
    let out = define(vec![], tree).expect("expansion succeeds");
    for i in 0..2 {
        let inner = nth_container(nth_container(&out, i), 0);
        let items = inner.content.as_ref().unwrap();
        assert!(matches!(items[0], Decl::RootGlob(2)));
        let fns = forwarded(inner);
        assert_eq!(fns.len(), 1);
        assert_eq!(fns[0].ident, s("print"));
        match &fns[0].body {
            Body::Forward(fb) => assert_eq!(fb.shim.root_supers, 2),
            _ => panic!("forwarding body expected"),
        }
    }
}

#[test]
fn enabled() {
    // `cfg` is copied by default: the instantiation carries it after the
    // marker, and the generic definition keeps it.
    let tree = root(
        "cfg_attr",
        vec![
            Decl::Fn(test_fn(
                "enabled",
                vec![opaque_attr("cfg", "test"), plain_attr("test")],
                1,
            )),
            Decl::Fn(test_fn(
                "not_a_test_case",
                vec![opaque_attr("allow", "dead_code"), opaque_attr("cfg", "test")],
                1,
            )),
            marker_mod("inst", vec![GenArg::Ty(Ty::Tuple(vec![]))]),
        ],
    );
    let out = define(vec![], tree).expect("expansion succeeds");
    let fns = forwarded(nth_container(&out, 0));
    assert_eq!(fns.len(), 1, "the unmarked function is not instantiated");
    assert_eq!(fns[0].ident, s("enabled"));
    assert_eq!(fns[0].attrs, vec![plain_attr("test"), opaque_attr("cfg", "test")]);
    // the surviving definition keeps the copied attribute
    let items = out.content.as_ref().unwrap();
    match &items[0] {
        Decl::Fn(f) => assert_eq!(f.attrs, vec![opaque_attr("cfg", "test")]),
        _ => panic!("generic definition expected first"),
    }
}

#[test]
fn disabled_above() {
    let tree = root(
        "cfg_attr",
        vec![
            Decl::Fn(test_fn(
                "disabled_above",
                vec![opaque_attr("cfg", "feature = \"no-such-feature\""), plain_attr("test")],
                1,
            )),
            marker_mod("inst", vec![GenArg::Ty(Ty::Tuple(vec![]))]),
        ],
    );
    let out = define(vec![], tree).expect("expansion succeeds");
    let fns = forwarded(nth_container(&out, 0));
    assert_eq!(
        fns[0].attrs,
        vec![plain_attr("test"), opaque_attr("cfg", "feature = \"no-such-feature\"")],
        "the configuration guard rides along, so the instantiated test stays disabled",
    );
}

#[test]
fn disabled_below() {
    let tree = root(
        "cfg_attr",
        vec![
            Decl::Fn(test_fn(
                "disabled_below",
                vec![plain_attr("test"), opaque_attr("cfg", "feature = \"no-such-feature\"")],
                1,
            )),
            marker_mod("inst", vec![GenArg::Ty(Ty::Tuple(vec![]))]),
        ],
    );
    let out = define(vec![], tree).expect("expansion succeeds");
    let fns = forwarded(nth_container(&out, 0));
    assert_eq!(
        fns[0].attrs,
        vec![plain_attr("test"), opaque_attr("cfg", "feature = \"no-such-feature\"")],
    );
}

fn attrs_list(key: &str, names: &[&str]) -> MetaItem {
    MetaItem {
        path: AttrPath::from_name(key),
        value: MetaValue::Paths(names.iter().map(|n| AttrPath::from_name(n)).collect()),
    }
}

#[test]
fn test_attr_works_too_when_listed() {
    // `attrs(allow, test, should_panic)` replaces the default marker set but
    // still lists `test`.
    let tree = root(
        "custom_test_attrs",
        vec![
            Decl::Fn(test_fn("test_attr_works_too_when_listed", vec![plain_attr("test")], 1)),
            marker_mod("inst", vec![GenArg::Ty(Ty::Tuple(vec![]))]),
        ],
    );
    let out = define(
        vec![attrs_list("attrs", &["allow", "test", "should_panic"])],
        tree,
    )
    .expect("expansion succeeds");
    let fns = forwarded(nth_container(&out, 0));
    assert_eq!(fns.len(), 1);
    assert_eq!(fns[0].ident, s("test_attr_works_too_when_listed"));
    assert_eq!(fns[0].attrs, vec![plain_attr("test")]);
}

#[test]
fn copy_doc_attrs() {
    // `copy_attrs(doc, cfg_attr)` overrides the default copied set: the doc
    // comment is mirrored onto the instantiation, and a function without a
    // marker is untouched.
    let tree = root(
        "custom_copy_attrs",
        vec![
            Decl::Fn(test_fn(
                "copy_doc_attrs",
                vec![opaque_attr("doc", " how doc comments are copied"), plain_attr("test")],
                1,
            )),
            Decl::Fn(test_fn(
                "not_a_test_case_but_has_doc",
                vec![opaque_attr("doc", " not copied"), opaque_attr("allow", "dead_code")],
                1,
            )),
            marker_mod("inst", vec![GenArg::Ty(Ty::Tuple(vec![]))]),
        ],
    );
    let out = define(vec![attrs_list("copy_attrs", &["doc", "cfg_attr"])], tree)
        .expect("expansion succeeds");
    let fns = forwarded(nth_container(&out, 0));
    assert_eq!(fns.len(), 1);
    assert_eq!(
        fns[0].attrs,
        vec![plain_attr("test"), opaque_attr("doc", " how doc comments are copied")],
    );
}

#[test]
fn custom_attr_gets_copied_to_instantiation() {
    let tree = root(
        "custom_copy_attrs",
        vec![
            Decl::Fn(test_fn(
                "custom_attr_gets_copied_to_instantiation",
                vec![
                    plain_attr("test"),
                    opaque_attr("cfg_attr", "test, should_panic"),
                    opaque_attr("allow", "unused_attributes"),
                ],
                1,
            )),
            marker_mod("inst", vec![GenArg::Ty(Ty::Tuple(vec![]))]),
        ],
    );
    let out = define(vec![attrs_list("copy_attrs", &["doc", "cfg_attr"])], tree)
        .expect("expansion succeeds");
    let fns = forwarded(nth_container(&out, 0));
    assert_eq!(
        fns[0].attrs,
        vec![plain_attr("test"), opaque_attr("cfg_attr", "test, should_panic")],
        "the listed attribute is copied, the unlisted one is not",
    );
}

#[test]
fn transformation_is_deterministic() {
    let make = || {
        root(
            "simple",
            vec![
                Decl::Fn(test_fn("case_a", vec![plain_attr("test")], 1)),
                Decl::Fn(test_fn("case_b", vec![plain_attr("test")], 1)),
                Decl::Container(Container {
                    attrs: vec![],
                    ident: s("deeper"),
                    content: Some(vec![marker_mod("unit", vec![GenArg::Ty(Ty::Tuple(vec![]))])]),
                }),
                marker_mod("string", string_arg()),
            ],
        )
    };
    let once = define(vec![], make()).expect("expansion succeeds");
    let twice = define(vec![], make()).expect("expansion succeeds");
    assert_eq!(once, twice);
}

#[test]
fn single_test_instantiates_with_string() {
    // Default configuration, one function marked `test` with no parameters
    // and no return type, one marker requesting `<String>`: the forwarding
    // function has no parameters, no return type, carries `test`, and its
    // body calls the root's function instantiated with `String`.
    let tree = root(
        "unit",
        vec![
            Decl::Fn(test_fn("check", vec![plain_attr("test")], 1)),
            marker_mod("string", string_arg()),
        ],
    );
    let out = define(vec![], tree).expect("expansion succeeds");
    let inst = nth_container(&out, 0);
    let items = inst.content.as_ref().unwrap();
    assert!(matches!(items[0], Decl::RootGlob(1)));
    let fns = forwarded(inst);
    assert_eq!(fns.len(), 1);
    let f = fns[0];
    assert_eq!(f.ident, s("check"));
    assert!(f.inputs.is_empty());
    assert_eq!(f.output, None);
    assert_eq!(f.attrs, vec![plain_attr("test")]);
    match &f.body {
        Body::Forward(fb) => {
            assert_eq!(fb.shim.target, s("check"));
            assert_eq!(fb.shim.root_supers, 1);
            assert_eq!(fb.shim.inst_args, string_arg());
            assert!(!fb.awaited);
        },
        _ => panic!("forwarding body expected"),
    }
}

#[test]
fn mismatched_arities_fail_citing_both_counts() {
    // Two test functions with generic arities one and two: extraction fails
    // naming the offending function and both counts.
    let tree = root(
        "unit",
        vec![
            Decl::Fn(test_fn("one_param", vec![plain_attr("test")], 1)),
            Decl::Fn(test_fn("two_params", vec![plain_attr("test")], 2)),
            marker_mod("string", string_arg()),
        ],
    );
    let err = define(vec![], tree).expect_err("extraction must fail");
    assert_eq!(
        err.diags(),
        &vec![Diag::ArityMismatch { ident: s("two_params"), found: 2, expected: 1 }],
    );
}

#[test]
fn nonempty_marker_fails_without_harming_siblings() {
    // The first marker module already holds a declaration: it fails with the
    // must-be-empty error; the unit reports exactly that one error, so the
    // sibling marker was processed without any of its own.
    let bad = Decl::Container(Container {
        attrs: vec![Attr {
            inner: false,
            path: AttrPath::from_name("instantiate_tests"),
            args: AttrArgs::TypeArgs(string_arg()),
        }],
        ident: s("occupied"),
        content: Some(vec![Decl::Other(s("struct Foo;"))]),
    });
    let tree = root(
        "unit",
        vec![
            Decl::Fn(test_fn("check", vec![plain_attr("test")], 1)),
            bad,
            marker_mod("fine", string_arg()),
        ],
    );
    let err = define(vec![], tree).expect_err("the unit fails");
    assert_eq!(err.diags(), &vec![Diag::MarkerNotEmpty { container: s("occupied") }]);
}

#[test]
fn opaque_root_is_refused() {
    let tree = Container { attrs: vec![], ident: s("unit"), content: None };
    let err = define(vec![], tree).expect_err("only inline containers");
    assert_eq!(err.diags(), &vec![Diag::RootNotInline]);
}

#[test]
fn opaque_marker_module_is_refused() {
    let bad = Decl::Container(Container {
        attrs: vec![Attr {
            inner: false,
            path: AttrPath::from_name("instantiate_tests"),
            args: AttrArgs::TypeArgs(string_arg()),
        }],
        ident: s("outline"),
        content: None,
    });
    let tree = root("unit", vec![Decl::Fn(test_fn("check", vec![plain_attr("test")], 1)), bad]);
    let err = define(vec![], tree).expect_err("marker module must be inline");
    assert_eq!(err.diags(), &vec![Diag::MarkerNotInline { container: s("outline") }]);
}

#[test]
fn inner_marker_attribute_is_refused() {
    let bad = Decl::Container(Container {
        attrs: vec![Attr {
            inner: true,
            path: AttrPath::from_name("instantiate_tests"),
            args: AttrArgs::TypeArgs(string_arg()),
        }],
        ident: s("inner"),
        content: Some(vec![]),
    });
    let tree = root("unit", vec![Decl::Fn(test_fn("check", vec![plain_attr("test")], 1)), bad]);
    let err = define(vec![], tree).expect_err("inner attribute refused");
    assert_eq!(err.diags(), &vec![Diag::MarkerInnerAttr { container: s("inner") }]);
}

#[test]
fn malformed_marker_arguments_are_refused() {
    let bad = Decl::Container(Container {
        attrs: vec![Attr {
            inner: false,
            path: AttrPath::from_name("instantiate_tests"),
            args: AttrArgs::Opaque(s("not an argument list")),
        }],
        ident: s("odd"),
        content: Some(vec![]),
    });
    let tree = root("unit", vec![Decl::Fn(test_fn("check", vec![plain_attr("test")], 1)), bad]);
    let err = define(vec![], tree).expect_err("marker arguments refused");
    assert_eq!(err.diags(), &vec![Diag::MarkerArgsInvalid { container: s("odd") }]);
}

#[test]
fn unknown_configuration_argument_is_refused() {
    let tree = root("unit", vec![]);
    let err = define(vec![attrs_list("nope", &["test"])], tree).expect_err("unknown key");
    assert_eq!(err.diags(), &vec![Diag::UnsupportedOptsArg]);
}

#[test]
fn malformed_configuration_argument_is_refused() {
    let tree = root("unit", vec![]);
    let bad = MetaItem { path: AttrPath::from_name("attrs"), value: MetaValue::Other };
    let err = define(vec![bad], tree).expect_err("malformed value");
    assert_eq!(err.diags(), &vec![Diag::OptsArgMalformed]);
}

#[test]
fn bare_override_attribute_is_refused() {
    let f = test_fn(
        "check",
        vec![
            Attr { inner: false, path: AttrPath::from_name("generic_test"), args: AttrArgs::Empty },
            plain_attr("test"),
        ],
        1,
    );
    let tree = root("unit", vec![Decl::Fn(f)]);
    let err = define(vec![], tree).expect_err("override needs arguments");
    assert_eq!(err.diags(), &vec![Diag::FnOptsNeedsArgs]);
}

#[test]
fn override_attribute_replaces_the_defaults() {
    // `generic_test(attrs(allow))` replaces the marker set for this one
    // function: `test` no longer marks it, `allow` does.
    let over = Attr {
        inner: false,
        path: AttrPath::from_name("generic_test"),
        args: AttrArgs::Meta(vec![attrs_list("attrs", &["allow"])]),
    };
    let tree = root(
        "unit",
        vec![
            Decl::Fn(test_fn(
                "by_allow",
                vec![over, opaque_attr("allow", "dead_code"), plain_attr("test")],
                1,
            )),
            marker_mod("string", string_arg()),
        ],
    );
    let out = define(vec![], tree).expect("expansion succeeds");
    let fns = forwarded(nth_container(&out, 0));
    assert_eq!(fns.len(), 1);
    assert_eq!(fns[0].attrs, vec![opaque_attr("allow", "dead_code")]);
    // the override attribute itself is stripped from the survivor
    let items = out.content.as_ref().unwrap();
    match &items[0] {
        Decl::Fn(f) => assert_eq!(f.attrs, vec![plain_attr("test")]),
        _ => panic!("generic definition expected first"),
    }
}

#[test]
fn const_function_is_refused() {
    let mut f = test_fn("check", vec![plain_attr("test")], 1);
    f.constness = true;
    let tree = root("unit", vec![Decl::Fn(f)]);
    let err = define(vec![], tree).expect_err("const refused");
    assert_eq!(err.diags(), &vec![Diag::ConstFn { ident: s("check") }]);
}

#[test]
fn foreign_abi_and_variadic_are_refused() {
    let mut f = test_fn("with_abi", vec![plain_attr("test")], 1);
    f.abi = true;
    let mut g = test_fn("with_dots", vec![plain_attr("test")], 1);
    g.variadic = true;
    let tree = root("unit", vec![Decl::Fn(f), Decl::Fn(g)]);
    let err = define(vec![], tree).expect_err("both refused");
    assert_eq!(
        err.diags(),
        &vec![
            Diag::ForeignAbi { ident: s("with_abi") },
            Diag::Variadic { ident: s("with_dots") },
        ],
    );
}

#[test]
fn generic_parameter_in_signature_is_refused() {
    let mut f = test_fn("check", vec![plain_attr("test")], 1);
    f.inputs = vec![named_param("value", simple_ty("T0"))];
    let tree = root("unit", vec![Decl::Fn(f)]);
    let err = define(vec![], tree).expect_err("leaked parameter refused");
    assert_eq!(err.diags(), &vec![Diag::GenericParamInSignature { ident: s("T0") }]);
}

#[test]
fn bad_parameter_patterns_are_refused() {
    let mut f = test_fn("wild", vec![plain_attr("test")], 1);
    f.inputs = vec![Param::Typed(TypedParam { attrs: vec![], pat: Pat::Wild, ty: simple_ty("i32") })];
    let tree = root("unit", vec![Decl::Fn(f)]);
    let err = define(vec![], tree).expect_err("wildcard refused");
    assert_eq!(err.diags(), &vec![Diag::PatternWildcard]);

    let mut g = test_fn("takes_self", vec![plain_attr("test")], 1);
    g.inputs = vec![Param::Receiver];
    let err2 = define(vec![], root("unit", vec![Decl::Fn(g)])).expect_err("receiver refused");
    assert_eq!(err2.diags(), &vec![Diag::PatternReceiver]);

    let mut h = test_fn("by_ref", vec![plain_attr("test")], 1);
    h.inputs = vec![Param::Typed(TypedParam {
        attrs: vec![],
        pat: Pat::Ident(PatIdent {
            ident: s("value"),
            mutable: false,
            by_ref: true,
            has_subpat: false,
            has_attrs: false,
        }),
        ty: simple_ty("i32"),
    })];
    let err3 = define(vec![], root("unit", vec![Decl::Fn(h)])).expect_err("by-ref refused");
    assert_eq!(err3.diags(), &vec![Diag::PatternUnsupportedFeatures]);
}

fn reference_to(name: &str, lifetime: Option<Lifetime>) -> Ty {
    Ty::Reference(RefTy { lifetime, mutable: false, elem: Box::new(simple_ty(name)) })
}

#[test]
fn elided_input_feeds_placeholder_output() {
    // One reference parameter with an elided lifetime, a reference return
    // type with a placeholder lifetime: both resolve to the one synthesized
    // lifetime.
    let mut f = test_fn("borrows", vec![plain_attr("test")], 1);
    f.inputs = vec![named_param("value", reference_to("str", None))];
    f.output = Some(reference_to("str", Some(Lifetime::Placeholder)));
    let tree = root(
        "unit",
        vec![Decl::Fn(f), marker_mod("string", string_arg())],
    );
    let out = define(vec![], tree).expect("expansion succeeds");
    let inst = nth_container(&out, 0);
    let items = inst.content.as_ref().unwrap();
    let callsig = match &items[1] {
        Decl::CallSig(cs) => cs,
        _ => panic!("carrier module expected second"),
    };
    assert_eq!(callsig.args_carriers.len(), 1);
    assert_eq!(callsig.args_carriers[0].lifetimes, vec![Lifetime::Synthetic(0)]);
    assert_eq!(
        callsig.args_carriers[0].fields[0].ty,
        reference_to("str", Some(Lifetime::Synthetic(0))),
        "the elided parameter lifetime is made explicit",
    );
    assert_eq!(
        callsig.ret_carriers[0].ty,
        reference_to("str", Some(Lifetime::Synthetic(0))),
        "the placeholder resolves to the same synthesized lifetime",
    );
    // the forwarding function keeps the parameter type as written
    let fns = forwarded(inst);
    match &fns[0].inputs[0] {
        Param::Typed(tp) => assert_eq!(tp.ty, reference_to("str", None)),
        _ => panic!("typed parameter expected"),
    }
}

#[test]
fn ambiguous_placeholder_is_refused() {
    // Two distinct input lifetimes, a placeholder output lifetime: an
    // ambiguity error.
    let mut f = test_fn("borrows_two", vec![plain_attr("test")], 1);
    f.inputs = vec![
        named_param("first", reference_to("str", None)),
        named_param("second", reference_to("str", None)),
    ];
    f.output = Some(reference_to("str", Some(Lifetime::Placeholder)));
    let tree = root("unit", vec![Decl::Fn(f)]);
    let err = define(vec![], tree).expect_err("ambiguity refused");
    assert_eq!(err.diags(), &vec![Diag::PlaceholderAmbiguous]);
}

#[test]
fn ambiguity_errors_aggregate() {
    // With two distinct input lifetimes, a placeholder on the outer return
    // reference and an elided lifetime on the inner one are two independent
    // failures, reported together and in source order.
    let mut f = test_fn("borrows_two", vec![plain_attr("test")], 1);
    f.inputs = vec![
        named_param("first", reference_to("str", None)),
        named_param("second", reference_to("str", None)),
    ];
    f.output = Some(Ty::Reference(RefTy {
        lifetime: Some(Lifetime::Placeholder),
        mutable: false,
        elem: Box::new(reference_to("str", None)),
    }));
    let tree = root("unit", vec![Decl::Fn(f)]);
    let err = define(vec![], tree).expect_err("both ambiguities refused");
    assert_eq!(
        err.diags(),
        &vec![Diag::PlaceholderAmbiguous, Diag::ElidedAmbiguous],
    );
}

#[test]
fn ambiguous_elided_return_is_refused() {
    let mut f = test_fn("borrows_two", vec![plain_attr("test")], 1);
    f.inputs = vec![
        named_param("first", reference_to("str", None)),
        named_param("second", reference_to("str", None)),
    ];
    f.output = Some(reference_to("str", None));
    let tree = root("unit", vec![Decl::Fn(f)]);
    let err = define(vec![], tree).expect_err("elided return refused");
    assert_eq!(err.diags(), &vec![Diag::ElidedAmbiguous]);
}

#[test]
fn lifetime_bounds_are_refused() {
    let mut f = test_fn("bounded", vec![plain_attr("test")], 1);
    f.generics.params.insert(
        0,
        GenParam::Lifetime(LtDecl {
            lifetime: Lifetime::Named(s("a")),
            bounds: vec![Lifetime::Named(s("b"))],
        }),
    );
    f.inputs = vec![named_param(
        "value",
        reference_to("str", Some(Lifetime::Named(s("a")))),
    )];
    let tree = root("unit", vec![Decl::Fn(f)]);
    let err = define(vec![], tree).expect_err("bounds refused");
    assert_eq!(err.diags(), &vec![Diag::LifetimeBounds]);
}

#[test]
fn identical_shapes_share_one_carrier() {
    // Two test functions with structurally identical parameter lists share
    // one argument-record carrier; a third, different shape gets its own.
    let mut f = test_fn("first", vec![plain_attr("test")], 1);
    f.inputs = vec![named_param("value", simple_ty("i32"))];
    let mut g = test_fn("second", vec![plain_attr("test")], 1);
    g.inputs = vec![named_param("other_name", simple_ty("i32"))];
    let mut h = test_fn("third", vec![plain_attr("test")], 1);
    h.inputs = vec![named_param("value", simple_ty("u8"))];
    let tree = root(
        "unit",
        vec![
            Decl::Fn(f),
            Decl::Fn(g),
            Decl::Fn(h),
            marker_mod("string", string_arg()),
        ],
    );
    let out = define(vec![], tree).expect("expansion succeeds");
    let inst = nth_container(&out, 0);
    let items = inst.content.as_ref().unwrap();
    let callsig = match &items[1] {
        Decl::CallSig(cs) => cs,
        _ => panic!("carrier module expected second"),
    };
    // field names and types are both part of the shape, so these three
    // parameter lists are pairwise distinct and each keeps its own carrier
    assert_eq!(callsig.args_carriers.len(), 3);
    assert_eq!(callsig.ret_carriers.len(), 1, "all three share the unit return alias");

    // and with an equal twin the carrier really is shared:
    let mut f2 = test_fn("first", vec![plain_attr("test")], 1);
    f2.inputs = vec![named_param("value", simple_ty("i32"))];
    let mut g2 = test_fn("twin", vec![plain_attr("test")], 1);
    g2.inputs = vec![named_param("value", simple_ty("i32"))];
    let tree2 = root(
        "unit",
        vec![Decl::Fn(f2), Decl::Fn(g2), marker_mod("string", string_arg())],
    );
    let out2 = define(vec![], tree2).expect("expansion succeeds");
    let inst2 = nth_container(&out2, 0);
    let items2 = inst2.content.as_ref().unwrap();
    let callsig2 = match &items2[1] {
        Decl::CallSig(cs) => cs,
        _ => panic!("carrier module expected second"),
    };
    assert_eq!(callsig2.args_carriers.len(), 1, "one shared carrier for both");
    let fns = forwarded(inst2);
    match (&fns[0].body, &fns[1].body) {
        (Body::Forward(a), Body::Forward(b)) => {
            assert_eq!(a.shim.args_carrier, b.shim.args_carrier);
        },
        _ => panic!("forwarding bodies expected"),
    }
}

#[test]
fn bench_marker_and_const_argument() {
    // `bench` is a default marker, and a marker may bind a constant argument
    // to a constant generic parameter.
    let mut f = test_fn("fill_vec", vec![plain_attr("bench")], 0);
    f.generics.params.push(GenParam::Konst(KonstParamDecl { ident: s("LEN"), decl: s("usize") }));
    let tree = root(
        "benches",
        vec![Decl::Fn(f), marker_mod("kilo", vec![GenArg::Konst(s("1024"))])],
    );
    let out = define(vec![], tree).expect("expansion succeeds");
    let fns = forwarded(nth_container(&out, 0));
    assert_eq!(fns.len(), 1);
    assert_eq!(fns[0].attrs, vec![plain_attr("bench")]);
    match &fns[0].body {
        Body::Forward(fb) => assert_eq!(fb.shim.inst_args, vec![GenArg::Konst(s("1024"))]),
        _ => panic!("forwarding body expected"),
    }
}

#[test]
fn modifier_attributes_ride_along() {
    // `ignore` and `should_panic` are default markers too: all are erased
    // from the generic definition and replicated in their written order.
    let tree = root(
        "modifier_attrs",
        vec![
            Decl::Fn(test_fn(
                "skipped",
                vec![plain_attr("test"), opaque_attr("ignore", "= \"left out on purpose\"")],
                1,
            )),
            Decl::Fn(test_fn(
                "explodes",
                vec![
                    plain_attr("test"),
                    opaque_attr("should_panic", "expected = \"panicking as it should\""),
                ],
                1,
            )),
            marker_mod("inst", vec![GenArg::Ty(Ty::Tuple(vec![]))]),
        ],
    );
    let out = define(vec![], tree).expect("expansion succeeds");
    let fns = forwarded(nth_container(&out, 0));
    assert_eq!(fns.len(), 2);
    assert_eq!(
        fns[0].attrs,
        vec![plain_attr("test"), opaque_attr("ignore", "= \"left out on purpose\"")],
    );
    assert_eq!(
        fns[1].attrs,
        vec![
            plain_attr("test"),
            opaque_attr("should_panic", "expected = \"panicking as it should\""),
        ],
    );
    // both generic definitions survive with every marker erased
    let items = out.content.as_ref().unwrap();
    for d in &items[0..2] {
        match d {
            Decl::Fn(f) => assert!(f.attrs.is_empty()),
            _ => panic!("generic definitions expected first"),
        }
    }
}

#[test]
fn bounds_and_where_clause_survive() {
    // The bounds, defaults and extra where-clause predicates of a generic
    // definition are not read by the engine, but they ride through the
    // rewrite verbatim; the forwarding function gets none of them.
    let mut f = test_fn("equates", vec![plain_attr("test")], 0);
    f.generics.params.push(type_param("S", ": From<&'static str>"));
    f.generics.where_preds.push(WherePred::Other(s("S: ?Sized + PartialEq<str> + Debug")));
    let tree = root(
        "simple",
        vec![Decl::Fn(f), marker_mod("string", string_arg())],
    );
    let out = define(vec![], tree).expect("expansion succeeds");
    let items = out.content.as_ref().unwrap();
    match &items[0] {
        Decl::Fn(g) => {
            assert_eq!(g.generics.params, vec![type_param("S", ": From<&'static str>")]);
            assert_eq!(
                g.generics.where_preds,
                vec![WherePred::Other(s("S: ?Sized + PartialEq<str> + Debug"))],
            );
        },
        _ => panic!("generic definition expected first"),
    }
    let fns = forwarded(nth_container(&out, 0));
    assert!(fns[0].generics.params.is_empty());
    assert!(fns[0].generics.where_preds.is_empty());
}

#[test]
fn opaque_type_forms_pass_through() {
    // A type form beyond the modeled grammar is carried as opaque text: a
    // helper that is no test case keeps it, and a test parameter of such a
    // type flows into the carrier field unchanged.
    let mut helper = test_fn("helper", vec![], 0);
    helper.inputs = vec![named_param("bytes", Ty::Opaque(s("[u8; 4]")))];
    let mut f = test_fn("sums", vec![plain_attr("test")], 1);
    f.inputs = vec![named_param("bytes", Ty::Opaque(s("[u8; 4]")))];
    let tree = root(
        "unit",
        vec![Decl::Fn(helper), Decl::Fn(f), marker_mod("string", string_arg())],
    );
    let out = define(vec![], tree).expect("expansion succeeds");
    let items = out.content.as_ref().unwrap();
    match &items[0] {
        Decl::Fn(g) => match &g.inputs[0] {
            Param::Typed(tp) => assert_eq!(tp.ty, Ty::Opaque(s("[u8; 4]"))),
            _ => panic!("typed parameter expected"),
        },
        _ => panic!("helper expected first"),
    }
    let inst = nth_container(&out, 0);
    let callsig = match &inst.content.as_ref().unwrap()[1] {
        Decl::CallSig(cs) => cs,
        _ => panic!("carrier module expected second"),
    };
    assert_eq!(callsig.args_carriers[0].fields[0].ty, Ty::Opaque(s("[u8; 4]")));
}

#[test]
fn rooted_path_is_no_generic_parameter() {
    // A path starting at the crate root cannot name the function's own
    // generic parameter, even when its first segment matches one by name.
    let rooted = Ty::Path(TyPath {
        leading_colon: true,
        qself: None,
        segments: vec![
            PathSeg { ident: s("T0"), args: SegArgs::Angle(vec![]) },
            PathSeg { ident: s("item"), args: SegArgs::Angle(vec![]) },
        ],
    });
    let mut f = test_fn("uses_rooted", vec![plain_attr("test")], 1);
    f.inputs = vec![named_param("value", rooted)];
    let tree = root(
        "unit",
        vec![Decl::Fn(f), marker_mod("string", string_arg())],
    );
    define(vec![], tree).expect("a rooted path is not the parameter");
}

#[test]
fn async_unsafe_qualifiers_are_mirrored() {
    let mut f = test_fn("background", vec![plain_attr("test")], 1);
    f.asyncness = true;
    f.unsafety = true;
    let tree = root(
        "unit",
        vec![Decl::Fn(f), marker_mod("string", string_arg())],
    );
    let out = define(vec![], tree).expect("expansion succeeds");
    let fns = forwarded(nth_container(&out, 0));
    assert!(fns[0].asyncness);
    assert!(fns[0].unsafety);
    match &fns[0].body {
        Body::Forward(fb) => {
            assert!(fb.awaited, "an asynchronous call is awaited");
            assert!(fb.shim.awaited);
            assert!(fb.shim.asyncness);
        },
        _ => panic!("forwarding body expected"),
    }
}
