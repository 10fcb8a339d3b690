//! Attribute classification configuration.
//!
//! A processing unit carries two sets of attribute paths: marker attributes,
//! whose presence classifies a function as a test case, and copied
//! attributes, which are mirrored onto every forwarding function while also
//! staying on the generic definition.  Defaults exist at the unit level; a
//! function may carry an override attribute that fully replaces them for that
//! function only.

use vstd::prelude::*;

use crate::error::Diag;
use crate::error::DiagV;
use crate::error::ErrorRecord;
use crate::tree::attr_paths_view;
use crate::tree::clone_attr_paths;
use crate::tree::contains_path;
use crate::tree::spec_path1;
use crate::tree::Attr;
use crate::tree::AttrArgs;
use crate::tree::AttrArgsV;
use crate::tree::AttrPath;
use crate::tree::AttrPathV;
use crate::tree::AttrV;
use crate::tree::MetaItem;
use crate::tree::MetaItemV;
use crate::tree::MetaValue;
use crate::tree::MetaValueV;

verus! {

/// The built-in marker-attribute paths.
pub open spec fn default_marker_paths() -> Seq<AttrPathV> {
    seq![
        spec_path1("test"@),
        spec_path1("ignore"@),
        spec_path1("should_panic"@),
        spec_path1("bench"@),
    ]
}

/// The built-in copied-attribute paths.
pub open spec fn default_copied_paths() -> Seq<AttrPathV> {
    seq![spec_path1("cfg"@)]
}

/// The effective classification configuration of one processing unit.
pub struct MacroOpts {
    inst_attrs: Vec<AttrPath>,
    copy_attrs: Vec<AttrPath>,
}

/// Ghost form of the effective configuration.
#[verifier::ext_equal]
pub ghost struct MacroOptsV {
    pub inst_attrs: Seq<AttrPathV>,
    pub copy_attrs: Seq<AttrPathV>,
}

impl View for MacroOpts {
    type V = MacroOptsV;

    closed spec fn view(&self) -> MacroOptsV {
        MacroOptsV {
            inst_attrs: attr_paths_view(self.inst_attrs@),
            copy_attrs: attr_paths_view(self.copy_attrs@),
        }
    }
}

/// The configuration arguments as written on the unit, each set present only
/// where the author gave it.
pub struct ParsedMacroOpts {
    inst_attrs: Option<Vec<AttrPath>>,
    copy_attrs: Option<Vec<AttrPath>>,
}

/// Ghost form of the written configuration.
#[verifier::ext_equal]
pub ghost struct ParsedMacroOptsV {
    pub inst_attrs: Option<Seq<AttrPathV>>,
    pub copy_attrs: Option<Seq<AttrPathV>>,
}

impl View for ParsedMacroOpts {
    type V = ParsedMacroOptsV;

    closed spec fn view(&self) -> ParsedMacroOptsV {
        ParsedMacroOptsV {
            inst_attrs: opt_paths_view(&self.inst_attrs),
            copy_attrs: opt_paths_view(&self.copy_attrs),
        }
    }
}

/// A function's override configuration; each set replaces the unit's default
/// where present.
pub struct TestFnOpts {
    inst_attrs: Option<Vec<AttrPath>>,
    copy_attrs: Option<Vec<AttrPath>>,
}

/// Ghost form of a function's override configuration.
#[verifier::ext_equal]
pub ghost struct TestFnOptsV {
    pub inst_attrs: Option<Seq<AttrPathV>>,
    pub copy_attrs: Option<Seq<AttrPathV>>,
}

impl View for TestFnOpts {
    type V = TestFnOptsV;

    closed spec fn view(&self) -> TestFnOptsV {
        TestFnOptsV {
            inst_attrs: opt_paths_view(&self.inst_attrs),
            copy_attrs: opt_paths_view(&self.copy_attrs),
        }
    }
}

/// View of an optional path set.
pub open spec fn opt_paths_view(o: &Option<Vec<AttrPath>>) -> Option<Seq<AttrPathV>> {
    match *o {
        Some(v) => Some(attr_paths_view(v@)),
        None => None,
    }
}

/// Whether the configuration classifies an attribute as a test marker: the
/// function's override set decides where present, else the unit's set; the
/// attribute counts by its path alone.
pub open spec fn spec_is_test_attr(a: AttrV, m: MacroOptsV, f: TestFnOptsV) -> bool {
    match f.inst_attrs {
        Some(s) => s.contains(a.path),
        None => m.inst_attrs.contains(a.path),
    }
}

/// Whether the configuration classifies an attribute as copied.
pub open spec fn spec_is_copied_attr(a: AttrV, m: MacroOptsV, f: TestFnOptsV) -> bool {
    match f.copy_attrs {
        Some(s) => s.contains(a.path),
        None => m.copy_attrs.contains(a.path),
    }
}

/// Decides whether an attribute marks its function as a test case.
pub fn is_test_attr(attr: &Attr, macro_opts: &MacroOpts, fn_opts: &TestFnOpts) -> (r: bool)
    ensures
        r == spec_is_test_attr(attr@, macro_opts@, fn_opts@),
{
    match &fn_opts.inst_attrs {
        Some(s) => contains_path(s, &attr.path),
        None => contains_path(&macro_opts.inst_attrs, &attr.path),
    }
}

/// Decides whether an attribute is copied onto forwarding functions while
/// staying on the generic definition.
pub fn is_copied_attr(attr: &Attr, macro_opts: &MacroOpts, fn_opts: &TestFnOpts) -> (r: bool)
    ensures
        r == spec_is_copied_attr(attr@, macro_opts@, fn_opts@),
{
    match &fn_opts.copy_attrs {
        Some(s) => contains_path(s, &attr.path),
        None => contains_path(&macro_opts.copy_attrs, &attr.path),
    }
}

/// The built-in marker set as a value.
fn default_marker_set() -> (r: Vec<AttrPath>)
    ensures
        attr_paths_view(r@) == default_marker_paths(),
{
    let mut r: Vec<AttrPath> = Vec::new();
    r.push(AttrPath::from_name("test"));
    r.push(AttrPath::from_name("ignore"));
    r.push(AttrPath::from_name("should_panic"));
    r.push(AttrPath::from_name("bench"));
    proof {
        assert(attr_paths_view(r@) =~= default_marker_paths());
    }
    r
}

/// The built-in copied set as a value.
fn default_copied_set() -> (r: Vec<AttrPath>)
    ensures
        attr_paths_view(r@) == default_copied_paths(),
{
    let mut r: Vec<AttrPath> = Vec::new();
    r.push(AttrPath::from_name("cfg"));
    proof {
        assert(attr_paths_view(r@) =~= default_copied_paths());
    }
    r
}

impl Default for MacroOpts {
    /// The configuration with both built-in sets.
    fn default() -> (r: MacroOpts)
        ensures
            r@.inst_attrs == default_marker_paths(),
            r@.copy_attrs == default_copied_paths(),
    {
        MacroOpts { inst_attrs: default_marker_set(), copy_attrs: default_copied_set() }
    }
}

/// Extension of an optional path set: an absent set starts empty.
pub open spec fn spec_opt_paths_plus(cur: Option<Seq<AttrPathV>>, ps: Seq<AttrPathV>) -> Option<
    Seq<AttrPathV>,
> {
    match cur {
        Some(s) => Some(s + ps),
        None => Some(ps),
    }
}

/// Extends an optional path set.
fn extend_opt_paths(target: &mut Option<Vec<AttrPath>>, ps: Vec<AttrPath>)
    ensures
        opt_paths_view(final(target)) == spec_opt_paths_plus(
            opt_paths_view(old(target)),
            attr_paths_view(ps@),
        ),
{
    let mut taken = ps;
    match target {
        Some(v) => {
            v.append(&mut taken);
            proof {
                assert(attr_paths_view(final(target)->0@) =~= attr_paths_view(old(target)->0@)
                    + attr_paths_view(ps@));
            }
        },
        None => {
            *target = Some(taken);
        },
    }
}

/// What one configuration argument does to the written configuration:
/// `attrs(...)` extends the marker set, `copy_attrs(...)` extends the copied
/// set, anything else is refused and leaves it unchanged.
pub open spec fn spec_parse_opts_item(o: ParsedMacroOptsV, m: MetaItemV) -> Result<
    ParsedMacroOptsV,
    DiagV,
> {
    if m.path == spec_path1("attrs"@) {
        match m.value {
            MetaValueV::Paths(ps) => Ok(
                ParsedMacroOptsV {
                    inst_attrs: spec_opt_paths_plus(o.inst_attrs, ps),
                    copy_attrs: o.copy_attrs,
                },
            ),
            MetaValueV::Other => Err(DiagV::OptsArgMalformed),
        }
    } else if m.path == spec_path1("copy_attrs"@) {
        match m.value {
            MetaValueV::Paths(ps) => Ok(
                ParsedMacroOptsV {
                    inst_attrs: o.inst_attrs,
                    copy_attrs: spec_opt_paths_plus(o.copy_attrs, ps),
                },
            ),
            MetaValueV::Other => Err(DiagV::OptsArgMalformed),
        }
    } else {
        Err(DiagV::UnsupportedOptsArg)
    }
}

/// The effective configuration: each set as written, or the built-in
/// default where none was given.
pub open spec fn spec_into_effective(p: ParsedMacroOptsV) -> MacroOptsV {
    MacroOptsV {
        inst_attrs: match p.inst_attrs {
            Some(s) => s,
            None => default_marker_paths(),
        },
        copy_attrs: match p.copy_attrs {
            Some(s) => s,
            None => default_copied_paths(),
        },
    }
}

impl ParsedMacroOpts {
    /// The empty written configuration: neither set given.
    pub fn new() -> (r: ParsedMacroOpts)
        ensures
            r@.inst_attrs is None,
            r@.copy_attrs is None,
    {
        ParsedMacroOpts { inst_attrs: None, copy_attrs: None }
    }

    /// Applies one recognized configuration argument, or fails on an
    /// unrecognized or malformed one, leaving the configuration unchanged.
    pub fn parse(&mut self, meta: MetaItem) -> (r: Result<(), ErrorRecord>)
        ensures
            ({
                let res = spec_parse_opts_item(old(self)@, meta@);
                match r {
                    Ok(_) => res matches Ok(v) && final(self)@ == v,
                    Err(e) => res matches Err(d) && e@ == seq![d] && final(self)@ == old(self)@,
                }
            }),
    {
        if meta.path.is_ident("attrs") {
            match meta.value {
                MetaValue::Paths(ps) => {
                    extend_opt_paths(&mut self.inst_attrs, ps);
                    Ok(())
                },
                MetaValue::Other => Err(ErrorRecord::single(Diag::OptsArgMalformed)),
            }
        } else if meta.path.is_ident("copy_attrs") {
            match meta.value {
                MetaValue::Paths(ps) => {
                    extend_opt_paths(&mut self.copy_attrs, ps);
                    Ok(())
                },
                MetaValue::Other => Err(ErrorRecord::single(Diag::OptsArgMalformed)),
            }
        } else {
            Err(ErrorRecord::single(Diag::UnsupportedOptsArg))
        }
    }

    /// The effective configuration, as `spec_into_effective` says.
    pub fn into_effective(self) -> (r: MacroOpts)
        ensures
            r@ == spec_into_effective(self@),
    {
        MacroOpts {
            inst_attrs: match self.inst_attrs {
                Some(s) => s,
                None => default_marker_set(),
            },
            copy_attrs: match self.copy_attrs {
                Some(s) => s,
                None => default_copied_set(),
            },
        }
    }
}

/// What the items of a per-function override attribute do, processed in
/// order up to the first malformed one: the configuration reached and the
/// diagnostic that stopped processing, if any.
pub open spec fn spec_apply_items(o: TestFnOptsV, items: Seq<MetaItemV>) -> (TestFnOptsV, Option<
    DiagV,
>)
    decreases items.len(),
{
    if items.len() == 0 {
        (o, None)
    } else {
        let m = items[0];
        if m.path == spec_path1("attrs"@) {
            match m.value {
                MetaValueV::Paths(ps) => spec_apply_items(
                    TestFnOptsV {
                        inst_attrs: spec_opt_paths_plus(o.inst_attrs, ps),
                        copy_attrs: o.copy_attrs,
                    },
                    items.drop_first(),
                ),
                MetaValueV::Other => (o, Some(DiagV::OptsArgMalformed)),
            }
        } else if m.path == spec_path1("copy_attrs"@) {
            match m.value {
                MetaValueV::Paths(ps) => spec_apply_items(
                    TestFnOptsV {
                        inst_attrs: o.inst_attrs,
                        copy_attrs: spec_opt_paths_plus(o.copy_attrs, ps),
                    },
                    items.drop_first(),
                ),
                MetaValueV::Other => (o, Some(DiagV::OptsArgMalformed)),
            }
        } else {
            (o, Some(DiagV::FnOptsMalformed))
        }
    }
}

/// What a whole override attribute does to a function's configuration: a
/// bare attribute and one whose arguments are not a configuration list are
/// refused.
pub open spec fn spec_apply_attr(o: TestFnOptsV, args: AttrArgsV) -> (TestFnOptsV, Option<DiagV>) {
    match args {
        AttrArgsV::Empty => (o, Some(DiagV::FnOptsNeedsArgs)),
        AttrArgsV::Meta(items) => spec_apply_items(o, items),
        AttrArgsV::TypeArgs(_) => (o, Some(DiagV::FnOptsMalformed)),
        AttrArgsV::Opaque(_) => (o, Some(DiagV::FnOptsMalformed)),
    }
}

impl TestFnOpts {
    /// The override configuration replacing nothing.
    pub fn new() -> (r: TestFnOpts)
        ensures
            r@.inst_attrs is None,
            r@.copy_attrs is None,
    {
        TestFnOpts { inst_attrs: None, copy_attrs: None }
    }

    /// Applies the arguments of one override attribute, in order, stopping at
    /// the first malformed item; the items already applied keep their effect.
    #[verifier::loop_isolation(false)]
    pub fn apply_attr(&mut self, args: AttrArgs) -> (r: Result<(), ErrorRecord>)
        ensures
            ({
                let res = spec_apply_attr(old(self)@, args@);
                final(self)@ == res.0 && match r {
                    Ok(_) => res.1 is None,
                    Err(e) => res.1 matches Some(d) && e@ == seq![d],
                }
            }),
    {
        let items = match args {
            AttrArgs::Empty => {
                return Err(ErrorRecord::single(Diag::FnOptsNeedsArgs));
            },
            AttrArgs::Meta(items) => items,
            AttrArgs::TypeArgs(_) => {
                return Err(ErrorRecord::single(Diag::FnOptsMalformed));
            },
            AttrArgs::Opaque(_) => {
                return Err(ErrorRecord::single(Diag::FnOptsMalformed));
            },
        };
        let ghost items_v = crate::tree::meta_items_view(items@);
        proof {
            assert(items_v.skip(0) =~= items_v);
        }
        let n = items.len();
        let mut i: usize = 0;
        while i < n
            invariant
                i <= n,
                spec_apply_items(old(self)@, items_v) == spec_apply_items(
                    self@,
                    items_v.skip(i as int),
                ),
            decreases n - i,
        {
            let item = &items[i];
            proof {
                assert(items_v.skip(i as int).len() > 0);
                assert(items_v.skip(i as int)[0] == item@);
            }
            if item.path.is_ident("attrs") {
                match &item.value {
                    MetaValue::Paths(ps) => {
                        extend_opt_paths(&mut self.inst_attrs, clone_attr_paths(ps));
                    },
                    MetaValue::Other => {
                        proof {
                            assert(spec_apply_items(self@, items_v.skip(i as int)) == (
                                self@,
                                Some(DiagV::OptsArgMalformed),
                            ));
                        }
                        return Err(ErrorRecord::single(Diag::OptsArgMalformed));
                    },
                }
            } else if item.path.is_ident("copy_attrs") {
                match &item.value {
                    MetaValue::Paths(ps) => {
                        extend_opt_paths(&mut self.copy_attrs, clone_attr_paths(ps));
                    },
                    MetaValue::Other => {
                        return Err(ErrorRecord::single(Diag::OptsArgMalformed));
                    },
                }
            } else {
                return Err(ErrorRecord::single(Diag::FnOptsMalformed));
            }
            i = i + 1;
            proof {
                assert(items_v.skip(i - 1).drop_first() =~= items_v.skip(i as int));
            }
        }
        proof {
            assert(items_v.skip(n as int) =~= Seq::<MetaItemV>::empty());
        }
        Ok(())
    }
}

} // verus!
