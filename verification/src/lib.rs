//! Engine that turns one set of generic test definitions into many concrete
//! test cases.
//!
//! The input is a parsed module tree holding generic functions annotated with
//! test-marker attributes, together with empty submodules annotated with an
//! `instantiate_tests` marker carrying concrete argument lists.  The engine
//! classifies attributes, extracts and normalizes every test function's
//! signature (resolving elided and placeholder lifetimes), deduplicates
//! structurally identical signatures into shared carrier declarations, and
//! rewrites the tree so that every marked submodule holds one forwarding
//! function per generic test.  Parsing source text into the tree model and
//! printing the rewritten tree back out are left to the surrounding harness.

pub mod catalog;
pub mod error;
pub mod expand;
pub mod extract;
pub mod lifetimes;
pub mod options;
pub mod signature;
pub mod tree;

use vstd::prelude::*;

use error::DiagV;
use error::ErrorRecord;
use expand::spec_transform;
use options::spec_into_effective;
use options::spec_parse_opts_item;
use options::ParsedMacroOpts;
use options::ParsedMacroOptsV;
use tree::container_height;
use tree::meta_items_view;
use tree::Container;
use tree::ContainerV;
use tree::MetaItem;
use tree::MetaItemV;

verus! {

/// What parsing the unit-level configuration arguments does, argument by
/// argument: the first unrecognized or malformed one stops everything.
pub open spec fn spec_parse_all_opts(args: Seq<MetaItemV>, o: ParsedMacroOptsV) -> Result<
    ParsedMacroOptsV,
    DiagV,
>
    decreases args,
{
    if args.len() == 0 {
        Ok(o)
    } else {
        match spec_parse_opts_item(o, args[0]) {
            Ok(o1) => spec_parse_all_opts(args.drop_first(), o1),
            Err(d) => Err(d),
        }
    }
}

/// What one whole invocation does: the configuration arguments are parsed
/// and completed with the built-in defaults, then the unit is transformed.
pub open spec fn spec_define(args: Seq<MetaItemV>, ast: ContainerV) -> Result<
    ContainerV,
    Seq<DiagV>,
> {
    match spec_parse_all_opts(
        args,
        ParsedMacroOptsV { inst_attrs: None, copy_attrs: None },
    ) {
        Err(d) => Err(seq![d]),
        Ok(p) => spec_transform(spec_into_effective(p), ast),
    }
}

/// Populates a module tree with test cases parameterizing generic
/// definitions, as `spec_define` says: the rewritten tree, or every
/// diagnostic the pass collected.  The nesting bound is what the machine
/// forces: a generated step-up path must fit a `usize`.
#[verifier::loop_isolation(false)]
pub fn define(args: Vec<MetaItem>, ast: Container) -> (r: Result<Container, ErrorRecord>)
    requires
        container_height(ast@) <= usize::MAX as nat,
    ensures
        match r {
            Ok(c) => spec_define(meta_items_view(args@), ast@) matches Ok(v) && c@ == v,
            Err(e) => spec_define(meta_items_view(args@), ast@) matches Err(ds) && e@ == ds,
        },
{
    let ghost full = meta_items_view(args@);
    proof {
        assert(full.skip(0) =~= full);
    }
    let mut opts = ParsedMacroOpts::new();
    let ghost o0 = opts@;
    let mut rest = args;
    let ghost args0 = rest@;
    let ghost mut done: int = 0;
    while rest.len() > 0
        invariant
            0 <= done <= args0.len(),
            rest@ == args0.skip(done),
            spec_parse_all_opts(full, o0) == spec_parse_all_opts(full.skip(done), opts@),
        decreases rest.len(),
    {
        proof {
            assert(rest@[0] == args0[done]);
            assert(full.skip(done)[0] == args0[done]@);
        }
        let item = rest.remove(0);
        match opts.parse(item) {
            Ok(_) => {},
            Err(e) => {
                return Err(e);
            },
        }
        proof {
            done = done + 1;
            assert(rest@ =~= args0.skip(done));
            assert(full.skip(done - 1).drop_first() =~= full.skip(done));
        }
    }
    proof {
        assert(full.skip(done) =~= Seq::<MetaItemV>::empty());
    }
    let effective = opts.into_effective();
    expand::expand(&effective, ast)
}

} // verus!
