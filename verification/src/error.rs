//! Accumulation of independent diagnostics.
//!
//! Every stage of the transformation can fail for one function or one marker
//! without stopping work on its siblings.  Failures are recorded here and
//! inspected only once the whole pass is finished.

use vstd::prelude::*;

verus! {

/// One diagnostic of the transformation.  Identifier payloads name the
/// offending item where the corresponding message would quote it.
#[derive(Debug, PartialEq)]
pub enum Diag {
    /// The top-level container has no inline body.
    RootNotInline,
    /// A marker submodule has no inline body; names the submodule.
    MarkerNotInline { container: String },
    /// A marker submodule already holds declarations; names the submodule.
    MarkerNotEmpty { container: String },
    /// The marker was written as an inner attribute; names the submodule.
    MarkerInnerAttr { container: String },
    /// The marker's arguments are not an angle-bracketed argument list;
    /// names the submodule.
    MarkerArgsInvalid { container: String },
    /// A unit-level configuration argument is not recognized.
    UnsupportedOptsArg,
    /// A configuration argument does not carry a parenthesized path list.
    OptsArgMalformed,
    /// A per-function override attribute without arguments.
    FnOptsNeedsArgs,
    /// A per-function override attribute whose arguments are malformed.
    FnOptsMalformed,
    /// A test function is `const`; names the function.
    ConstFn { ident: String },
    /// A test function declares a foreign calling convention; names it.
    ForeignAbi { ident: String },
    /// A test function is variadic; names it.
    Variadic { ident: String },
    /// A signature mentions one of the function's own type or constant
    /// generic parameters; names that parameter.
    GenericParamInSignature { ident: String },
    /// A test function's count of type and constant generic parameters
    /// differs from the rest of the unit; names the function and both counts.
    ArityMismatch { ident: String, found: usize, expected: usize },
    /// A parameter pattern binds a name but uses unsupported extras.
    PatternUnsupportedFeatures,
    /// A parameter is a wildcard pattern.
    PatternWildcard,
    /// A parameter pattern is not a plain binding.
    PatternUnsupported,
    /// A parameter is a receiver.
    PatternReceiver,
    /// A placeholder lifetime cannot be tied to a unique input lifetime.
    PlaceholderAmbiguous,
    /// An elided reference lifetime in return position cannot be tied to a
    /// unique input lifetime.
    ElidedAmbiguous,
    /// A lifetime parameter carries bounds.
    LifetimeBounds,
}

/// Ghost form of a diagnostic: identifier payloads as character sequences.
#[verifier::ext_equal]
pub ghost enum DiagV {
    RootNotInline,
    MarkerNotInline { container: Seq<char> },
    MarkerNotEmpty { container: Seq<char> },
    MarkerInnerAttr { container: Seq<char> },
    MarkerArgsInvalid { container: Seq<char> },
    UnsupportedOptsArg,
    OptsArgMalformed,
    FnOptsNeedsArgs,
    FnOptsMalformed,
    ConstFn { ident: Seq<char> },
    ForeignAbi { ident: Seq<char> },
    Variadic { ident: Seq<char> },
    GenericParamInSignature { ident: Seq<char> },
    ArityMismatch { ident: Seq<char>, found: nat, expected: nat },
    PatternUnsupportedFeatures,
    PatternWildcard,
    PatternUnsupported,
    PatternReceiver,
    PlaceholderAmbiguous,
    ElidedAmbiguous,
    LifetimeBounds,
}

impl View for Diag {
    type V = DiagV;

    open spec fn view(&self) -> DiagV {
        match *self {
            Diag::RootNotInline => DiagV::RootNotInline,
            Diag::MarkerNotInline { container } => DiagV::MarkerNotInline { container: container@ },
            Diag::MarkerNotEmpty { container } => DiagV::MarkerNotEmpty { container: container@ },
            Diag::MarkerInnerAttr { container } => DiagV::MarkerInnerAttr { container: container@ },
            Diag::MarkerArgsInvalid { container } => DiagV::MarkerArgsInvalid {
                container: container@,
            },
            Diag::UnsupportedOptsArg => DiagV::UnsupportedOptsArg,
            Diag::OptsArgMalformed => DiagV::OptsArgMalformed,
            Diag::FnOptsNeedsArgs => DiagV::FnOptsNeedsArgs,
            Diag::FnOptsMalformed => DiagV::FnOptsMalformed,
            Diag::ConstFn { ident } => DiagV::ConstFn { ident: ident@ },
            Diag::ForeignAbi { ident } => DiagV::ForeignAbi { ident: ident@ },
            Diag::Variadic { ident } => DiagV::Variadic { ident: ident@ },
            Diag::GenericParamInSignature { ident } => DiagV::GenericParamInSignature {
                ident: ident@,
            },
            Diag::ArityMismatch { ident, found, expected } => DiagV::ArityMismatch {
                ident: ident@,
                found: found as nat,
                expected: expected as nat,
            },
            Diag::PatternUnsupportedFeatures => DiagV::PatternUnsupportedFeatures,
            Diag::PatternWildcard => DiagV::PatternWildcard,
            Diag::PatternUnsupported => DiagV::PatternUnsupported,
            Diag::PatternReceiver => DiagV::PatternReceiver,
            Diag::PlaceholderAmbiguous => DiagV::PlaceholderAmbiguous,
            Diag::ElidedAmbiguous => DiagV::ElidedAmbiguous,
            Diag::LifetimeBounds => DiagV::LifetimeBounds,
        }
    }
}

/// An accumulator of zero or more independent diagnostics, combined by
/// concatenation and inspected only after a complete pass.
#[derive(Debug)]
pub struct ErrorRecord {
    diags: Vec<Diag>,
}

impl View for ErrorRecord {
    type V = Seq<DiagV>;

    closed spec fn view(&self) -> Seq<DiagV> {
        Seq::new(self.diags@.len(), |i: int| self.diags@[i]@)
    }
}

impl ErrorRecord {
    /// An empty record.
    pub fn new() -> (r: ErrorRecord)
        ensures
            r@ == Seq::<DiagV>::empty(),
    {
        let r = ErrorRecord { diags: Vec::new() };
        proof {
            assert(r@ =~= Seq::<DiagV>::empty());
        }
        r
    }

    /// A record holding exactly one diagnostic.
    pub fn single(d: Diag) -> (r: ErrorRecord)
        ensures
            r@ == seq![d@],
    {
        let mut r = ErrorRecord::new();
        r.add_error(d);
        proof {
            assert(r@ =~= seq![d@]);
        }
        r
    }

    /// Records one more diagnostic, keeping all earlier ones.
    pub fn add_error(&mut self, d: Diag)
        ensures
            final(self)@ == old(self)@.push(d@),
    {
        self.diags.push(d);
        proof {
            assert(self@ =~= old(self)@.push(d@));
        }
    }

    /// Combines two records: every diagnostic of `other` is appended after
    /// the diagnostics already held, none is discarded.
    pub fn append(&mut self, other: ErrorRecord)
        ensures
            final(self)@ == old(self)@ + other@,
    {
        let ErrorRecord { diags: mut taken } = other;
        self.diags.append(&mut taken);
        proof {
            assert(self@ =~= old(self)@ + other@);
        }
    }

    /// The diagnostics recorded so far, in order.
    pub fn diags(&self) -> (r: &Vec<Diag>)
        ensures
            Seq::new(r@.len(), |i: int| r@[i]@) == self@,
    {
        proof {
            assert(Seq::new(self.diags@.len(), |i: int| self.diags@[i]@) =~= self@);
        }
        &self.diags
    }

    /// Whether any diagnostic has been recorded.
    pub fn is_empty(&self) -> (r: bool)
        ensures
            r == (self@.len() == 0),
    {
        self.diags.len() == 0
    }

    /// Succeeds exactly when no diagnostic was recorded; otherwise hands the
    /// whole record back.
    pub fn check(self) -> (r: Result<(), ErrorRecord>)
        ensures
            match r {
                Ok(()) => self@.len() == 0,
                Err(e) => e@ == self@ && self@.len() > 0,
            },
    {
        if self.diags.len() == 0 {
            Ok(())
        } else {
            Err(self)
        }
    }
}

impl Diag {
    /// An equal diagnostic, duplicating any identifier payload.
    pub fn clone_diag(&self) -> (r: Diag)
        ensures
            r@ == self@,
    {
        match self {
            Diag::RootNotInline => Diag::RootNotInline,
            Diag::MarkerNotInline { container } => Diag::MarkerNotInline {
                container: container.clone(),
            },
            Diag::MarkerNotEmpty { container } => Diag::MarkerNotEmpty {
                container: container.clone(),
            },
            Diag::MarkerInnerAttr { container } => Diag::MarkerInnerAttr {
                container: container.clone(),
            },
            Diag::MarkerArgsInvalid { container } => Diag::MarkerArgsInvalid {
                container: container.clone(),
            },
            Diag::UnsupportedOptsArg => Diag::UnsupportedOptsArg,
            Diag::OptsArgMalformed => Diag::OptsArgMalformed,
            Diag::FnOptsNeedsArgs => Diag::FnOptsNeedsArgs,
            Diag::FnOptsMalformed => Diag::FnOptsMalformed,
            Diag::ConstFn { ident } => Diag::ConstFn { ident: ident.clone() },
            Diag::ForeignAbi { ident } => Diag::ForeignAbi { ident: ident.clone() },
            Diag::Variadic { ident } => Diag::Variadic { ident: ident.clone() },
            Diag::GenericParamInSignature { ident } => Diag::GenericParamInSignature {
                ident: ident.clone(),
            },
            Diag::ArityMismatch { ident, found, expected } => Diag::ArityMismatch {
                ident: ident.clone(),
                found: *found,
                expected: *expected,
            },
            Diag::PatternUnsupportedFeatures => Diag::PatternUnsupportedFeatures,
            Diag::PatternWildcard => Diag::PatternWildcard,
            Diag::PatternUnsupported => Diag::PatternUnsupported,
            Diag::PatternReceiver => Diag::PatternReceiver,
            Diag::PlaceholderAmbiguous => Diag::PlaceholderAmbiguous,
            Diag::ElidedAmbiguous => Diag::ElidedAmbiguous,
            Diag::LifetimeBounds => Diag::LifetimeBounds,
        }
    }
}

} // verus!
