//! The signature catalog.
//!
//! Carrier declarations are deduplicated across all test functions of a
//! unit: the first registration of a shape synthesizes a fresh carrier,
//! identified by its unit-unique position, and every later registration of a
//! structurally equal shape returns the existing handle, so that at most one
//! carrier declaration exists per distinct shape.

use vstd::prelude::*;

use crate::tree::eq_lifetimes;
use crate::tree::eq_ty;
use crate::tree::ArgsCarrier;
use crate::tree::ArgsCarrierV;
use crate::tree::CarrierField;
use crate::tree::CarrierFieldV;
use crate::tree::RetCarrier;
use crate::tree::RetCarrierV;

verus! {

/// The first position holding the given shape, if any.
pub open spec fn spec_find_args(cs: Seq<ArgsCarrierV>, d: ArgsCarrierV) -> Option<nat>
    decreases cs,
{
    if cs.len() == 0 {
        None
    } else if cs[0] == d {
        Some(0)
    } else {
        match spec_find_args(cs.drop_first(), d) {
            Some(k) => Some(k + 1),
            None => None,
        }
    }
}

/// What one registration does: an existing equal shape is reused, a new
/// shape is appended under the next position.
pub open spec fn spec_intern_args(cs: Seq<ArgsCarrierV>, d: ArgsCarrierV) -> (Seq<ArgsCarrierV>, nat) {
    match spec_find_args(cs, d) {
        Some(k) => (cs, k),
        None => (cs.push(d), cs.len()),
    }
}

/// The first position holding the given return shape, if any.
pub open spec fn spec_find_ret(cs: Seq<RetCarrierV>, d: RetCarrierV) -> Option<nat>
    decreases cs,
{
    if cs.len() == 0 {
        None
    } else if cs[0] == d {
        Some(0)
    } else {
        match spec_find_ret(cs.drop_first(), d) {
            Some(k) => Some(k + 1),
            None => None,
        }
    }
}

/// What one return-shape registration does.
pub open spec fn spec_intern_ret(cs: Seq<RetCarrierV>, d: RetCarrierV) -> (Seq<RetCarrierV>, nat) {
    match spec_find_ret(cs, d) {
        Some(k) => (cs, k),
        None => (cs.push(d), cs.len()),
    }
}

/// No two carriers of the list share a shape.
pub open spec fn spec_args_unique(cs: Seq<ArgsCarrierV>) -> bool {
    forall|i: int, j: int| 0 <= i < j < cs.len() ==> cs[i] != cs[j]
}

/// What a found position means: the shape stands there and nowhere earlier;
/// a miss means the shape stands nowhere.
pub proof fn lemma_find_args(cs: Seq<ArgsCarrierV>, d: ArgsCarrierV)
    ensures
        match spec_find_args(cs, d) {
            Some(k) => k < cs.len() && cs[k as int] == d && forall|j: int|
                0 <= j < k ==> cs[j] != d,
            None => forall|j: int| 0 <= j < cs.len() ==> cs[j] != d,
        },
    decreases cs,
{
    if cs.len() > 0 && cs[0] != d {
        lemma_find_args(cs.drop_first(), d);
        assert(forall|j: int| 1 <= j < cs.len() ==> cs[j] == cs.drop_first()[j - 1]);
    }
}

/// The converse: a first occurrence is what the search returns.
pub proof fn lemma_find_args_at(cs: Seq<ArgsCarrierV>, d: ArgsCarrierV, k: int)
    requires
        0 <= k < cs.len(),
        cs[k] == d,
        forall|j: int| 0 <= j < k ==> cs[j] != d,
    ensures
        spec_find_args(cs, d) == Some(k as nat),
    decreases cs,
{
    if k > 0 {
        assert(forall|j: int| 0 <= j < cs.len() - 1 ==> cs.drop_first()[j] == cs[j + 1]);
        lemma_find_args_at(cs.drop_first(), d, k - 1);
    }
}

/// The same two lemmas for return shapes.
pub proof fn lemma_find_ret(cs: Seq<RetCarrierV>, d: RetCarrierV)
    ensures
        match spec_find_ret(cs, d) {
            Some(k) => k < cs.len() && cs[k as int] == d && forall|j: int|
                0 <= j < k ==> cs[j] != d,
            None => forall|j: int| 0 <= j < cs.len() ==> cs[j] != d,
        },
    decreases cs,
{
    if cs.len() > 0 && cs[0] != d {
        lemma_find_ret(cs.drop_first(), d);
        assert(forall|j: int| 1 <= j < cs.len() ==> cs[j] == cs.drop_first()[j - 1]);
    }
}

pub proof fn lemma_find_ret_at(cs: Seq<RetCarrierV>, d: RetCarrierV, k: int)
    requires
        0 <= k < cs.len(),
        cs[k] == d,
        forall|j: int| 0 <= j < k ==> cs[j] != d,
    ensures
        spec_find_ret(cs, d) == Some(k as nat),
    decreases cs,
{
    if k > 0 {
        assert(forall|j: int| 0 <= j < cs.len() - 1 ==> cs.drop_first()[j] == cs[j + 1]);
        lemma_find_ret_at(cs.drop_first(), d, k - 1);
    }
}

/// Two registrations of one shape return one handle, and the catalog holds
/// exactly one carrier of that shape: interning is idempotent and never
/// emits a second declaration for a shape it has seen.
pub proof fn lemma_carrier_shared(cs: Seq<ArgsCarrierV>, d: ArgsCarrierV)
    requires
        spec_args_unique(cs),
    ensures
        ({
            let (cs1, h1) = spec_intern_args(cs, d);
            let (cs2, h2) = spec_intern_args(cs1, d);
            &&& spec_args_unique(cs1)
            &&& cs2 == cs1
            &&& h2 == h1
            &&& h1 < cs1.len()
            &&& cs1[h1 as int] == d
            &&& forall|j: int| 0 <= j < cs1.len() && j != h1 ==> cs1[j] != d
        }),
{
    lemma_find_args(cs, d);
    let (cs1, h1) = spec_intern_args(cs, d);
    match spec_find_args(cs, d) {
        Some(k) => {
            assert forall|j: int| 0 <= j < cs1.len() && j != h1 implies cs1[j] != d by {
                if j > h1 && cs1[j] == d {
                    assert(cs1[h1 as int] == cs1[j]);
                }
            }
        },
        None => {
            assert(spec_args_unique(cs1)) by {
                assert forall|i: int, j: int| 0 <= i < j < cs1.len() implies cs1[i] != cs1[j] by {
                    if j == cs.len() {
                        assert(cs1[i] == cs[i]);
                    }
                }
            }
            lemma_find_args_at(cs1, d, cs.len() as int);
        },
    }
    lemma_find_args(cs1, d);
}

/// The catalog of one processing unit: every argument-record shape and every
/// return-alias shape seen so far, each at the position that names it.
pub struct SignatureCatalog {
    args_carriers: Vec<ArgsCarrier>,
    ret_carriers: Vec<RetCarrier>,
}

/// Ghost form of the catalog.
#[verifier::ext_equal]
pub ghost struct SignatureCatalogV {
    pub args_carriers: Seq<ArgsCarrierV>,
    pub ret_carriers: Seq<RetCarrierV>,
}

impl View for SignatureCatalog {
    type V = SignatureCatalogV;

    closed spec fn view(&self) -> SignatureCatalogV {
        SignatureCatalogV {
            args_carriers: Seq::new(self.args_carriers@.len(), |i: int| self.args_carriers@[i]@),
            ret_carriers: Seq::new(self.ret_carriers@.len(), |i: int| self.ret_carriers@[i]@),
        }
    }
}

/// Whether two carrier fields have the same name and type.
fn eq_carrier_field(a: &CarrierField, b: &CarrierField) -> (r: bool)
    ensures
        r == (a@ == b@),
{
    a.ident == b.ident && eq_ty(&a.ty, &b.ty)
}

/// Whether two argument-record shapes are structurally equal.
#[verifier::loop_isolation(false)]
fn eq_args_carrier(a: &ArgsCarrier, b: &ArgsCarrier) -> (r: bool)
    ensures
        r == (a@ == b@),
{
    if !eq_lifetimes(&a.lifetimes, &b.lifetimes) {
        return false;
    }
    if a.fields.len() != b.fields.len() {
        proof {
            assert(a@.fields.len() != b@.fields.len());
        }
        return false;
    }
    let n = a.fields.len();
    let mut i: usize = 0;
    while i < n
        invariant
            i <= n,
            a@.lifetimes == b@.lifetimes,
            forall|k: int| 0 <= k < i ==> a.fields@[k]@ == b.fields@[k]@,
        decreases n - i,
    {
        if !eq_carrier_field(&a.fields[i], &b.fields[i]) {
            proof {
                assert(a@.fields[i as int] != b@.fields[i as int]);
            }
            return false;
        }
        i = i + 1;
    }
    proof {
        assert(a@.fields =~= b@.fields);
        assert(a@ =~= b@);
    }
    true
}

/// Whether two return-alias shapes are structurally equal.
fn eq_ret_carrier(a: &RetCarrier, b: &RetCarrier) -> (r: bool)
    ensures
        r == (a@ == b@),
{
    let r = eq_lifetimes(&a.lifetimes, &b.lifetimes) && eq_ty(&a.ty, &b.ty);
    proof {
        if a@.lifetimes == b@.lifetimes && a@.ty == b@.ty {
            assert(a@ =~= b@);
        }
    }
    r
}

impl SignatureCatalog {
    /// An empty catalog.
    pub fn new() -> (r: SignatureCatalog)
        ensures
            r@.args_carriers == Seq::<ArgsCarrierV>::empty(),
            r@.ret_carriers == Seq::<RetCarrierV>::empty(),
    {
        let r = SignatureCatalog { args_carriers: Vec::new(), ret_carriers: Vec::new() };
        proof {
            assert(r@.args_carriers =~= Seq::<ArgsCarrierV>::empty());
            assert(r@.ret_carriers =~= Seq::<RetCarrierV>::empty());
        }
        r
    }

    /// Registers one parameter-list shape: the handle of the equal carrier
    /// already held, or of the fresh one appended.
    #[verifier::loop_isolation(false)]
    pub fn intern_params(&mut self, desc: ArgsCarrier) -> (h: usize)
        ensures
            final(self)@.args_carriers == spec_intern_args(old(self)@.args_carriers, desc@).0,
            h as nat == spec_intern_args(old(self)@.args_carriers, desc@).1,
            final(self)@.ret_carriers == old(self)@.ret_carriers,
    {
        let n = self.args_carriers.len();
        let mut i: usize = 0;
        while i < n
            invariant
                i <= n,
                forall|k: int| 0 <= k < i ==> self@.args_carriers[k] != desc@,
            decreases n - i,
        {
            if eq_args_carrier(&self.args_carriers[i], &desc) {
                proof {
                    lemma_find_args_at(self@.args_carriers, desc@, i as int);
                }
                return i;
            }
            i = i + 1;
        }
        proof {
            lemma_find_args(self@.args_carriers, desc@);
            match spec_find_args(self@.args_carriers, desc@) {
                Some(k) => {
                    assert(self@.args_carriers[k as int] != desc@);
                    assert(false);
                },
                None => {},
            }
        }
        self.args_carriers.push(desc);
        proof {
            assert(self@.args_carriers =~= old(self)@.args_carriers.push(desc@));
            assert(self@.ret_carriers =~= old(self)@.ret_carriers);
        }
        n
    }

    /// Registers one return-type shape.
    #[verifier::loop_isolation(false)]
    pub fn intern_ret(&mut self, desc: RetCarrier) -> (h: usize)
        ensures
            final(self)@.ret_carriers == spec_intern_ret(old(self)@.ret_carriers, desc@).0,
            h as nat == spec_intern_ret(old(self)@.ret_carriers, desc@).1,
            final(self)@.args_carriers == old(self)@.args_carriers,
    {
        let n = self.ret_carriers.len();
        let mut i: usize = 0;
        while i < n
            invariant
                i <= n,
                forall|k: int| 0 <= k < i ==> self@.ret_carriers[k] != desc@,
            decreases n - i,
        {
            if eq_ret_carrier(&self.ret_carriers[i], &desc) {
                proof {
                    lemma_find_ret_at(self@.ret_carriers, desc@, i as int);
                }
                return i;
            }
            i = i + 1;
        }
        proof {
            lemma_find_ret(self@.ret_carriers, desc@);
            match spec_find_ret(self@.ret_carriers, desc@) {
                Some(k) => {
                    assert(self@.ret_carriers[k as int] != desc@);
                    assert(false);
                },
                None => {},
            }
        }
        self.ret_carriers.push(desc);
        proof {
            assert(self@.ret_carriers =~= old(self)@.ret_carriers.push(desc@));
            assert(self@.args_carriers =~= old(self)@.args_carriers);
        }
        n
    }

    /// The carriers for one emission, in handle order.
    #[verifier::loop_isolation(false)]
    pub fn carriers_cloned(&self) -> (r: (Vec<ArgsCarrier>, Vec<RetCarrier>))
        ensures
            Seq::new(r.0@.len(), |i: int| r.0@[i]@) == self@.args_carriers,
            Seq::new(r.1@.len(), |i: int| r.1@[i]@) == self@.ret_carriers,
    {
        let mut args: Vec<ArgsCarrier> = Vec::new();
        let n = self.args_carriers.len();
        let mut i: usize = 0;
        while i < n
            invariant
                i <= n,
                args@.len() == i,
                forall|k: int| 0 <= k < i ==> args@[k]@ == self.args_carriers@[k]@,
            decreases n - i,
        {
            args.push(self.args_carriers[i].clone_carrier());
            i = i + 1;
        }
        let mut rets: Vec<RetCarrier> = Vec::new();
        let m = self.ret_carriers.len();
        let mut j: usize = 0;
        while j < m
            invariant
                j <= m,
                rets@.len() == j,
                forall|k: int| 0 <= k < j ==> rets@[k]@ == self.ret_carriers@[k]@,
            decreases m - j,
        {
            rets.push(self.ret_carriers[j].clone_carrier());
            j = j + 1;
        }
        proof {
            assert(Seq::new(args@.len(), |i: int| args@[i]@) =~= self@.args_carriers);
            assert(Seq::new(rets@.len(), |i: int| rets@[i]@) =~= self@.ret_carriers);
        }
        (args, rets)
    }

}

} // verus!
