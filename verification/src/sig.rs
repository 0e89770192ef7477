//! Function signatures: value-kind tags, host-side type descriptors, and the
//! structural, ordered comparison that decides whether a bind may succeed.
use vstd::prelude::*;

verus! {

/// The tag of one value slot crossing the host/guest boundary, as the engine
/// reports it. Covers every kind the engine's metadata can name, so that a
/// mismatch diagnostic reproduces the export's real signature verbatim.
#[derive(Clone, Copy, PartialEq, Eq, Structural, Debug)]
pub enum ValueKind {
    /// A 32-bit integer slot.
    I32,
    /// A 64-bit integer slot.
    I64,
    /// A 32-bit floating-point slot.
    F32,
    /// A 64-bit floating-point slot.
    F64,
    /// A 128-bit vector slot.
    V128,
    /// An opaque external reference slot.
    ExternRef,
    /// A function reference slot.
    FuncRef,
    /// An exception reference slot.
    ExceptionRef,
}

/// A host-side type descriptor: one logical argument or result as the caller
/// declares it. Only the kinds that the host value representation carries are
/// offered here, so every signature derived from host types is callable.
#[derive(Clone, Copy, PartialEq, Eq, Structural, Debug)]
pub enum HostType {
    /// A host 32-bit integer.
    Int32,
    /// A host 64-bit integer.
    Int64,
}

/// The value-kind tag that one host type descriptor maps to. This mapping is
/// the single conversion table used both to derive an expected signature and
/// to drive argument marshalling, so the two can never disagree.
pub open spec fn kind_of_host(t: HostType) -> ValueKind {
    match t {
        HostType::Int32 => ValueKind::I32,
        HostType::Int64 => ValueKind::I64,
    }
}

/// The ordered value-kind sequence derived from a host type list.
pub open spec fn kinds_of_hosts(ts: Seq<HostType>) -> Seq<ValueKind> {
    Seq::new(ts.len(), |i: int| kind_of_host(ts[i]))
}

/// Maps one host type descriptor to its engine value-kind tag.
pub fn host_kind(t: HostType) -> (k: ValueKind)
    ensures
        k == kind_of_host(t),
{
    match t {
        HostType::Int32 => ValueKind::I32,
        HostType::Int64 => ValueKind::I64,
    }
}

/// A function signature: the ordered value-kind tags of the parameters and of
/// the results. Two signatures are equal iff both tag sequences are pairwise
/// equal, in order; the comparison is structural, never nominal.
#[derive(Debug)]
pub struct FuncSig {
    /// Parameter kinds, in declared order.
    pub params: Vec<ValueKind>,
    /// Result kinds, in declared order.
    pub results: Vec<ValueKind>,
}

/// The mathematical model of a signature: two sequences of kind tags.
#[verifier::ext_equal]
pub ghost struct FuncSigView {
    /// Parameter kinds, in declared order.
    pub params: Seq<ValueKind>,
    /// Result kinds, in declared order.
    pub results: Seq<ValueKind>,
}

impl View for FuncSig {
    type V = FuncSigView;

    open spec fn view(&self) -> FuncSigView {
        FuncSigView { params: self.params@, results: self.results@ }
    }
}

impl Clone for FuncSig {
    /// A clone is the same signature.
    fn clone(&self) -> (r: Self)
        ensures
            r@ == self@,
    {
        FuncSig { params: clone_kinds(&self.params), results: clone_kinds(&self.results) }
    }
}

/// Copies a kind sequence element by element.
fn clone_kinds(a: &Vec<ValueKind>) -> (r: Vec<ValueKind>)
    ensures
        r@ == a@,
{
    let mut r: Vec<ValueKind> = Vec::new();
    let mut i: usize = 0;
    while i < a.len()
        invariant
            i <= a.len(),
            r@ == a@.subrange(0, i as int),
        decreases a.len() - i,
    {
        r.push(a[i]);
        proof {
            assert(r@ == a@.subrange(0, i + 1 as int));
        }
        i = i + 1;
    }
    proof {
        assert(a@.subrange(0, a@.len() as int) == a@);
    }
    r
}

/// Compares two kind sequences pairwise, in order.
pub fn kinds_eq(a: &Vec<ValueKind>, b: &Vec<ValueKind>) -> (r: bool)
    ensures
        r <==> a@ == b@,
{
    if a.len() != b.len() {
        return false;
    }
    let mut i: usize = 0;
    while i < a.len()
        invariant
            i <= a.len(),
            a.len() == b.len(),
            forall|j: int| 0 <= j < i ==> a@[j] == b@[j],
        decreases a.len() - i,
    {
        if a[i] != b[i] {
            return false;
        }
        i = i + 1;
    }
    proof {
        assert(a@ =~= b@);
    }
    true
}

/// Decides structural signature equality: parameter kinds and result kinds
/// must each be pairwise equal, in order.
pub fn sig_eq(a: &FuncSig, b: &FuncSig) -> (r: bool)
    ensures
        r <==> a@ == b@,
{
    let r = kinds_eq(&a.params, &b.params) && kinds_eq(&a.results, &b.results);
    proof {
        if a.params@ == b.params@ && a.results@ == b.results@ {
            assert(a@ =~= b@);
        }
    }
    r
}

/// Law: signature equality is structural and ordered, never nominal. Two
/// signatures are equal exactly when their parameter tag sequences and their
/// result tag sequences are each pairwise equal, position by position.
pub proof fn lemma_signature_equality_is_structural(a: FuncSigView, b: FuncSigView)
    ensures
        (a == b) <==> {
            &&& a.params.len() == b.params.len()
            &&& a.results.len() == b.results.len()
            &&& forall|i: int| 0 <= i < a.params.len() ==> a.params[i] == b.params[i]
            &&& forall|i: int| 0 <= i < a.results.len() ==> a.results[i] == b.results[i]
        },
{
    if a.params.len() == b.params.len() && a.results.len() == b.results.len() && (forall|i: int|
        0 <= i < a.params.len() ==> a.params[i] == b.params[i]) && (forall|i: int|
        0 <= i < a.results.len() ==> a.results[i] == b.results[i]) {
        assert(a.params =~= b.params);
        assert(a.results =~= b.results);
        assert(a =~= b);
    }
}

/// The signature model derived from host type lists: one value-kind tag per
/// descriptor, in declared order, in each position.
pub open spec fn derived_sig_view(params: Seq<HostType>, results: Seq<HostType>) -> FuncSigView {
    FuncSigView { params: kinds_of_hosts(params), results: kinds_of_hosts(results) }
}

/// Derives the expected signature from host-side type descriptors: one
/// value-kind tag per logical argument and result, in declared order.
pub fn derive_sig(params: &[HostType], results: &[HostType]) -> (s: FuncSig)
    ensures
        s@ == derived_sig_view(params@, results@),
{
    let s = FuncSig { params: host_kinds(params), results: host_kinds(results) };
    proof {
        assert(s@ =~= derived_sig_view(params@, results@));
    }
    s
}

/// Maps a host type list to its value-kind sequence, in order.
fn host_kinds(ts: &[HostType]) -> (ks: Vec<ValueKind>)
    ensures
        ks@ == kinds_of_hosts(ts@),
{
    let mut ks: Vec<ValueKind> = Vec::new();
    let mut i: usize = 0;
    while i < ts.len()
        invariant
            i <= ts.len(),
            ks@.len() == i,
            forall|j: int| 0 <= j < i ==> ks@[j] == kind_of_host(ts@[j]),
        decreases ts.len() - i,
    {
        ks.push(host_kind(ts[i]));
        i = i + 1;
    }
    proof {
        assert(ks@ =~= kinds_of_hosts(ts@));
    }
    ks
}

} // verus!
