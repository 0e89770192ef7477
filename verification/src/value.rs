//! Host-side values: the typed arguments and results of a bound callable, and
//! the check that an argument list fits a parameter kind list.
use vstd::prelude::*;

use crate::sig::ValueKind;

verus! {

/// One typed host value crossing into or out of a call. Only the kinds that
/// host callers can supply are represented; the engine-native representation
/// is never exposed.
#[derive(Clone, Copy, PartialEq, Eq, Structural, Debug)]
pub enum HostValue {
    /// A 32-bit integer value.
    I32(i32),
    /// A 64-bit integer value.
    I64(i64),
}

/// The value-kind tag of one host value. This is the same mapping that the
/// host type descriptors use, so an argument fits a parameter slot exactly
/// when their tags agree.
pub open spec fn kind_of_value(v: HostValue) -> ValueKind {
    match v {
        HostValue::I32(_) => ValueKind::I32,
        HostValue::I64(_) => ValueKind::I64,
    }
}

/// Reads the value-kind tag of one host value.
pub fn value_kind(v: &HostValue) -> (k: ValueKind)
    ensures
        k == kind_of_value(*v),
{
    match v {
        HostValue::I32(_) => ValueKind::I32,
        HostValue::I64(_) => ValueKind::I64,
    }
}

/// An argument list fits a parameter kind list when the lengths agree and
/// each argument's kind equals the parameter kind at its position.
pub open spec fn args_match(args: Seq<HostValue>, params: Seq<ValueKind>) -> bool {
    &&& args.len() == params.len()
    &&& forall|i: int| 0 <= i < args.len() ==> kind_of_value(args[i]) == params[i]
}

/// Law: argument marshalling and signature derivation use one kind table. An
/// argument list fits the parameter kinds derived from a host type list
/// exactly when each argument's own kind is the kind of the host type
/// declared at its position — so an argument accepted for a verified callable
/// is exact for the slot it fills, with no lossy fallback.
pub proof fn lemma_marshalling_agrees_with_derivation(
    args: Seq<HostValue>,
    ts: Seq<crate::sig::HostType>,
)
    ensures
        args_match(args, crate::sig::kinds_of_hosts(ts)) <==> {
            &&& args.len() == ts.len()
            &&& forall|i: int|
                0 <= i < args.len() ==> kind_of_value(args[i]) == crate::sig::kind_of_host(ts[i])
        },
{
    let ks = crate::sig::kinds_of_hosts(ts);
    assert(ks.len() == ts.len());
    if args_match(args, ks) {
        assert forall|i: int| 0 <= i < args.len() implies kind_of_value(args[i])
            == crate::sig::kind_of_host(ts[i]) by {
            assert(kind_of_value(args[i]) == ks[i]);
        }
    }
    if args.len() == ts.len() && (forall|i: int|
        0 <= i < args.len() ==> kind_of_value(args[i]) == crate::sig::kind_of_host(ts[i])) {
        assert forall|i: int| 0 <= i < args.len() implies kind_of_value(args[i]) == ks[i] by {
            assert(kind_of_value(args[i]) == crate::sig::kind_of_host(ts[i]));
        }
        assert(args_match(args, ks));
    }
}

/// Decides whether an argument list fits a parameter kind list: the runtime
/// counterpart of `args_match`, with which a caller outside the verifier
/// checks its arguments against a callable's verified parameter kinds before
/// invoking it.
pub fn check_args(args: &Vec<HostValue>, params: &Vec<ValueKind>) -> (r: bool)
    ensures
        r == args_match(args@, params@),
{
    if args.len() != params.len() {
        return false;
    }
    let mut i: usize = 0;
    while i < args.len()
        invariant
            i <= args.len(),
            args.len() == params.len(),
            forall|j: int| 0 <= j < i ==> kind_of_value(args@[j]) == params@[j],
        decreases args.len() - i,
    {
        if value_kind(&args[i]) != params[i] {
            return false;
        }
        i = i + 1;
    }
    true
}

} // verus!
