//! Loading a plugin and binding its exports as typed callables. Binding and
//! signature verification are one step: a callable exists only after the
//! export's real signature was found equal to the one derived from the host
//! types, and that check is never repeated afterwards.
use vstd::prelude::*;

use crate::engine::{
    call_export, compile_and_instantiate, export_sig_of, exports_of, instantiable, lives_in,
    lookup_export, new_store_cell, valid_module, ExportHandle, StoreCell,
};
use crate::error::PluginError;
use crate::sig::{derive_sig, derived_sig_view, sig_eq, FuncSig, FuncSigView, HostType};
use crate::value::{args_match, check_args, HostValue};

verus! {

/// A loaded plugin: one instantiated module together with the single mutable
/// execution context that every call into the module must go through. The two
/// are created together by a successful load and released together.
pub struct Plugin {
    store: StoreCell,
    instance: wasmer::Instance,
}

impl Plugin {
    /// Every plugin's instance lives in the plugin's own execution context,
    /// so a handle looked up here is never used against a foreign context.
    #[verifier::type_invariant]
    spec fn instance_lives_in_store(self) -> bool {
        lives_in(self.instance, self.store)
    }

    /// The signature under which this plugin's export table lists a function
    /// export of the given name; `None` when the name is absent or names
    /// something that is not a function.
    pub closed spec fn export_sig(&self, name: Seq<char>) -> Option<FuncSigView> {
        export_sig_of(self.instance, name)
    }

    /// Loads a plugin from raw module bytes: compiles them, then instantiates
    /// the module against an empty import set in a freshly created execution
    /// context. The load succeeds exactly when the engine accepts the bytes
    /// as a module and the module instantiates without imports, and the
    /// plugin's export table is the compiled module's own; any failure is a
    /// load error carrying the engine's diagnostic, and no plugin is produced
    /// on failure.
    pub fn from_bytes(bytes: &[u8]) -> (r: Result<Plugin, PluginError>)
        ensures
            r is Ok <==> valid_module(bytes@) && instantiable(bytes@),
            !valid_module(bytes@) ==> r is Err,
            r is Err ==> r->Err_0 is Load,
            r is Ok ==> forall|n: Seq<char>| #[trigger] r->Ok_0.export_sig(n) == exports_of(
                bytes@,
                n,
            ),
    {
        let store = new_store_cell();
        let instance = match compile_and_instantiate(&store, bytes) {
            Ok(i) => i,
            Err(msg) => {
                return Err(PluginError::Load(msg));
            },
        };
        Ok(Plugin { store, instance })
    }

    /// Binds the export named `name` with the given host argument and result
    /// types. The export is looked up — failing with an export error exactly
    /// when the name denotes no function export — the expected signature is
    /// derived from the host types, the export's real signature is read from
    /// the engine, and the two are compared structurally, in order. The bind
    /// succeeds exactly when the export exists with the derived signature,
    /// and the callable carries that verified signature; a difference yields
    /// a type-mismatch error carrying both signatures verbatim, and nothing
    /// is bound.
    pub fn function(&self, name: &str, params: &[HostType], results: &[HostType]) -> (r: Result<
        Function,
        PluginError,
    >)
        ensures
            r is Ok <==> self.export_sig(name@) == Some(derived_sig_view(params@, results@)),
            r is Ok ==> r->Ok_0.sig_view() == derived_sig_view(params@, results@)
                && r->Ok_0.export_sig_view() == derived_sig_view(params@, results@),
            (r is Err && r->Err_0 is Export) <==> self.export_sig(name@) is None,
            r is Err ==> (r->Err_0 is Export || r->Err_0 is TypeMismatch),
            r is Err ==> (r->Err_0 matches PluginError::TypeMismatch { actual, expected }
                ==> actual@ == self.export_sig(name@)->Some_0 && expected@ == derived_sig_view(
                params@,
                results@,
            ) && actual@ != expected@),
    {
        proof {
            use_type_invariant(self);
        }
        let handle = match lookup_export(&self.instance, &self.store, name) {
            Ok(h) => h,
            Err(msg) => {
                return Err(PluginError::Export(msg));
            },
        };
        let actual = handle.signature();
        let expected = derive_sig(params, results);
        match check_signature(actual, expected) {
            Ok(sig) => Ok(Function::new(handle, sig)),
            Err(e) => Err(e),
        }
    }
}

/// The verification step that binding cannot skip: compares the export's real
/// signature to the expected one, structurally and in order. Equality hands
/// the verified signature on for the callable to carry; a difference yields
/// the type-mismatch error with both signatures verbatim, and binding
/// constructs a callable only from this function's success.
pub fn check_signature(actual: FuncSig, expected: FuncSig) -> (r: Result<FuncSig, PluginError>)
    ensures
        r is Ok <==> actual@ == expected@,
        r is Ok ==> r->Ok_0@ == expected@,
        r is Err ==> (r->Err_0 matches PluginError::TypeMismatch { actual: a, expected: e }
            && a@ == actual@ && e@ == expected@),
{
    if sig_eq(&actual, &expected) {
        Ok(expected)
    } else {
        Err(PluginError::TypeMismatch { actual, expected })
    }
}

/// A bound, reusable invocation capability: one verified export handle and a
/// share of its owning plugin's execution context. Every value of this type
/// carries the signature under which the export table lists its handle — the
/// constructor demands it, and export handles come only out of a successful
/// lookup — so a callable's mere existence witnesses that bind-time
/// verification succeeded, and the equality is never re-checked.
pub struct Function {
    handle: ExportHandle,
    /// The verified signature: equal to the signature derived from the host
    /// types the callable was bound with, and to the export's real signature
    /// as read at bind time.
    pub(crate) sig: FuncSig,
}

impl Function {
    /// Every callable carries the signature its export table lists.
    #[verifier::type_invariant]
    spec fn carries_verified_signature(self) -> bool {
        self.sig@ == self.handle.sig_view()
    }

    /// The mathematical model of the callable's verified signature.
    pub closed spec fn sig_view(&self) -> FuncSigView {
        self.sig@
    }

    /// The export's real signature: the one its export table lists.
    pub closed spec fn export_sig_view(&self) -> FuncSigView {
        self.handle.sig_view()
    }

    /// Packs an export handle with its checked signature. The signature
    /// handed in must be the one the export table lists for the handle, so no
    /// callable with an unverified signature can be constructed.
    pub fn new(handle: ExportHandle, sig: FuncSig) -> (r: Function)
        requires
            sig@ == handle.sig_view(),
        ensures
            r.sig_view() == sig@,
            r.export_sig_view() == handle.sig_view(),
    {
        Function { handle, sig }
    }

    /// Invokes the bound export. The arguments must fit the verified
    /// parameter kinds, one per slot, in order; they are marshalled to the
    /// engine's representation, the export runs inside its own execution
    /// context held exclusively for the whole call, and the results are
    /// marshalled back in order. Successful results fit the verified result
    /// kinds, one per slot, in order; a guest failure is returned as a
    /// runtime error carrying the engine's trap diagnostic.
    pub fn call(&self, args: &Vec<HostValue>) -> (r: Result<Vec<HostValue>, PluginError>)
        requires
            args_match(args@, self.sig_view().params),
        ensures
            r is Ok ==> args_match(r->Ok_0@, self.sig_view().results),
            r is Err ==> r->Err_0 is Runtime,
    {
        let vals = match call_export(&self.handle, args) {
            Ok(v) => v,
            Err(msg) => {
                return Err(PluginError::Runtime(msg));
            },
        };
        if check_args(&vals, &self.sig.results) {
            Ok(vals)
        } else {
            Err(PluginError::Runtime("guest results did not fit the verified signature".to_string()))
        }
    }
}

} // verus!
