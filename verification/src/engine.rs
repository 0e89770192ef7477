//! The trusted boundary to the WebAssembly execution engine. Everything the
//! engine does — compiling, instantiating, export lookup, signature metadata,
//! and the raw call — happens behind the wrappers here; their contracts are
//! what the rest of the library is verified against.
use vstd::prelude::*;

use core::cell::RefCell;
use std::rc::Rc;

use wasmer::Function as WasmerFn;

use crate::sig::{FuncSig, FuncSigView, ValueKind};
use crate::value::HostValue;

verus! {

#[verifier::external_type_specification]
#[verifier::external_body]
pub struct ExStore(wasmer::Store);

#[verifier::external_type_specification]
#[verifier::external_body]
pub struct ExModule(wasmer::Module);

#[verifier::external_type_specification]
#[verifier::external_body]
pub struct ExInstance(wasmer::Instance);

#[verifier::external_type_specification]
#[verifier::external_body]
pub struct ExWasmerFunction(WasmerFn);

#[verifier::external_type_specification]
#[verifier::external_body]
pub struct ExValue(wasmer::Value);

#[verifier::external_type_specification]
#[verifier::external_body]
#[verifier::reject_recursive_types(T)]
pub struct ExRefCell<T: ?Sized>(RefCell<T>);

/// One shared execution context. Every call into one plugin goes through one
/// such context, acquired exclusively for the duration of the call; the cell
/// is shared between a plugin and the callables bound from it, and with
/// nothing else.
pub struct StoreCell {
    cell: Rc<RefCell<wasmer::Store>>,
}

/// An export handle paired with the execution context it lives in and with
/// the signature under which the export table lists it. The triple is built
/// only by `lookup_export`, from one plugin's own context, so the handle is
/// never used against a foreign context.
pub struct ExportHandle {
    store: StoreCell,
    func: WasmerFn,
    sig: FuncSig,
}

impl ExportHandle {
    /// The signature under which the instance's export table lists this
    /// handle, established at lookup.
    pub closed spec fn sig_view(&self) -> FuncSigView {
        self.sig@
    }

    /// The signature under which the export table lists the handle.
    pub(crate) fn signature(&self) -> (r: FuncSig)
        ensures
            r@ == self.sig_view(),
    {
        self.sig.clone()
    }
}

/// Whether a byte sequence compiles and validates as a WebAssembly module
/// (binary or text format) under the engine configured here. The engine
/// decides this from the bytes alone.
pub uninterp spec fn valid_module(bytes: Seq<u8>) -> bool;

/// Whether the module compiled from a byte sequence instantiates against the
/// empty import set. With the import set fixed and empty, nothing already in
/// a context affects the outcome, so the engine decides this from the bytes
/// alone. Meaningful only where `valid_module` holds.
pub uninterp spec fn instantiable(bytes: Seq<u8>) -> bool;

/// The signature under which an instance's export table lists a function
/// export of the given name; `None` when the name is absent or names
/// something that is not a function. An instance's export table is fixed at
/// instantiation, so this is decided by the instance and the name alone.
pub uninterp spec fn export_sig_of(instance: wasmer::Instance, name: Seq<char>) -> Option<
    FuncSigView,
>;

/// The export table of the module compiled from a byte sequence, per name:
/// the signature of its function export of that name, `None` when it has
/// none. The table is part of the compiled module, so the engine decides this
/// from the bytes alone. Meaningful only where the bytes load.
pub uninterp spec fn exports_of(bytes: Seq<u8>, name: Seq<char>) -> Option<FuncSigView>;

/// Whether an instance lives in an execution context: its handles resolve
/// only there, and the engine faults on any other context. Established by
/// instantiation and fixed for the instance's lifetime.
pub uninterp spec fn lives_in(instance: wasmer::Instance, store: StoreCell) -> bool;

/// Relies on wasmer::Store::default: a freshly created execution context,
/// sharing no state with any other context.
#[verifier::external_body]
pub(crate) fn new_store_cell() -> StoreCell {
    StoreCell { cell: Rc::new(RefCell::new(wasmer::Store::default())) }
}

/// Relies on wasmer::Module::new and wasmer::Instance::new: compiles and
/// validates the byte sequence with the context's engine, then instantiates
/// the module in that context against an empty import set. Compilation
/// succeeds exactly on the byte sequences the engine accepts as modules, and
/// instantiation exactly on modules whose import needs (none are satisfied)
/// and start behaviour allow it; the error carries the engine's diagnostic
/// for whichever step failed. The instance comes out living in the given
/// context, and its export table is the compiled module's.
#[verifier::external_body]
pub(crate) fn compile_and_instantiate(store: &StoreCell, bytes: &[u8]) -> (r: Result<
    wasmer::Instance,
    String,
>)
    ensures
        r is Ok <==> (valid_module(bytes@) && instantiable(bytes@)),
        r is Ok ==> lives_in(r->Ok_0, *store),
        r is Ok ==> (forall|n: Seq<char>| #[trigger] export_sig_of(r->Ok_0, n) == exports_of(
            bytes@,
            n,
        )),
{
    let module = match wasmer::Module::new(&*store.cell.borrow(), bytes) {
        Ok(m) => m,
        Err(e) => return Err(format!("{e}")),
    };
    let imports = wasmer::Imports::new();
    match wasmer::Instance::new(&mut *store.cell.borrow_mut(), &module, &imports) {
        Ok(i) => Ok(i),
        Err(e) => Err(format!("{e}")),
    }
}

/// Relies on wasmer::Exports::get_function and wasmer::Function::ty: finds
/// the function export of that name, succeeding exactly when the instance's
/// export table lists one, and failing with the engine's diagnostic when the
/// name is absent or names a non-function. The instance must live in the
/// given context; the handle comes out carrying the signature the export
/// table lists for it, paired with that same context.
#[verifier::external_body]
pub(crate) fn lookup_export(instance: &wasmer::Instance, store: &StoreCell, name: &str) -> (r:
    Result<ExportHandle, String>)
    requires
        lives_in(*instance, *store),
    ensures
        r is Ok <==> export_sig_of(*instance, name@) is Some,
        r is Ok ==> r->Ok_0.sig_view() == export_sig_of(*instance, name@)->Some_0,
{
    match instance.exports.get_function(name) {
        Ok(f) => {
            let mut h = ExportHandle {
                store: StoreCell { cell: Rc::clone(&store.cell) },
                func: f.clone(),
                sig: FuncSig { params: Vec::new(), results: Vec::new() },
            };
            h.sig = read_signature(&h);
            Ok(h)
        },
        Err(e) => Err(format!("{e}")),
    }
}

/// Relies on wasmer::Function::ty: reads the export's real signature from the
/// engine's metadata, one tag per parameter and per result, in order. Takes
/// an `ExportHandle`, whose handle and context are paired by construction, so
/// no admitted input can make the metadata read fault. Feeds `lookup_export`,
/// whose contract states what the signature is.
#[verifier::external_body]
fn read_signature(h: &ExportHandle) -> FuncSig {
    let ty = h.func.ty(&*h.store.cell.borrow());
    let tag = |t: &wasmer::Type| match t {
        wasmer::Type::I32 => ValueKind::I32,
        wasmer::Type::I64 => ValueKind::I64,
        wasmer::Type::F32 => ValueKind::F32,
        wasmer::Type::F64 => ValueKind::F64,
        wasmer::Type::V128 => ValueKind::V128,
        wasmer::Type::ExternRef => ValueKind::ExternRef,
        wasmer::Type::FuncRef => ValueKind::FuncRef,
        wasmer::Type::ExceptionRef => ValueKind::ExceptionRef,
    };
    FuncSig {
        params: ty.params().iter().map(tag).collect(),
        results: ty.results().iter().map(tag).collect(),
    }
}

/// Relies on wasmer::Function::call: acquires the callable's own context
/// exclusively, runs the export with one engine value per host value, in
/// order, and hands the results back in order. A guest trap, an argument the
/// engine rejects, or a context already in use surfaces as an error, never as
/// a crash. What comes back depends on the guest's code and state, so nothing
/// is assumed of the results beyond their host representation.
#[verifier::external_body]
pub(crate) fn call_export(h: &ExportHandle, args: &Vec<HostValue>) -> Result<
    Vec<HostValue>,
    String,
> {
    let ps = to_engine_values(args);
    let mut g = match h.store.cell.try_borrow_mut() {
        Ok(g) => g,
        Err(_) => return Err("execution context already in use".to_string()),
    };
    match h.func.call(&mut *g, &ps) {
        Ok(vs) => from_engine_values(&vs),
        Err(e) => Err(format!("{e}")),
    }
}

/// Converts host values to the engine's representation, one for one, in the
/// given order, by the same kind table that signature derivation uses.
#[verifier::external_body]
fn to_engine_values(args: &Vec<HostValue>) -> Vec<wasmer::Value> {
    args.iter().map(|v| match v {
        HostValue::I32(x) => wasmer::Value::I32(*x),
        HostValue::I64(x) => wasmer::Value::I64(*x),
    }).collect()
}

/// Converts engine results back to host values, one for one, in the given
/// order; a kind outside the host value set is reported, never reinterpreted.
#[verifier::external_body]
fn from_engine_values(vals: &[wasmer::Value]) -> Result<Vec<HostValue>, String> {
    vals.iter().map(|v| match v {
        wasmer::Value::I32(x) => Ok(HostValue::I32(*x)),
        wasmer::Value::I64(x) => Ok(HostValue::I64(*x)),
        other => Err(format!("unsupported result kind {}", other.ty())),
    }).collect()
}

} // verus!
