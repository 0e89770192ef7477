//! The closed error taxonomy. Every failure is returned to the immediate
//! caller as one of these typed values; none is swallowed or downgraded.
use vstd::prelude::*;

use crate::sig::FuncSig;

verus! {

/// Everything that can go wrong while loading a plugin, binding an export, or
/// invoking a bound callable.
#[derive(Debug)]
pub enum PluginError {
    /// The byte source was unreadable, the module failed to compile or
    /// validate, or instantiation failed. Carries the engine's diagnostic.
    Load(String),
    /// The requested export name does not exist, or names something that is
    /// not a function. Carries the engine's diagnostic.
    Export(String),
    /// The export exists but its real signature differs from the signature
    /// implied by the requested host types. Both signatures are carried
    /// verbatim for diagnostics; nothing was bound.
    TypeMismatch {
        /// The export's real signature, as the engine reports it.
        actual: FuncSig,
        /// The signature derived from the requested host types.
        expected: FuncSig,
    },
    /// The guest function trapped, aborted, or otherwise failed during an
    /// already-verified call. Carries the engine's trap diagnostic.
    Runtime(String),
}

} // verus!
