//! A typed plugin layer over a WebAssembly execution engine.
//!
//! A compiled module is loaded and instantiated with an empty import set,
//! and its exported functions are exposed as typed callables: binding an
//! export checks the export's actual signature against the signature derived
//! from the host-side type descriptors, and only a successful check yields a
//! callable. Invoking the callable marshals host values to the engine's value
//! representation and back.
pub mod engine;
pub mod error;
pub mod plugin;
pub mod sig;
pub mod value;

pub use error::PluginError;
pub use plugin::check_signature;
pub use plugin::Function;
pub use plugin::Plugin;
pub use sig::FuncSig;
pub use sig::HostType;
pub use sig::ValueKind;
pub use value::HostValue;
