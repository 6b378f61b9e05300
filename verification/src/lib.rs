//! A safe embedding layer for the Wren scripting virtual machine.
//!
//! The Wren runtime itself (interpreter, compiler, garbage collector) is an
//! opaque collaborator reached through a fixed C interface.  Everything the
//! host can observe of a VM through that interface — the slot register file,
//! persistent handles, the foreign binding registries, the module loader and
//! error reporting policies, and the ownership rules for VM wrappers — is
//! modelled and verified here as plain data.  The thin layer that carries
//! these decisions across the C boundary lives outside the library.

pub mod config;
pub mod laws;
pub mod loader;
pub mod registry;
pub mod report;
pub mod types;
pub mod value;
pub mod vm;

mod text;

pub use config::CallbackSlot;
pub use config::Configuration;
pub use registry::ClassRegistry;
pub use registry::ForeignClassMethods;
pub use registry::MethodRegistry;
pub use vm::Handle;
pub use vm::VM;
pub use vm::WrenHandle;
pub use vm::WrenVM;

pub use types::WrenErrorType;
pub use types::WrenErrorType as ErrorType;
pub use types::WrenInterpretResult;
pub use types::WrenInterpretResult as InterpretResult;
pub use types::WrenType;
pub use types::WrenType as Type;
