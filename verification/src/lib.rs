//! Runtime core of a WebAssembly engine.
//!
//! A decoded [`module::Module`] is brought to life by
//! [`store::Store::instantiate`]: its globals, functions, tables and element
//! segments are made ([`allocation`]) and filed in the store under
//! addresses ([`addressable`]) that name the owning instance, the position
//! of the object in its index space, and the index space. The machine that
//! runs the functions works on one stack ([`stack`], [`vm`]) of values
//! ([`val`]), frames ([`frame`]) and labels ([`label`]).
//!
//! The binary encoding of function bodies and of initialiser expressions is
//! read with `wasmparser` ([`reader`]).

pub mod addr;
pub mod addressable;
pub mod allocation;
pub mod error;
pub mod frame;
pub mod instance;
pub mod instr;
pub mod label;
pub mod module;
pub mod reader;
pub mod stack;
pub mod store;
pub mod val;
pub mod vm;
