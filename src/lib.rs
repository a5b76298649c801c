//! Host side of a binding to a native array engine: owned handles to native
//! objects, sequences of arrays, a bridge that exposes typed host functions
//! through the engine's sequence-in, sequence-out calling convention, the
//! compile cache and the differentiation transforms built on that bridge,
//! and the default execution context.

pub mod array;
pub mod closure;
pub mod compile;
pub mod context;
pub mod device;
pub mod dtype;
pub mod handle;
pub mod stream;
pub mod string;
pub mod transform;
pub mod vector_array;
