//! The memory-safe core of a small C boundary layer.
//!
//! The layer hands heap-allocated records to foreign callers and lets them
//! fill buffers and records in place. Everything that touches a raw pointer
//! stays with the caller of this crate; what a block of memory is to hold,
//! and what each operation leaves behind, is decided and proved here.

pub mod direct;
pub mod laws;
pub mod managed_heap;
pub mod operations;
pub mod values;

pub use operations::{fill_buffer, fill_struct, handle_enum};
pub use values::{TestEnum, TestStruct, SOME_CONSTANT};
