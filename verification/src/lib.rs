//! The vocabulary of a class file: access flags, field types, method
//! descriptors, method handles and constant-pool entries, each with a
//! mathematical view and with contracts that Verus checks.
//!
//! Every value is immutable once it is made, and no function here does I/O.

pub mod access;
pub mod class;
pub mod field;
pub mod method;
pub mod text;

pub use access::AccessFlags;
pub use class::{ClassVersion, Constant, ConstantView, MethodHandle, MethodHandleView};
pub use field::{FieldHandle, FieldType, FieldTypeView};
pub use method::{MethodDescriptor, MethodDescriptorView};
