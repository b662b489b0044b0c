//! Code generation for TypeScript.

pub mod class;
pub mod codegen;
pub mod endpoint;
pub mod field;
pub mod interface;
pub mod method;
pub mod types;

pub use class::{Class, ClassView};
pub use codegen::codegen;
pub use field::{Field, FieldView};
pub use interface::{parse_interface_fields, Interface, InterfaceView};
pub use method::{Method, MethodBuilder, MethodView};
pub use types::{TsType, TsTypeView};
