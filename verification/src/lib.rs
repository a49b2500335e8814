//! Validation of WebAssembly function bodies, one operator at a time.
//!
//! An `OperatorValidator` is made for a function of some type, is told of the
//! function's locals, and then processes the operators of the body in order. It
//! keeps the types of the operands and the open blocks, and refuses an operator
//! that does not fit them.
//!
//! `model` describes the state of validation, and `checks` and `rules` what each
//! operator demands and does. `operator_laws`, `typing_laws` and `flow_laws` say
//! what comes of that for the operands and the blocks, operator by operator, and
//! `laws` what comes of it for validation as a whole.

pub mod checks;
pub mod error;
pub mod features;
pub mod flow_laws;
mod func_state;
pub mod laws;
pub mod limits;
pub mod model;
pub mod operator_laws;
pub mod operators_validator;
pub mod primitives;
pub mod resources;
pub mod rules;
pub mod shapes;
pub mod text;
pub mod type_list;
pub mod typing_laws;

pub use error::{BinaryReaderError, OperatorValidatorError};
pub use features::WasmFeatures;
pub use operators_validator::{FunctionEnd, OperatorValidator};
pub use primitives::{
    BrTable, GlobalType, Ieee32, Ieee64, MemoryImmediate, MemoryType, Operator, TableType, Type,
    TypeOrFuncType, V128,
};
pub use resources::{FuncType, Module, WasmFuncType, WasmModuleResources};
