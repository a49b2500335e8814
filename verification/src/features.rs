//! The proposals and restrictions that validation is run with.

use vstd::prelude::*;

use crate::error::Verdict;
use crate::primitives::Type;

verus! {

/// Which features of WebAssembly a function body may use.
#[derive(Debug, Copy, Clone)]
pub struct WasmFeatures {
    pub reference_types: bool,
    pub simd: bool,
    pub multi_value: bool,
    pub threads: bool,
    pub tail_call: bool,
    pub bulk_memory: bool,
    pub multi_memory: bool,
    /// Whether operators on floats are guarded by `deterministic_only`.
    pub deterministic: bool,
    pub deterministic_only: bool,
}

/// The verdict of a check that fails with `message` unless `holds`.
pub open spec fn require(holds: bool, message: Seq<char>) -> Verdict<()> {
    if holds {
        Ok(())
    } else {
        Err(message)
    }
}

impl WasmFeatures {
    /// Whether operators on floats may be used.
    pub open spec fn non_deterministic_check(&self) -> Verdict<()> {
        require(
            !self.deterministic || self.deterministic_only,
            "deterministic_only support is not enabled"@,
        )
    }

    /// Whether atomic operators may be used.
    pub open spec fn threads_check(&self) -> Verdict<()> {
        require(self.threads, "threads support is not enabled"@)
    }

    /// Whether operators on references may be used.
    pub open spec fn reference_types_check(&self) -> Verdict<()> {
        require(self.reference_types, "reference types support is not enabled"@)
    }

    /// Whether operators on vectors may be used.
    pub open spec fn simd_check(&self) -> Verdict<()> {
        require(self.simd, "SIMD support is not enabled"@)
    }

    /// Whether operators on ranges of memories and tables may be used.
    pub open spec fn bulk_memory_check(&self) -> Verdict<()> {
        require(self.bulk_memory, "bulk memory support is not enabled"@)
    }

    /// Whether tail calls may be used.
    pub open spec fn tail_call_check(&self) -> Verdict<()> {
        require(self.tail_call, "tail calls support is not enabled"@)
    }

    /// Why `ty` is no type of a value, if it is none.
    pub open spec fn value_type_error(&self, ty: Type) -> Option<Seq<char>> {
        match ty {
            Type::I32 | Type::I64 | Type::F32 | Type::F64 => None,
            Type::FuncRef | Type::ExternRef => if self.reference_types {
                None
            } else {
                Some("reference types support is not enabled"@)
            },
            Type::V128 => if self.simd {
                None
            } else {
                Some("SIMD support is not enabled"@)
            },
            Type::Func | Type::EmptyBlockType => Some("invalid value type"@),
        }
    }

    /// Checks that a value can have the type `ty`.
    pub fn check_value_type(&self, ty: Type) -> (r: Result<(), &'static str>)
        ensures
            match r {
                Ok(_) => self.value_type_error(ty) is None,
                Err(e) => self.value_type_error(ty) == Some(e@),
            },
    {
        match ty {
            Type::I32 | Type::I64 | Type::F32 | Type::F64 => Ok(()),
            Type::FuncRef | Type::ExternRef => {
                if self.reference_types {
                    Ok(())
                } else {
                    Err("reference types support is not enabled")
                }
            },
            Type::V128 => {
                if self.simd {
                    Ok(())
                } else {
                    Err("SIMD support is not enabled")
                }
            },
            Type::Func | Type::EmptyBlockType => Err("invalid value type"),
        }
    }
}

} // verus!
