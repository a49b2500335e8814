//! The checks that operators make on the state and on the module, with the
//! message of each failure.

use vstd::prelude::*;

use crate::error::Verdict;
use crate::features::{require, WasmFeatures};
use crate::limits::MAX_WASM_FUNCTION_LOCALS;
use crate::model::FuncModel;
use crate::primitives::{MemoryImmediate, Type, TypeOrFuncType};
use crate::resources::ModuleModel;
use crate::text::indexed;

verus! {

impl FuncModel {
    /// The innermost block has `n` operands.
    pub open spec fn frame_size_check(&self, n: int) -> Verdict<()> {
        require(self.has_operands(n), "type mismatch: not enough operands"@)
    }

    /// The topmost operands are of the types `types`.
    pub open spec fn operands_check(&self, types: Seq<Type>) -> Verdict<()> {
        if !self.has_operands(types.len() as int) {
            Err("type mismatch: not enough operands"@)
        } else {
            require(self.accepts_all(types, 0), "stack operand type mismatch"@)
        }
    }

    /// The operands below `above` others are of the types `types` of a block's
    /// parameters.
    pub open spec fn block_params_check(&self, types: Seq<Type>, above: int) -> Verdict<()> {
        if !self.has_operands(types.len() + above) {
            Err("type mismatch: not enough operands"@)
        } else {
            require(self.accepts_all(types, above), "stack operand type mismatch for block"@)
        }
    }

    /// The operands below `above` others are of the types `types` of a block's
    /// results.
    pub open spec fn return_types_check(
        &self,
        features: WasmFeatures,
        types: Seq<Type>,
        above: int,
    ) -> Verdict<()> {
        if !features.multi_value && types.len() > 1 {
            Err(
                "blocks, loops, and ifs may only return at most one value when multi-value is not enabled"@,
            )
        } else {
            require(
                self.accepts_all(types, above),
                "type mismatch: stack item type does not match block item type"@,
            )
        }
    }

    /// The innermost block can end here.
    pub open spec fn block_return_check(&self, features: WasmFeatures) -> Verdict<()> {
        let types = self.last_block().return_types;
        if !self.fits(types.len() as int) {
            Err("type mismatch: stack size does not match block type"@)
        } else {
            self.return_types_check(features, types, 0)
        }
    }

    /// A jump to the block at `depth` finds its operands below `above` others.
    pub open spec fn jump_check(
        &self,
        features: WasmFeatures,
        depth: int,
        above: int,
    ) -> Verdict<()> {
        if depth >= self.blocks.len() {
            Err("unknown label: invalid block depth"@)
        } else if self.block_at(depth).jump_to_top {
            let types = self.block_at(depth).start_types;
            if !self.has_operands(types.len() + above) {
                Err("type mismatch: stack size does not match target loop type"@)
            } else {
                require(
                    self.accepts_all(types, above),
                    "type mismatch: stack item type does not match block param type"@,
                )
            }
        } else {
            let types = self.block_at(depth).return_types;
            if !self.has_operands(types.len() + above) {
                Err("type mismatch: stack size does not match target block type"@)
            } else {
                self.return_types_check(features, types, above)
            }
        }
    }

    /// The blocks at two depths can be targets of one jump table. Loops go
    /// together, and with blocks that have no results.
    pub open spec fn same_label_check(&self, depth1: int, depth2: int) -> Verdict<()> {
        if depth1 >= self.blocks.len() || depth2 >= self.blocks.len() {
            Err("unknown label: invalid block depth"@)
        } else {
            let block1 = self.block_at(depth1);
            let block2 = self.block_at(depth2);
            require(
                if block1.jump_to_top && block2.jump_to_top {
                    true
                } else if block1.jump_to_top {
                    block2.return_types.len() == 0
                } else if block2.jump_to_top {
                    block1.return_types.len() == 0
                } else {
                    block1.return_types == block2.return_types
                },
                "type mismatch: block types do not match"@,
            )
        }
    }

    /// The type of the result of a `select`, where `None` stands for a type
    /// that is not known.
    ///
    /// The condition is an `i32`. If a third operand is known, the second has
    /// the expected type or, where none is expected, that of the third.
    pub open spec fn select_check(&self, expected: Option<Type>) -> Verdict<Option<Type>> {
        let mismatch = Err("stack operand type mismatch"@);
        if !self.has_operands(3) {
            Err("type mismatch: not enough operands"@)
        } else if !self.accepts(0, Type::I32) {
            mismatch
        } else {
            match (self.type_at(1), self.type_at(2)) {
                (None, _) => Ok(None),
                (Some(second), None) => Ok(Some(second)),
                (Some(second), Some(third)) => {
                    let ty = match expected {
                        Some(ty) => ty,
                        None => third,
                    };
                    if second == ty {
                        Ok(Some(ty))
                    } else {
                        mismatch
                    }
                },
            }
        }
    }

    /// The type of the local at an index.
    pub open spec fn local_type(&self, index: u32) -> Verdict<Type> {
        if index < self.local_types.len() {
            Ok(self.local_types[index as int])
        } else {
            Err(indexed("unknown local "@, index, ": local index out of bounds"@))
        }
    }
}

/// `count` locals of type `ty` can be added to those that there are.
pub open spec fn locals_check(
    state: FuncModel,
    features: WasmFeatures,
    count: u32,
    ty: Type,
) -> Verdict<()> {
    let total = state.local_types.len() + count;
    if total > u32::MAX {
        Err("locals overflow"@)
    } else if total > MAX_WASM_FUNCTION_LOCALS {
        Err("locals exceed maximum"@)
    } else {
        match features.value_type_error(ty) {
            Some(message) => Err(message),
            None => Ok(()),
        }
    }
}

/// `ty` can be the type of a block.
pub open spec fn block_type_check(
    features: WasmFeatures,
    module: ModuleModel,
    ty: TypeOrFuncType,
) -> Verdict<()> {
    match ty {
        TypeOrFuncType::Type(ty) => match ty {
            Type::EmptyBlockType | Type::I32 | Type::I64 | Type::F32 | Type::F64 => Ok(()),
            Type::ExternRef | Type::FuncRef => features.reference_types_check(),
            Type::V128 => features.simd_check(),
            Type::Func => Err("invalid block return type"@),
        },
        TypeOrFuncType::FuncType(at) => match module.func_type(at) {
            Err(message) => Err(message),
            Ok(signature) => if features.multi_value {
                Ok(())
            } else if signature.outputs.len() > 1 {
                Err(
                    "blocks, loops, and ifs may only return at most one value when multi-value is not enabled"@,
                )
            } else {
                require(
                    signature.inputs.len() == 0,
                    "blocks, loops, and ifs accept no parameters when multi-value is not enabled"@,
                )
            },
        },
    }
}

/// The type of an address into the memory at an index.
pub open spec fn memory_index_type(
    features: WasmFeatures,
    module: ModuleModel,
    index: u32,
) -> Verdict<Type> {
    if index > 0 && !features.multi_memory {
        Err("multi-memory support is not enabled"@)
    } else {
        match module.memories.get(index) {
            Some(memory) => Ok(memory.index_type()),
            None => Err(indexed("unknown memory "@, index, ""@)),
        }
    }
}

/// The type of the address of an access with the natural alignment `max_align`.
pub open spec fn memarg_type(
    features: WasmFeatures,
    module: ModuleModel,
    memarg: MemoryImmediate,
    max_align: u8,
) -> Verdict<Type> {
    match memory_index_type(features, module, memarg.memory) {
        Err(message) => Err(message),
        Ok(ty) => if memarg.align > max_align {
            Err("alignment must not be larger than natural"@)
        } else {
            Ok(ty)
        },
    }
}

} // verus!
