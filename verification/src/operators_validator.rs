//! The validator of function bodies.

use vstd::prelude::*;

use crate::checks::{block_type_check, locals_check, memarg_type, memory_index_type};
use crate::error::{
    agrees, BinaryReaderError, OperatorValidatorError, OperatorValidatorResult, Verdict,
};
use crate::features::WasmFeatures;
use crate::func_state::{BlockState, FuncState};
use crate::limits::MAX_WASM_FUNCTION_LOCALS;
use crate::model::FuncModel;
use crate::primitives::{
    BlockType, BrTable, MemoryImmediate, Operator, SIMDLaneIndex, Type, TypeOrFuncType,
};
use crate::resources::{func_type_at, FuncSignature, WasmFuncType, WasmModuleResources};
use crate::rules::{
    binary, block_step, br_if_step, br_table_check, br_table_step, bulk_typing,
    call_indirect_typing, call_typing, constant, control_step, data_segment_check,
    element_segment_check, element_type, else_step, end_step, from_to, guard_check, lane_check,
    lanes_check, lemma_br_table_check_fails, memory_typing, ref_is_null_step, reference_typing,
    return_step, select_step, shape_typing, step, table_copy_check, table_init_check, ternary,
    typed, typing, unary, variable_typing, Step,
};
use crate::shapes::{shape, shape_of, Guard, Shape};
use crate::text::format_index;
use crate::type_list::same_types;

verus! {

/// Whether an operator ended the function body.
#[derive(Debug, Copy, Clone, PartialEq, Eq, Structural)]
pub enum FunctionEnd {
    No,
    Yes,
}

/// What a validator holds.
#[verifier::ext_equal]
pub struct ValidatorModel {
    pub func: FuncModel,
    pub features: WasmFeatures,
}

/// A validator in the middle of a function body.
#[derive(Debug)]
pub struct OperatorValidator {
    func_state: FuncState,
    features: WasmFeatures,
}

impl View for OperatorValidator {
    type V = ValidatorModel;

    closed spec fn view(&self) -> ValidatorModel {
        ValidatorModel { func: self.func_state@, features: self.features }
    }
}

/// A part of the processing that took a validator from `before` to `after` with
/// the result `r` did what `step` says, without an end of the body.
spec fn stepped(
    before: ValidatorModel,
    after: ValidatorModel,
    r: OperatorValidatorResult<()>,
    step: Step,
) -> bool {
    &&& after.features == before.features
    &&& after.func == step.state
    &&& after.func.wf()
    &&& match (r, step.result) {
        (Ok(_), Ok(end)) => end is No,
        (Err(e), Err(message)) => e.message() == message && e.has_placeholder(),
        _ => false,
    }
}

/// A part of the processing that took a validator from `before` to `after` with
/// the result `r` replaced operands by results as `typing` says.
#[verifier::opaque]
spec fn retypes(
    before: ValidatorModel,
    after: ValidatorModel,
    r: OperatorValidatorResult<()>,
    typing: Verdict<FuncSignature>,
) -> bool {
    stepped(before, after, r, typed(before.func, typing))
}

/// A family of operators with typings took a validator from `before` to `after`
/// with the result `r`, which tells whether the operator is in the family.
spec fn handles(
    before: ValidatorModel,
    after: ValidatorModel,
    r: OperatorValidatorResult<bool>,
    typing: Option<Verdict<FuncSignature>>,
) -> bool {
    match (r, typing) {
        (Ok(handled), Some(typing)) => handled && retypes(before, after, Ok(()), typing),
        (Err(e), Some(typing)) => retypes(before, after, Err(e), typing),
        (Ok(handled), None) => !handled && after == before,
        (Err(_), None) => false,
    }
}

/// An operator that is refused, and one without operands and results, leave the
/// validator as it is.
proof fn lemma_retypes_nothing(v: ValidatorModel)
    requires
        v.func.wf(),
    ensures
        forall|e: OperatorValidatorError, message: Seq<char>|
            e.message() == message && e.has_placeholder() ==> #[trigger] retypes(
                v,
                v,
                Err(e),
                Err(message),
            ),
        retypes(v, v, Ok(()), from_to(seq![], seq![])),
{
    reveal(retypes);
    let none = Seq::<Type>::empty();
    v.func.lemma_nothing_pushed();
    assert(v.func.accepts_all(none, 0));
}

impl OperatorValidator {
    /// A validator at the beginning of the body of a function of type
    /// `func_type`.
    pub fn new<F: WasmFuncType>(func_type: F, features: &WasmFeatures) -> (v: OperatorValidator)
        ensures
            v@.func == FuncModel::initial(func_type@),
            v@.features == *features,
            v@.func.wf(),
    {
        let local_types = func_type.inputs();
        let last_returns = func_type.outputs();
        let mut blocks: Vec<BlockState> = Vec::new();
        blocks.push(
            BlockState {
                start_types: Vec::new(),
                return_types: last_returns,
                stack_starts_at: 0,
                jump_to_top: false,
                is_else_allowed: false,
                is_dead_code: false,
                polymorphic_values: None,
            },
        );
        let v = OperatorValidator {
            func_state: FuncState {
                local_types,
                blocks,
                stack_types: Vec::new(),
                end_function: false,
            },
            features: *features,
        };
        assert(v@.func =~~= FuncModel::initial(func_type@));
        v
    }

    /// Adds `count` locals of type `ty`, which stand at `offset` in the binary.
    pub fn define_locals(&mut self, offset: usize, count: u32, ty: Type) -> (r: Result<
        (),
        BinaryReaderError,
    >)
        requires
            old(self)@.func.local_types.len() <= MAX_WASM_FUNCTION_LOCALS,
        ensures
            match locals_check(old(self)@.func, old(self)@.features, count, ty) {
                Ok(_) => {
                    &&& r is Ok
                    &&& final(self)@ == (ValidatorModel {
                        func: old(self)@.func.with_locals(count as nat, ty),
                        ..old(self)@
                    })
                },
                Err(message) => {
                    &&& r matches Err(e) && e.message@ == message && e.offset == offset
                    &&& final(self)@ == old(self)@
                },
            },
            final(self)@.func.local_types.len() <= MAX_WASM_FUNCTION_LOCALS,
    {
        let len: usize = self.func_state.local_types.len();
        if (MAX_WASM_FUNCTION_LOCALS - len).checked_sub(count as usize).is_none() {
            if count.checked_add(len as u32).is_none() {
                return Err(BinaryReaderError::new("locals overflow", offset));
            } else {
                return Err(BinaryReaderError::new("locals exceed maximum", offset));
            }
        }
        match self.features.check_value_type(ty) {
            Ok(_) => {},
            Err(e) => return Err(BinaryReaderError::new(e, offset)),
        }
        for i in 0..count
            invariant
                self.features == old(self).features,
                self@.func =~~= old(self)@.func.with_locals(i as nat, ty),
        {
            self.func_state.local_types.push(ty);
        }
        Ok(())
    }

    fn check_frame_size(&self, require_count: usize) -> (r: OperatorValidatorResult<()>)
        requires
            self@.func.wf(),
        ensures
            agrees(r, self@.func.frame_size_check(require_count as int)),
    {
        if !self.func_state.assert_last_block_stack_len(require_count, 0) {
            Err(OperatorValidatorError::new("type mismatch: not enough operands"))
        } else {
            Ok(())
        }
    }

    fn check_operands_1(&self, operand: Type) -> (r: OperatorValidatorResult<()>)
        requires
            self@.func.wf(),
        ensures
            agrees(r, self@.func.operands_check(seq![operand])),
    {
        self.check_frame_size(1)?;
        proof {
            self@.func.lemma_accepts_1(operand);
        }
        if !self.func_state.assert_stack_type_at(0, operand) {
            return Err(OperatorValidatorError::new("stack operand type mismatch"));
        }
        Ok(())
    }

    fn check_operands_2(&self, operand1: Type, operand2: Type) -> (r: OperatorValidatorResult<()>)
        requires
            self@.func.wf(),
        ensures
            agrees(r, self@.func.operands_check(seq![operand1, operand2])),
    {
        self.check_frame_size(2)?;
        proof {
            self@.func.lemma_accepts_2(operand1, operand2);
        }
        if !self.func_state.assert_stack_type_at(1, operand1) {
            return Err(OperatorValidatorError::new("stack operand type mismatch"));
        }
        if !self.func_state.assert_stack_type_at(0, operand2) {
            return Err(OperatorValidatorError::new("stack operand type mismatch"));
        }
        Ok(())
    }

    fn check_operands_3(&self, operand1: Type, operand2: Type, operand3: Type) -> (r:
        OperatorValidatorResult<()>)
        requires
            self@.func.wf(),
        ensures
            agrees(r, self@.func.operands_check(seq![operand1, operand2, operand3])),
    {
        self.check_frame_size(3)?;
        proof {
            self@.func.lemma_accepts_3(operand1, operand2, operand3);
        }
        if !self.func_state.assert_stack_type_at(2, operand1) {
            return Err(OperatorValidatorError::new("stack operand type mismatch"));
        }
        if !self.func_state.assert_stack_type_at(1, operand2) {
            return Err(OperatorValidatorError::new("stack operand type mismatch"));
        }
        if !self.func_state.assert_stack_type_at(0, operand3) {
            return Err(OperatorValidatorError::new("stack operand type mismatch"));
        }
        Ok(())
    }

    fn check_operands(&self, expected_types: &Vec<Type>) -> (r: OperatorValidatorResult<()>)
        requires
            self@.func.wf(),
        ensures
            agrees(r, self@.func.operands_check(expected_types@)),
    {
        self.check_frame_size(expected_types.len())?;
        if !self.func_state.assert_stack_types(expected_types, 0) {
            return Err(OperatorValidatorError::new("stack operand type mismatch"));
        }
        Ok(())
    }

    fn check_block_return_types(&self, block: &BlockState, reserve_items: usize) -> (r:
        OperatorValidatorResult<()>)
        requires
            self@.func.wf(),
            self@.func.has_operands(block@.return_types.len() + reserve_items),
            block@.return_types.len() + reserve_items <= usize::MAX + 1,
        ensures
            agrees(
                r,
                self@.func.return_types_check(
                    self@.features,
                    block@.return_types,
                    reserve_items as int,
                ),
            ),
    {
        if !self.features.multi_value && block.return_types.len() > 1 {
            return Err(
                OperatorValidatorError::new(
                    "blocks, loops, and ifs may only return at most one value when multi-value is not enabled",
                ),
            );
        }
        if !self.func_state.assert_stack_types(&block.return_types, reserve_items) {
            return Err(
                OperatorValidatorError::new(
                    "type mismatch: stack item type does not match block item type",
                ),
            );
        }
        Ok(())
    }

    fn check_block_return(&self) -> (r: OperatorValidatorResult<()>)
        requires
            self@.func.wf(),
        ensures
            agrees(r, self@.func.block_return_check(self@.features)),
    {
        let len: usize = self.func_state.last_block().return_types.len();
        if !self.func_state.assert_last_block_stack_len_exact(len) {
            return Err(
                OperatorValidatorError::new("type mismatch: stack size does not match block type"),
            );
        }
        self.check_block_return_types(self.func_state.last_block(), 0)
    }

    fn check_jump_from_block(&self, relative_depth: u32, reserve_items: usize) -> (r:
        OperatorValidatorResult<()>)
        requires
            self@.func.wf(),
            reserve_items <= 1 || (relative_depth < self@.func.blocks.len() ==> self@.func.block_at(
                relative_depth as int,
            ).label_types().len() + reserve_items <= usize::MAX + 1),
        ensures
            agrees(
                r,
                self@.func.jump_check(self@.features, relative_depth as int, reserve_items as int),
            ),
    {
        if relative_depth as usize >= self.func_state.blocks.len() {
            return Err(OperatorValidatorError::new("unknown label: invalid block depth"));
        }
        let block = self.func_state.block_at(relative_depth as usize);
        if block.jump_to_top {
            let len: usize = block.start_types.len();
            if !self.func_state.assert_last_block_stack_len(len, reserve_items) {
                return Err(
                    OperatorValidatorError::new(
                        "type mismatch: stack size does not match target loop type",
                    ),
                );
            }
            if !self.func_state.assert_stack_types(&block.start_types, reserve_items) {
                return Err(
                    OperatorValidatorError::new(
                        "type mismatch: stack item type does not match block param type",
                    ),
                );
            }
            return Ok(());
        }
        let len: usize = block.return_types.len();
        if !self.func_state.assert_last_block_stack_len(len, reserve_items) {
            return Err(
                OperatorValidatorError::new(
                    "type mismatch: stack size does not match target block type",
                ),
            );
        }
        self.check_block_return_types(block, reserve_items)
    }

    fn match_block_return(&self, depth1: u32, depth2: u32) -> (r: OperatorValidatorResult<()>)
        requires
            self@.func.wf(),
        ensures
            agrees(r, self@.func.same_label_check(depth1 as int, depth2 as int)),
    {
        if depth1 as usize >= self.func_state.blocks.len() {
            return Err(OperatorValidatorError::new("unknown label: invalid block depth"));
        }
        if depth2 as usize >= self.func_state.blocks.len() {
            return Err(OperatorValidatorError::new("unknown label: invalid block depth"));
        }
        let block1 = self.func_state.block_at(depth1 as usize);
        let block2 = self.func_state.block_at(depth2 as usize);
        let return_types1 = &block1.return_types;
        let return_types2 = &block2.return_types;
        if block1.jump_to_top || block2.jump_to_top {
            if block1.jump_to_top {
                if !block2.jump_to_top && return_types2.len() != 0 {
                    return Err(
                        OperatorValidatorError::new("type mismatch: block types do not match"),
                    );
                }
            } else if return_types1.len() != 0 {
                return Err(OperatorValidatorError::new("type mismatch: block types do not match"));
            }
        } else if !same_types(return_types1, return_types2) {
            return Err(OperatorValidatorError::new("type mismatch: block types do not match"));
        }
        Ok(())
    }

    fn check_memory_index<R: WasmModuleResources>(&self, memory_index: u32, resources: &R) -> (r:
        OperatorValidatorResult<Type>)
        ensures
            agrees(r, memory_index_type(self@.features, resources@, memory_index)),
    {
        if memory_index > 0 && !self.features.multi_memory {
            return Err(OperatorValidatorError::new("multi-memory support is not enabled"));
        }
        match resources.memory_at(memory_index) {
            Some(mem) => Ok(mem.index_type()),
            None => {
                let message = format_index("unknown memory ", memory_index, "");
                Err(OperatorValidatorError::new(message.as_str()))
            },
        }
    }

    fn check_memarg<R: WasmModuleResources>(
        &self,
        memarg: MemoryImmediate,
        max_align: u8,
        resources: &R,
    ) -> (r: OperatorValidatorResult<Type>)
        ensures
            agrees(r, memarg_type(self@.features, resources@, memarg, max_align)),
    {
        let index_ty = self.check_memory_index(memarg.memory, resources)?;
        if memarg.align > max_align {
            return Err(OperatorValidatorError::new("alignment must not be larger than natural"));
        }
        Ok(index_ty)
    }

    fn check_non_deterministic_enabled(&self) -> (r: OperatorValidatorResult<()>)
        ensures
            agrees(r, self@.features.non_deterministic_check()),
    {
        if self.features.deterministic && !self.features.deterministic_only {
            return Err(OperatorValidatorError::new("deterministic_only support is not enabled"));
        }
        Ok(())
    }

    fn check_threads_enabled(&self) -> (r: OperatorValidatorResult<()>)
        ensures
            agrees(r, self@.features.threads_check()),
    {
        if !self.features.threads {
            return Err(OperatorValidatorError::new("threads support is not enabled"));
        }
        Ok(())
    }

    fn check_reference_types_enabled(&self) -> (r: OperatorValidatorResult<()>)
        ensures
            agrees(r, self@.features.reference_types_check()),
    {
        if !self.features.reference_types {
            return Err(OperatorValidatorError::new("reference types support is not enabled"));
        }
        Ok(())
    }

    fn check_simd_enabled(&self) -> (r: OperatorValidatorResult<()>)
        ensures
            agrees(r, self@.features.simd_check()),
    {
        if !self.features.simd {
            return Err(OperatorValidatorError::new("SIMD support is not enabled"));
        }
        Ok(())
    }

    fn check_bulk_memory_enabled(&self) -> (r: OperatorValidatorResult<()>)
        ensures
            agrees(r, self@.features.bulk_memory_check()),
    {
        if !self.features.bulk_memory {
            return Err(OperatorValidatorError::new("bulk memory support is not enabled"));
        }
        Ok(())
    }

    fn check_tail_call_enabled(&self) -> (r: OperatorValidatorResult<()>)
        ensures
            agrees(r, self@.features.tail_call_check()),
    {
        if !self.features.tail_call {
            return Err(OperatorValidatorError::new("tail calls support is not enabled"));
        }
        Ok(())
    }

    fn check_shared_memarg_wo_align<R: WasmModuleResources>(
        &self,
        resources: &R,
    ) -> (r: OperatorValidatorResult<Type>)
        ensures
            agrees(r, memory_index_type(self@.features, resources@, 0)),
    {
        self.check_memory_index(0, resources)
    }

    fn check_simd_lane_index(&self, index: SIMDLaneIndex, max: u8) -> (r: OperatorValidatorResult<
        (),
    >)
        ensures
            agrees(r, lane_check(index, max)),
    {
        if index >= max {
            return Err(OperatorValidatorError::new("SIMD index out of bounds"));
        }
        Ok(())
    }

    fn check_simd_lane_indices(&self, lanes: &[SIMDLaneIndex; 16], max: u8) -> (r:
        OperatorValidatorResult<()>)
        ensures
            agrees(r, lanes_check(lanes@, max)),
    {
        for i in 0..lanes.len()
            invariant
                forall|j: int| 0 <= j < i ==> #[trigger] lanes@[j] < max,
        {
            self.check_simd_lane_index(lanes[i], max)?;
        }
        Ok(())
    }

    fn check_block_type<R: WasmModuleResources>(&self, ty: TypeOrFuncType, resources: &R) -> (r:
        OperatorValidatorResult<()>)
        ensures
            agrees(r, block_type_check(self@.features, resources@, ty)),
    {
        match ty {
            TypeOrFuncType::Type(Type::EmptyBlockType)
            | TypeOrFuncType::Type(Type::I32)
            | TypeOrFuncType::Type(Type::I64)
            | TypeOrFuncType::Type(Type::F32)
            | TypeOrFuncType::Type(Type::F64) => Ok(()),
            TypeOrFuncType::Type(Type::ExternRef) | TypeOrFuncType::Type(Type::FuncRef) => {
                self.check_reference_types_enabled()
            },
            TypeOrFuncType::Type(Type::V128) => self.check_simd_enabled(),
            TypeOrFuncType::FuncType(idx) => {
                let ty = func_type_at(resources, idx)?;
                if !self.features.multi_value {
                    if ty.len_outputs() > 1 {
                        return Err(
                            OperatorValidatorError::new(
                                "blocks, loops, and ifs may only return at most one value when multi-value is not enabled",
                            ),
                        );
                    }
                    if ty.len_inputs() > 0 {
                        return Err(
                            OperatorValidatorError::new(
                                "blocks, loops, and ifs accept no parameters when multi-value is not enabled",
                            ),
                        );
                    }
                }
                Ok(())
            },
            _ => Err(OperatorValidatorError::new("invalid block return type")),
        }
    }

    fn check_block_params<R: WasmModuleResources>(
        &self,
        ty: TypeOrFuncType,
        resources: &R,
        skip: usize,
    ) -> (r: OperatorValidatorResult<()>)
        requires
            self@.func.wf(),
            skip <= 1 || (resources@.block_signature(ty) matches Ok(signature)
                ==> signature.inputs.len() + skip <= usize::MAX + 1),
        ensures
            match ty {
                TypeOrFuncType::Type(_) => r is Ok,
                TypeOrFuncType::FuncType(at) => match resources@.func_type(at) {
                    Ok(signature) => agrees(
                        r,
                        self@.func.block_params_check(signature.inputs, skip as int),
                    ),
                    Err(message) => agrees(r, Err(message)),
                },
            },
    {
        if let TypeOrFuncType::FuncType(idx) = ty {
            let func_ty = func_type_at(resources, idx)?;
            let inputs = func_ty.inputs();
            if !self.func_state.assert_last_block_stack_len(inputs.len(), skip) {
                return Err(OperatorValidatorError::new("type mismatch: not enough operands"));
            }
            if !self.func_state.assert_stack_types(&inputs, skip) {
                return Err(OperatorValidatorError::new("stack operand type mismatch for block"));
            }
        }
        Ok(())
    }

    fn check_select(&self, expected_ty: Option<Type>) -> (r: OperatorValidatorResult<Option<Type>>)
        requires
            self@.func.wf(),
        ensures
            agrees(r, self@.func.select_check(expected_ty)),
    {
        self.check_frame_size(3)?;
        let func_state = &self.func_state;
        let len: usize = func_state.stack_types.len();
        let last_block = func_state.last_block();
        proof {
            self@.func.lemma_accepts_1(Type::I32);
        }
        if last_block.is_stack_polymorphic() {
            let height: usize = len - last_block.stack_starts_at;
            if height == 0 {
                return Ok(None);
            }
            if height == 1 {
                self.check_operands_1(Type::I32)?;
                return Ok(None);
            }
            if height == 2 {
                self.check_operands_1(Type::I32)?;
                return Ok(Some(func_state.stack_types[len - 2]));
            }
        }
        let ty = match expected_ty {
            Some(ty) => ty,
            None => func_state.stack_types[len - 3],
        };
        proof {
            self@.func.lemma_accepts_2(ty, Type::I32);
        }
        self.check_operands_2(ty, Type::I32)?;
        Ok(Some(ty))
    }

    fn check_call<R: WasmModuleResources>(&mut self, function_index: u32, resources: &R) -> (r:
        OperatorValidatorResult<()>)
        requires
            old(self)@.func.wf(),
        ensures
            retypes(
                old(self)@,
                final(self)@,
                r,
                call_typing(resources@, function_index),
            ),
    {
        proof {
            reveal(retypes);
        }
        let ty = match resources.type_of_function(function_index) {
            Some(ty) => ty,
            None => {
                let message = format_index(
                    "unknown function ",
                    function_index,
                    ": function index out of bounds",
                );
                return Err(OperatorValidatorError::new(message.as_str()));
            },
        };
        self.check_operands(&ty.inputs())?;
        self.func_state.change_frame_with_types(ty.len_inputs(), &ty.outputs())?;
        Ok(())
    }

    fn check_call_indirect<R: WasmModuleResources>(
        &mut self,
        index: u32,
        table_index: u32,
        resources: &R,
    ) -> (r: OperatorValidatorResult<()>)
        requires
            old(self)@.func.wf(),
        ensures
            retypes(
                old(self)@,
                final(self)@,
                r,
                call_indirect_typing(resources@, index, table_index),
            ),
    {
        proof {
            reveal(retypes);
        }
        if resources.table_at(table_index).is_none() {
            return Err(OperatorValidatorError::new("unknown table: table index out of bounds"));
        }
        let ty = func_type_at(resources, index)?;
        let mut types = ty.inputs();
        types.push(Type::I32);
        self.check_operands(&types)?;
        self.func_state.change_frame_with_types(types.len(), &ty.outputs())?;
        Ok(())
    }

    fn check_return(&mut self) -> (r: OperatorValidatorResult<()>)
        requires
            old(self)@.func.wf(),
        ensures
            stepped(
                old(self)@,
                final(self)@,
                r,
                return_step(old(self)@.func, old(self)@.features),
            ),
    {
        let depth: u32 = (self.func_state.blocks.len() - 1) as u32;
        self.check_jump_from_block(depth, 0)?;
        self.func_state.start_dead_code();
        Ok(())
    }

    /// Opens a block of type `ty`.
    fn process_block<R: WasmModuleResources>(
        &mut self,
        ty: TypeOrFuncType,
        block_type: BlockType,
        resources: &R,
    ) -> (r: OperatorValidatorResult<()>)
        requires
            old(self)@.func.wf(),
        ensures
            stepped(
                old(self)@,
                final(self)@,
                r,
                block_step(old(self)@.func, old(self)@.features, resources@, ty, block_type),
            ),
    {
        self.check_block_type(ty, resources)?;
        if block_type == BlockType::If {
            self.check_operands_1(Type::I32)?;
            self.check_block_params(ty, resources, 1)?;
        } else {
            self.check_block_params(ty, resources, 0)?;
        }
        proof {
            if let Ok(signature) = resources@.block_signature(ty) {
                self@.func.lemma_params_stay_accepted(block_type, signature.inputs);
            }
        }
        self.func_state.push_block(ty, block_type, resources)
    }

    fn process_else(&mut self) -> (r: OperatorValidatorResult<()>)
        requires
            old(self)@.func.wf(),
        ensures
            stepped(old(self)@, final(self)@, r, else_step(old(self)@.func, old(self)@.features)),
    {
        if !self.func_state.last_block().is_else_allowed {
            return Err(OperatorValidatorError::new("unexpected else: if block is not started"));
        }
        self.check_block_return()?;
        self.func_state.reset_block();
        Ok(())
    }

    fn process_end(&mut self) -> (r: OperatorValidatorResult<FunctionEnd>)
        requires
            old(self)@.func.wf(),
        ensures
            final(self)@.func.wf(),
            final(self)@.features == old(self)@.features,
            final(self)@.func == end_step(old(self)@.func, old(self)@.features).state,
            agrees(r, end_step(old(self)@.func, old(self)@.features).result),
    {
        self.check_block_return()?;
        if self.func_state.blocks.len() == 1 {
            self.func_state.end_function();
            return Ok(FunctionEnd::Yes);
        }
        let last_block = self.func_state.last_block();
        if last_block.is_else_allowed && !same_types(
            &last_block.start_types,
            &last_block.return_types,
        ) {
            return Err(
                OperatorValidatorError::new(
                    "type mismatch: else is expected: if block has a type that can't be implemented with a no-op",
                ),
            );
        }
        self.func_state.pop_block();
        Ok(FunctionEnd::No)
    }

    fn process_br_if(&mut self, relative_depth: u32) -> (r: OperatorValidatorResult<()>)
        requires
            old(self)@.func.wf(),
        ensures
            stepped(
                old(self)@,
                final(self)@,
                r,
                br_if_step(old(self)@.func, old(self)@.features, relative_depth),
            ),
    {
        self.check_operands_1(Type::I32)?;
        self.check_jump_from_block(relative_depth, 1)?;
        self.func_state.change_frame(1)?;
        if self.func_state.last_block().is_stack_polymorphic() {
            self.func_state.change_frame_to_exact_types_from(relative_depth as usize)?;
        }
        Ok(())
    }

    fn process_br_table(&mut self, table: &BrTable) -> (r: OperatorValidatorResult<()>)
        requires
            old(self)@.func.wf(),
        ensures
            stepped(
                old(self)@,
                final(self)@,
                r,
                br_table_step(old(self)@.func, old(self)@.features, *table),
            ),
    {
        self.check_operands_1(Type::I32)?;
        let mut depth0: Option<u32> = None;
        for i in 0..table.entries.len()
            invariant
                self@ == old(self)@,
                self@.func.wf(),
                old(self)@.func.operands_check(seq![Type::I32]) is Ok,
                br_table_check(self@.func, self@.features, table.entries@, i as nat) is Ok,
                match depth0 {
                    None => i == 0,
                    Some(depth) => i > 0 && table.entries@[0] is Ok && (
                    table.entries@[0]->Ok_0).0 == depth,
                },
        {
            proof {
                lemma_br_table_check_fails(
                    self@.func,
                    self@.features,
                    table.entries@,
                    (i + 1) as nat,
                    table.entries@.len(),
                );
            }
            match &table.entries[i] {
                Err(e) => {
                    return Err(OperatorValidatorError::new(e.message.as_str()));
                },
                Ok((relative_depth, _is_default)) => {
                    match depth0 {
                        None => {
                            self.check_jump_from_block(*relative_depth, 1)?;
                            depth0 = Some(*relative_depth);
                        },
                        Some(depth) => {
                            self.match_block_return(*relative_depth, depth)?;
                        },
                    }
                },
            }
        }
        self.func_state.start_dead_code();
        Ok(())
    }

    fn process_select(&mut self) -> (r: OperatorValidatorResult<()>)
        requires
            old(self)@.func.wf(),
        ensures
            stepped(old(self)@, final(self)@, r, select_step(old(self)@.func)),
    {
        let ty = self.check_select(None)?;
        match ty {
            Some(Type::I32) | Some(Type::I64) | Some(Type::F32) | Some(Type::F64) => {},
            Some(_) => {
                return Err(
                    OperatorValidatorError::new(
                        "type mismatch: only integer types allowed with bare `select`",
                    ),
                );
            },
            None => {},
        }
        self.func_state.change_frame_after_select(ty)
    }

    fn process_ref_is_null(&mut self) -> (r: OperatorValidatorResult<()>)
        requires
            old(self)@.func.wf(),
        ensures
            stepped(
                old(self)@,
                final(self)@,
                r,
                ref_is_null_step(old(self)@.func, old(self)@.features),
            ),
    {
        self.check_reference_types_enabled()?;
        self.check_frame_size(1)?;
        match self.func_state.stack_type_at(0) {
            None | Some(Type::FuncRef) | Some(Type::ExternRef) => {},
            _ => {
                return Err(
                    OperatorValidatorError::new(
                        "type mismatch: invalid reference type in ref.is_null",
                    ),
                );
            },
        }
        self.func_state.change_frame_with_type(1, Type::I32)
    }

    /// Leaves a result of type `result`.
    fn produce(&mut self, result: Type) -> (r: OperatorValidatorResult<()>)
        requires
            old(self)@.func.wf(),
        ensures
            retypes(old(self)@, final(self)@, r, constant(result)),
    {
        proof {
            reveal(retypes);
        }
        self.func_state.change_frame_with_type(0, result)
    }

    /// Replaces an operand by a result.
    fn replace_1(&mut self, operand: Type, result: Type) -> (r: OperatorValidatorResult<()>)
        requires
            old(self)@.func.wf(),
        ensures
            retypes(old(self)@, final(self)@, r, unary(operand, result)),
    {
        proof {
            reveal(retypes);
        }
        self.check_operands_1(operand)?;
        self.func_state.change_frame_with_type(1, result)
    }

    /// Replaces two operands by a result.
    fn replace_2(&mut self, operand1: Type, operand2: Type, result: Type) -> (r:
        OperatorValidatorResult<()>)
        requires
            old(self)@.func.wf(),
        ensures
            retypes(
                old(self)@,
                final(self)@,
                r,
                binary(operand1, operand2, result),
            ),
    {
        proof {
            reveal(retypes);
        }
        self.check_operands_2(operand1, operand2)?;
        self.func_state.change_frame_with_type(2, result)
    }

    /// Replaces three operands by a result.
    fn replace_3(&mut self, operand1: Type, operand2: Type, operand3: Type, result: Type) -> (r:
        OperatorValidatorResult<()>)
        requires
            old(self)@.func.wf(),
        ensures
            retypes(
                old(self)@,
                final(self)@,
                r,
                ternary(operand1, operand2, operand3, result),
            ),
    {
        proof {
            reveal(retypes);
        }
        self.check_operands_3(operand1, operand2, operand3)?;
        self.func_state.change_frame_with_type(3, result)
    }

    /// Takes an operand.
    fn consume_1(&mut self, operand: Type) -> (r: OperatorValidatorResult<()>)
        requires
            old(self)@.func.wf(),
        ensures
            retypes(
                old(self)@,
                final(self)@,
                r,
                from_to(seq![operand], seq![]),
            ),
    {
        proof {
            reveal(retypes);
        }
        self.check_operands_1(operand)?;
        proof {
            self@.func.popped(1).lemma_nothing_pushed();
        }
        self.func_state.change_frame(1)
    }

    /// Takes two operands.
    fn consume_2(&mut self, operand1: Type, operand2: Type) -> (r: OperatorValidatorResult<()>)
        requires
            old(self)@.func.wf(),
        ensures
            retypes(
                old(self)@,
                final(self)@,
                r,
                from_to(seq![operand1, operand2], seq![]),
            ),
    {
        proof {
            reveal(retypes);
        }
        self.check_operands_2(operand1, operand2)?;
        proof {
            self@.func.popped(2).lemma_nothing_pushed();
        }
        self.func_state.change_frame(2)
    }

    /// Takes three operands.
    fn consume_3(&mut self, operand1: Type, operand2: Type, operand3: Type) -> (r:
        OperatorValidatorResult<()>)
        requires
            old(self)@.func.wf(),
        ensures
            retypes(
                old(self)@,
                final(self)@,
                r,
                from_to(seq![operand1, operand2, operand3], seq![]),
            ),
    {
        proof {
            reveal(retypes);
        }
        self.check_operands_3(operand1, operand2, operand3)?;
        proof {
            self@.func.popped(3).lemma_nothing_pushed();
        }
        self.func_state.change_frame(3)
    }

    /// The type of the local at an index.
    fn local_type_at(&self, local_index: u32) -> (r: OperatorValidatorResult<Type>)
        ensures
            agrees(r, self@.func.local_type(local_index)),
    {
        if local_index as usize >= self.func_state.local_types.len() {
            let message = format_index("unknown local ", local_index, ": local index out of bounds");
            return Err(OperatorValidatorError::new(message.as_str()));
        }
        Ok(self.func_state.local_types[local_index as usize])
    }

    /// The type of the elements of the table at an index.
    fn table_element_type<R: WasmModuleResources>(&self, table: u32, resources: &R) -> (r:
        OperatorValidatorResult<Type>)
        ensures
            agrees(r, element_type(resources@, table)),
    {
        match resources.table_at(table) {
            Some(ty) => Ok(ty.element_type),
            None => Err(OperatorValidatorError::new("table index out of bounds")),
        }
    }

    fn check_data_segment<R: WasmModuleResources>(&self, segment: u32, resources: &R) -> (r:
        OperatorValidatorResult<()>)
        ensures
            agrees(r, data_segment_check(resources@, segment)),
    {
        if segment >= resources.data_count() {
            let message = format_index("unknown data segment ", segment, "");
            return Err(OperatorValidatorError::new(message.as_str()));
        }
        Ok(())
    }

    fn check_element_segment<R: WasmModuleResources>(&self, segment: u32, resources: &R) -> (r:
        OperatorValidatorResult<()>)
        ensures
            agrees(r, element_segment_check(resources@, segment)),
    {
        if segment >= resources.element_count() {
            let message = format_index(
                "unknown elem segment ",
                segment,
                ": segment index out of bounds",
            );
            return Err(OperatorValidatorError::new(message.as_str()));
        }
        Ok(())
    }

    fn check_table_init<R: WasmModuleResources>(&self, segment: u32, table: u32, resources: &R) -> (r:
        OperatorValidatorResult<()>)
        ensures
            agrees(r, table_init_check(self@.features, resources@, segment, table)),
    {
        if table > 0 {
            self.check_reference_types_enabled()?;
        }
        let table = match resources.table_at(table) {
            Some(table) => table,
            None => {
                let message = format_index("unknown table ", table, ": table index out of bounds");
                return Err(OperatorValidatorError::new(message.as_str()));
            },
        };
        let segment_ty = match resources.element_type_at(segment) {
            Some(ty) => ty,
            None => {
                let message = format_index(
                    "unknown elem segment ",
                    segment,
                    ": segment index out of bounds",
                );
                return Err(OperatorValidatorError::new(message.as_str()));
            },
        };
        if segment_ty != table.element_type {
            return Err(OperatorValidatorError::new("type mismatch"));
        }
        Ok(())
    }

    fn check_table_copy<R: WasmModuleResources>(
        &self,
        src_table: u32,
        dst_table: u32,
        resources: &R,
    ) -> (r: OperatorValidatorResult<()>)
        ensures
            agrees(r, table_copy_check(self@.features, resources@, src_table, dst_table)),
    {
        if src_table > 0 || dst_table > 0 {
            self.check_reference_types_enabled()?;
        }
        let (src, dst) = match (resources.table_at(src_table), resources.table_at(dst_table)) {
            (Some(a), Some(b)) => (a, b),
            _ => return Err(OperatorValidatorError::new("table index out of bounds")),
        };
        if src.element_type != dst.element_type {
            return Err(OperatorValidatorError::new("type mismatch"));
        }
        Ok(())
    }

    fn check_guard(&self, guard: Guard) -> (r: OperatorValidatorResult<()>)
        ensures
            agrees(r, guard_check(self@.features, guard)),
    {
        match guard {
            Guard::Always => Ok(()),
            Guard::Float => self.check_non_deterministic_enabled(),
            Guard::Vector => self.check_simd_enabled(),
            Guard::FloatVector => {
                self.check_non_deterministic_enabled()?;
                self.check_simd_enabled()
            },
        }
    }

    /// Processes an operator of a shape.
    fn process_shape<R: WasmModuleResources>(&mut self, shape: Shape, resources: &R) -> (r:
        OperatorValidatorResult<()>)
        requires
            old(self)@.func.wf(),
        ensures
            retypes(
                old(self)@,
                final(self)@,
                r,
                shape_typing(old(self)@.features, resources@, shape),
            ),
    {
        proof {
            lemma_retypes_nothing(old(self)@);
        }
        match shape {
            Shape::Constant(guard, result) => {
                self.check_guard(guard)?;
                self.produce(result)
            },
            Shape::Unary(guard, operand, result) => {
                self.check_guard(guard)?;
                self.replace_1(operand, result)
            },
            Shape::Binary(guard, operand1, operand2, result) => {
                self.check_guard(guard)?;
                self.replace_2(operand1, operand2, result)
            },
            Shape::Ternary(guard, operand1, operand2, operand3, result) => {
                self.check_guard(guard)?;
                self.replace_3(operand1, operand2, operand3, result)
            },
            Shape::Extract(guard, lane, lanes, value) => {
                self.check_guard(guard)?;
                self.check_simd_lane_index(lane, lanes)?;
                self.replace_1(Type::V128, value)
            },
            Shape::Replace(guard, lane, lanes, value) => {
                self.check_guard(guard)?;
                self.check_simd_lane_index(lane, lanes)?;
                self.replace_2(Type::V128, value, Type::V128)
            },
            Shape::Load(guard, memarg, max_align, value) => {
                self.check_guard(guard)?;
                let ty = self.check_memarg(memarg, max_align, resources)?;
                self.replace_1(ty, value)
            },
            Shape::Store(guard, memarg, max_align, value) => {
                self.check_guard(guard)?;
                let ty = self.check_memarg(memarg, max_align, resources)?;
                self.consume_2(ty, value)
            },
            Shape::AtomicLoad(value) => {
                self.check_threads_enabled()?;
                let ty = self.check_shared_memarg_wo_align(resources)?;
                self.replace_1(ty, value)
            },
            Shape::AtomicStore(value) => {
                self.check_threads_enabled()?;
                let ty = self.check_shared_memarg_wo_align(resources)?;
                self.consume_2(ty, value)
            },
            Shape::AtomicExchange(value) => {
                self.check_threads_enabled()?;
                let ty = self.check_shared_memarg_wo_align(resources)?;
                self.replace_2(ty, value, value)
            },
            Shape::AtomicTernary(operand2, operand3, result) => {
                self.check_threads_enabled()?;
                let ty = self.check_shared_memarg_wo_align(resources)?;
                self.replace_3(ty, operand2, operand3, result)
            },
            Shape::Other => Ok(()),
        }
    }

    /// Processes a call or an operator on locals and globals. Tells whether it
    /// is one.
    fn process_variable_operator<R: WasmModuleResources>(
        &mut self,
        operator: &Operator,
        resources: &R,
    ) -> (r: OperatorValidatorResult<bool>)
        requires
            old(self)@.func.wf(),
        ensures
            handles(
                old(self)@,
                final(self)@,
                r,
                variable_typing(old(self)@.func, resources@, *operator),
            ),
    {
        proof {
            lemma_retypes_nothing(old(self)@);
        }
        match operator {
            Operator::Call { function_index } => {
                self.check_call(*function_index, resources)?;
            },
            Operator::CallIndirect { index, table_index } => {
                self.check_call_indirect(*index, *table_index, resources)?;
            },
            Operator::LocalGet { local_index } => {
                let local_type = self.local_type_at(*local_index)?;
                self.produce(local_type)?;
            },
            Operator::LocalSet { local_index } => {
                let local_type = self.local_type_at(*local_index)?;
                self.consume_1(local_type)?;
            },
            Operator::LocalTee { local_index } => {
                let local_type = self.local_type_at(*local_index)?;
                self.replace_1(local_type, local_type)?;
            },
            Operator::GlobalGet { global_index } => {
                if let Some(ty) = resources.global_at(*global_index) {
                    self.produce(ty.content_type)?;
                } else {
                    return Err(
                        OperatorValidatorError::new("unknown global: global index out of bounds"),
                    );
                }
            },
            Operator::GlobalSet { global_index } => {
                if let Some(ty) = resources.global_at(*global_index) {
                    if !ty.mutable {
                        return Err(
                            OperatorValidatorError::new(
                                "global is immutable: cannot modify it with `global.set`",
                            ),
                        );
                    }
                    self.consume_1(ty.content_type)?;
                } else {
                    return Err(
                        OperatorValidatorError::new("unknown global: global index out of bounds"),
                    );
                }
            },
            _ => {
                return Ok(false);
            },
        }
        Ok(true)
    }

    /// Processes an operator on references and on elements of tables. Tells
    /// whether it is one.
    fn process_reference_operator<R: WasmModuleResources>(
        &mut self,
        operator: &Operator,
        resources: &R,
    ) -> (r: OperatorValidatorResult<bool>)
        requires
            old(self)@.func.wf(),
        ensures
            handles(
                old(self)@,
                final(self)@,
                r,
                reference_typing(old(self)@.features, resources@, *operator),
            ),
    {
        proof {
            lemma_retypes_nothing(old(self)@);
        }
        match operator {
            Operator::RefNull { ty } => {
                self.check_reference_types_enabled()?;
                match *ty {
                    Type::FuncRef | Type::ExternRef => {},
                    _ => {
                        return Err(
                            OperatorValidatorError::new("invalid reference type in ref.null"),
                        );
                    },
                }
                self.produce(*ty)?;
            },
            Operator::RefFunc { function_index } => {
                self.check_reference_types_enabled()?;
                if resources.type_of_function(*function_index).is_none() {
                    return Err(
                        OperatorValidatorError::new(
                            "unknown function: function index out of bounds",
                        ),
                    );
                }
                if !resources.is_function_referenced(*function_index) {
                    return Err(OperatorValidatorError::new("undeclared function reference"));
                }
                self.produce(Type::FuncRef)?;
            },
            Operator::TableGet { table } => {
                self.check_reference_types_enabled()?;
                let ty = self.table_element_type(*table, resources)?;
                self.replace_1(Type::I32, ty)?;
            },
            Operator::TableSet { table } => {
                self.check_reference_types_enabled()?;
                let ty = self.table_element_type(*table, resources)?;
                self.consume_2(Type::I32, ty)?;
            },
            Operator::TableGrow { table } => {
                self.check_reference_types_enabled()?;
                let ty = self.table_element_type(*table, resources)?;
                self.replace_2(ty, Type::I32, Type::I32)?;
            },
            Operator::TableSize { table } => {
                self.check_reference_types_enabled()?;
                self.table_element_type(*table, resources)?;
                self.produce(Type::I32)?;
            },
            _ => {
                return Ok(false);
            },
        }
        Ok(true)
    }

    /// Processes an operator on ranges of memories and tables, and on segments.
    /// Tells whether it is one.
    fn process_bulk_operator<R: WasmModuleResources>(
        &mut self,
        operator: &Operator,
        resources: &R,
    ) -> (r: OperatorValidatorResult<bool>)
        requires
            old(self)@.func.wf(),
        ensures
            handles(
                old(self)@,
                final(self)@,
                r,
                bulk_typing(old(self)@.features, resources@, *operator),
            ),
    {
        proof {
            lemma_retypes_nothing(old(self)@);
        }
        match operator {
            Operator::MemoryInit { mem, segment } => {
                self.check_bulk_memory_enabled()?;
                let ty = self.check_memory_index(*mem, resources)?;
                self.check_data_segment(*segment, resources)?;
                self.consume_3(ty, Type::I32, Type::I32)?;
            },
            Operator::DataDrop { segment } => {
                self.check_bulk_memory_enabled()?;
                self.check_data_segment(*segment, resources)?;
            },
            Operator::MemoryCopy { src, dst } => {
                self.check_bulk_memory_enabled()?;
                let src_ty = self.check_memory_index(*src, resources)?;
                let dst_ty = self.check_memory_index(*dst, resources)?;
                let len_ty = match src_ty {
                    Type::I32 => Type::I32,
                    _ => dst_ty,
                };
                self.consume_3(dst_ty, src_ty, len_ty)?;
            },
            Operator::MemoryFill { mem } => {
                self.check_bulk_memory_enabled()?;
                let ty = self.check_memory_index(*mem, resources)?;
                self.consume_3(ty, Type::I32, ty)?;
            },
            Operator::TableInit { segment, table } => {
                self.check_bulk_memory_enabled()?;
                self.check_table_init(*segment, *table, resources)?;
                self.consume_3(Type::I32, Type::I32, Type::I32)?;
            },
            Operator::ElemDrop { segment } => {
                self.check_bulk_memory_enabled()?;
                self.check_element_segment(*segment, resources)?;
            },
            Operator::TableCopy { src_table, dst_table } => {
                self.check_bulk_memory_enabled()?;
                self.check_table_copy(*src_table, *dst_table, resources)?;
                self.consume_3(Type::I32, Type::I32, Type::I32)?;
            },
            Operator::TableFill { table } => {
                self.check_bulk_memory_enabled()?;
                let ty = self.table_element_type(*table, resources)?;
                self.consume_3(Type::I32, ty, Type::I32)?;
            },
            _ => {
                return Ok(false);
            },
        }
        Ok(true)
    }

    /// Processes an operator on the size of a memory, or a fence. Tells whether it
    /// is one.
    fn process_memory_operator<R: WasmModuleResources>(
        &mut self,
        operator: &Operator,
        resources: &R,
    ) -> (r: OperatorValidatorResult<bool>)
        requires
            old(self)@.func.wf(),
        ensures
            handles(
                old(self)@,
                final(self)@,
                r,
                memory_typing(old(self)@.features, resources@, *operator),
            ),
    {
        proof {
            lemma_retypes_nothing(old(self)@);
        }
        match operator {
            Operator::MemorySize { mem, mem_byte } => {
                if *mem_byte != 0 && !self.features.multi_memory {
                    return Err(OperatorValidatorError::new("multi-memory not enabled"));
                }
                let index_ty = self.check_memory_index(*mem, resources)?;
                self.produce(index_ty)?;
            },
            Operator::MemoryGrow { mem, mem_byte } => {
                if *mem_byte != 0 && !self.features.multi_memory {
                    return Err(OperatorValidatorError::new("multi-memory not enabled"));
                }
                let index_ty = self.check_memory_index(*mem, resources)?;
                self.replace_1(index_ty, index_ty)?;
            },
            Operator::AtomicFence { flags } => {
                self.check_threads_enabled()?;
                if *flags != 0 {
                    return Err(
                        OperatorValidatorError::new("non-zero flags for fence not supported yet"),
                    );
                }
            },
            _ => {
                return Ok(false);
            },
        }
        Ok(true)
    }

    /// Processes an operator whose operands and results are fixed by its
    /// immediates, the locals and the module.
    fn process_typed_operator<R: WasmModuleResources>(
        &mut self,
        operator: &Operator,
        resources: &R,
    ) -> (r: OperatorValidatorResult<()>)
        requires
            old(self)@.func.wf(),
        ensures
            retypes(
                old(self)@,
                final(self)@,
                r,
                typing(old(self)@.func, old(self)@.features, resources@, *operator),
            ),
    {
        if self.process_variable_operator(operator, resources)? {
            return Ok(());
        }
        if self.process_reference_operator(operator, resources)? {
            return Ok(());
        }
        if self.process_bulk_operator(operator, resources)? {
            return Ok(());
        }
        if self.process_memory_operator(operator, resources)? {
            return Ok(());
        }
        self.process_shape(shape_of(operator), resources)
    }

    /// Processes an operator of the flow of control, or one that takes operands
    /// of several types. Tells whether the body ended, if it is one.
    fn process_control_operator<R: WasmModuleResources>(
        &mut self,
        operator: &Operator,
        resources: &R,
    ) -> (r: OperatorValidatorResult<Option<FunctionEnd>>)
        requires
            old(self)@.func.wf(),
        ensures
            final(self)@.func.wf(),
            final(self)@.features == old(self)@.features,
            match control_step(old(self)@.func, old(self)@.features, resources@, *operator) {
                Some(step) => {
                    &&& final(self)@.func == step.state
                    &&& match (r, step.result) {
                        (Ok(end), Ok(expected)) => end == Some(expected),
                        (Err(e), Err(message)) => e.message() == message && e.has_placeholder(),
                        _ => false,
                    }
                },
                None => final(self)@.func == old(self)@.func && r == Ok::<
                    Option<FunctionEnd>,
                    OperatorValidatorError,
                >(None),
            },
    {
        proof {
            reveal(retypes);
        }
        match operator {
            Operator::Unreachable => {
                self.func_state.start_dead_code();
            },
            Operator::Nop => {},
            Operator::Block { ty } => {
                self.process_block(*ty, BlockType::Block, resources)?;
            },
            Operator::Loop { ty } => {
                self.process_block(*ty, BlockType::Loop, resources)?;
            },
            Operator::If { ty } => {
                self.process_block(*ty, BlockType::If, resources)?;
            },
            Operator::Else => {
                self.process_else()?;
            },
            Operator::End => {
                let end = self.process_end()?;
                return Ok(Some(end));
            },
            Operator::Br { relative_depth } => {
                self.check_jump_from_block(*relative_depth, 0)?;
                self.func_state.start_dead_code();
            },
            Operator::BrIf { relative_depth } => {
                self.process_br_if(*relative_depth)?;
            },
            Operator::BrTable { table } => {
                self.process_br_table(table)?;
            },
            Operator::Return => {
                self.check_return()?;
            },
            Operator::ReturnCall { function_index } => {
                self.check_tail_call_enabled()?;
                self.check_call(*function_index, resources)?;
                self.check_return()?;
            },
            Operator::ReturnCallIndirect { index, table_index } => {
                self.check_tail_call_enabled()?;
                self.check_call_indirect(*index, *table_index, resources)?;
                self.check_return()?;
            },
            Operator::Drop => {
                self.check_frame_size(1)?;
                self.func_state.change_frame(1)?;
            },
            Operator::Select => {
                self.process_select()?;
            },
            Operator::TypedSelect { ty } => {
                self.check_select(Some(*ty))?;
                self.func_state.change_frame_after_select(Some(*ty))?;
            },
            Operator::RefIsNull => {
                self.process_ref_is_null()?;
            },
            Operator::V8x16Shuffle { lanes } => {
                self.check_simd_enabled()?;
                self.check_operands_2(Type::V128, Type::V128)?;
                self.check_simd_lane_indices(lanes, 32)?;
                self.replace_2(Type::V128, Type::V128, Type::V128)?;
            },
            _ => {
                return Ok(None);
            },
        }
        Ok(Some(FunctionEnd::No))
    }

    /// Processes the next operator of the body.
    pub fn process_operator<R: WasmModuleResources>(
        &mut self,
        operator: &Operator,
        resources: &R,
    ) -> (r: OperatorValidatorResult<FunctionEnd>)
        requires
            old(self)@.func.wf(),
        ensures
            final(self)@.func.wf(),
            final(self)@.features == old(self)@.features,
            final(self)@.func == step(
                old(self)@.func,
                old(self)@.features,
                resources@,
                *operator,
            ).state,
            agrees(
                r,
                step(old(self)@.func, old(self)@.features, resources@, *operator).result,
            ),
            match (r, step(old(self)@.func, old(self)@.features, resources@, *operator).result) {
                (Ok(end), Ok(expected)) => end == expected,
                (Err(e), Err(message)) => e.0.message@ == message && e.0.offset == usize::MAX,
                _ => false,
            },
    {
        proof {
            reveal(retypes);
        }
        if self.func_state.end_function {
            return Err(OperatorValidatorError::new("unexpected operator"));
        }
        match self.process_control_operator(operator, resources)? {
            Some(end) => Ok(end),
            None => {
                self.process_typed_operator(operator, resources)?;
                Ok(FunctionEnd::No)
            },
        }
    }
}

} // verus!
