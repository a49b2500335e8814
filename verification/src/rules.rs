//! What each operator does to the state, and when it is refused.

use vstd::prelude::*;

use crate::checks::{block_type_check, memarg_type, memory_index_type};
use crate::error::{BinaryReaderError, Verdict};
use crate::features::{require, WasmFeatures};
use crate::model::FuncModel;
use crate::operators_validator::FunctionEnd;
use crate::primitives::{BlockType, BrTable, Operator, SIMDLaneIndex, Type, TypeOrFuncType};
use crate::resources::{FuncSignature, ModuleModel};
use crate::shapes::{shape, Guard, Shape};
use crate::text::indexed;

verus! {

/// What the processing of an operator comes to: the state that follows, and
/// whether the body ended, or the message that the operator is refused with.
#[verifier::ext_equal]
pub struct Step {
    pub state: FuncModel,
    pub result: Verdict<FunctionEnd>,
}

/// The body goes on in `state`.
pub open spec fn proceed(state: FuncModel) -> Step {
    Step { state, result: Ok(FunctionEnd::No) }
}

/// The operator is refused in `state`.
pub open spec fn refuse(state: FuncModel, message: Seq<char>) -> Step {
    Step { state, result: Err(message) }
}

/// `step` if `check` succeeds; otherwise `state` stays.
pub open spec fn step_if(state: FuncModel, check: Verdict<()>, step: Step) -> Step {
    match check {
        Ok(_) => step,
        Err(message) => refuse(state, message),
    }
}

/// The operator takes operands of the types `operands` and leaves results of
/// the types `results`.
pub open spec fn retyped(state: FuncModel, operands: Seq<Type>, results: Seq<Type>) -> Step {
    step_if(
        state,
        state.operands_check(operands),
        proceed(state.popped(operands.len() as int).pushed(results)),
    )
}

/// The operator takes and leaves operands as `typing` says, or is refused
/// whatever the operands are.
pub open spec fn typed(state: FuncModel, typing: Verdict<FuncSignature>) -> Step {
    match typing {
        Ok(typing) => retyped(state, typing.inputs, typing.outputs),
        Err(message) => refuse(state, message),
    }
}

/// `typing` if `check` succeeds.
pub open spec fn provided(check: Verdict<()>, typing: Verdict<FuncSignature>) -> Verdict<
    FuncSignature,
> {
    match check {
        Ok(_) => typing,
        Err(message) => Err(message),
    }
}

/// The typing of an atomic operator.
pub open spec fn atomic_op(features: WasmFeatures, typing: Verdict<FuncSignature>) -> Verdict<
    FuncSignature,
> {
    provided(features.threads_check(), typing)
}

/// The typing of an operator on references.
pub open spec fn reference_op(features: WasmFeatures, typing: Verdict<FuncSignature>) -> Verdict<
    FuncSignature,
> {
    provided(features.reference_types_check(), typing)
}

/// The typing of an operator on a range of a memory or a table.
pub open spec fn bulk_op(features: WasmFeatures, typing: Verdict<FuncSignature>) -> Verdict<
    FuncSignature,
> {
    provided(features.bulk_memory_check(), typing)
}

/// From operands of the types `inputs` to results of the types `outputs`.
pub open spec fn from_to(inputs: Seq<Type>, outputs: Seq<Type>) -> Verdict<FuncSignature> {
    Ok(FuncSignature { inputs, outputs })
}

pub open spec fn constant(result: Type) -> Verdict<FuncSignature> {
    from_to(seq![], seq![result])
}

pub open spec fn unary(operand: Type, result: Type) -> Verdict<FuncSignature> {
    from_to(seq![operand], seq![result])
}

pub open spec fn binary(operand1: Type, operand2: Type, result: Type) -> Verdict<FuncSignature> {
    from_to(seq![operand1, operand2], seq![result])
}

pub open spec fn ternary(
    operand1: Type,
    operand2: Type,
    operand3: Type,
    result: Type,
) -> Verdict<FuncSignature> {
    from_to(seq![operand1, operand2, operand3], seq![result])
}

/// From an address to the value there.
pub open spec fn load(address: Verdict<Type>, value: Type) -> Verdict<FuncSignature> {
    match address {
        Ok(address) => unary(address, value),
        Err(message) => Err(message),
    }
}

/// From an address and a value to nothing.
pub open spec fn store(address: Verdict<Type>, value: Type) -> Verdict<FuncSignature> {
    match address {
        Ok(address) => from_to(seq![address, value], seq![]),
        Err(message) => Err(message),
    }
}

/// From an address and a value to a value of the same type.
pub open spec fn exchange(address: Verdict<Type>, value: Type) -> Verdict<FuncSignature> {
    match address {
        Ok(address) => binary(address, value, value),
        Err(message) => Err(message),
    }
}

/// From an address and two values to a value.
pub open spec fn exchange_if(
    address: Verdict<Type>,
    operand2: Type,
    operand3: Type,
    result: Type,
) -> Verdict<FuncSignature> {
    match address {
        Ok(address) => ternary(address, operand2, operand3, result),
        Err(message) => Err(message),
    }
}

/// `lane` is below `max`.
pub open spec fn lane_check(lane: SIMDLaneIndex, max: u8) -> Verdict<()> {
    require(lane < max, "SIMD index out of bounds"@)
}

/// Every lane is below `max`.
pub open spec fn lanes_check(lanes: Seq<SIMDLaneIndex>, max: u8) -> Verdict<()> {
    require(
        forall|i: int| 0 <= i < lanes.len() ==> #[trigger] lanes[i] < max,
        "SIMD index out of bounds"@,
    )
}

/// The typing of a call of the function at an index.
pub open spec fn call_typing(module: ModuleModel, function_index: u32) -> Verdict<FuncSignature> {
    match module.functions.get(function_index) {
        Some(signature) => Ok(signature),
        None => Err(
            indexed("unknown function "@, function_index, ": function index out of bounds"@),
        ),
    }
}

/// The typing of a call through a table: the index of the function lies above
/// its arguments.
pub open spec fn call_indirect_typing(
    module: ModuleModel,
    index: u32,
    table_index: u32,
) -> Verdict<FuncSignature> {
    if module.tables.get(table_index) is None {
        Err("unknown table: table index out of bounds"@)
    } else {
        match module.func_type(index) {
            Ok(signature) => from_to(signature.inputs.push(Type::I32), signature.outputs),
            Err(message) => Err(message),
        }
    }
}

/// The type of the elements of the table at an index.
pub open spec fn element_type(module: ModuleModel, table: u32) -> Verdict<Type> {
    match module.tables.get(table) {
        Some(table) => Ok(table.element_type),
        None => Err("table index out of bounds"@),
    }
}

/// There is a data segment at an index.
pub open spec fn data_segment_check(module: ModuleModel, segment: u32) -> Verdict<()> {
    require(segment < module.data_count, indexed("unknown data segment "@, segment, ""@))
}

/// There is an element segment at an index.
pub open spec fn element_segment_check(module: ModuleModel, segment: u32) -> Verdict<()> {
    require(
        segment < module.element_count,
        indexed("unknown elem segment "@, segment, ": segment index out of bounds"@),
    )
}

/// An element segment can be copied into a table.
pub open spec fn table_init_check(
    features: WasmFeatures,
    module: ModuleModel,
    segment: u32,
    table: u32,
) -> Verdict<()> {
    if table > 0 && !features.reference_types {
        features.reference_types_check()
    } else {
        match (module.tables.get(table), module.elements.get(segment)) {
            (None, _) => Err(indexed("unknown table "@, table, ": table index out of bounds"@)),
            (_, None) => Err(
                indexed("unknown elem segment "@, segment, ": segment index out of bounds"@),
            ),
            (Some(table), Some(ty)) => require(ty == table.element_type, "type mismatch"@),
        }
    }
}

/// A range of one table can be copied to another.
pub open spec fn table_copy_check(
    features: WasmFeatures,
    module: ModuleModel,
    src_table: u32,
    dst_table: u32,
) -> Verdict<()> {
    if (src_table > 0 || dst_table > 0) && !features.reference_types {
        features.reference_types_check()
    } else {
        match (module.tables.get(src_table), module.tables.get(dst_table)) {
            (Some(src), Some(dst)) => require(
                src.element_type == dst.element_type,
                "type mismatch"@,
            ),
            _ => Err("table index out of bounds"@),
        }
    }
}

/// The typing of an operator that copies a range of a memory.
pub open spec fn memory_copy_typing(
    features: WasmFeatures,
    module: ModuleModel,
    src: u32,
    dst: u32,
) -> Verdict<FuncSignature> {
    match (memory_index_type(features, module, src), memory_index_type(features, module, dst)) {
        (Err(message), _) => Err(message),
        (Ok(_), Err(message)) => Err(message),
        (Ok(src), Ok(dst)) => {
            let len = if src is I32 {
                Type::I32
            } else {
                dst
            };
            from_to(seq![dst, src, len], seq![])
        },
    }
}

/// The typing of an operator on the size of a memory.
pub open spec fn memory_size_typing(
    features: WasmFeatures,
    module: ModuleModel,
    mem: u32,
    mem_byte: u8,
    grow: bool,
) -> Verdict<FuncSignature> {
    if mem_byte != 0 && !features.multi_memory {
        Err("multi-memory not enabled"@)
    } else {
        match memory_index_type(features, module, mem) {
            Ok(ty) => if grow {
                unary(ty, ty)
            } else {
                constant(ty)
            },
            Err(message) => Err(message),
        }
    }
}

/// The features that operators of fixed types depend on are enabled.
pub open spec fn guard_check(features: WasmFeatures, guard: Guard) -> Verdict<()> {
    let float = features.non_deterministic_check();
    match guard {
        Guard::Always => Ok(()),
        Guard::Float => float,
        Guard::Vector => features.simd_check(),
        Guard::FloatVector => if float is Err {
            float
        } else {
            features.simd_check()
        },
    }
}

/// `typing` if the features are enabled.
pub open spec fn guarded(
    features: WasmFeatures,
    guard: Guard,
    typing: Verdict<FuncSignature>,
) -> Verdict<FuncSignature> {
    provided(guard_check(features, guard), typing)
}

/// The typing of the operators of a shape.
pub open spec fn shape_typing(
    features: WasmFeatures,
    module: ModuleModel,
    shape: Shape,
) -> Verdict<FuncSignature> {
    match shape {
        Shape::Constant(guard, result) => guarded(features, guard, constant(result)),
        Shape::Unary(guard, operand, result) => guarded(features, guard, unary(operand, result)),
        Shape::Binary(guard, operand1, operand2, result) => guarded(
            features,
            guard,
            binary(operand1, operand2, result),
        ),
        Shape::Ternary(guard, operand1, operand2, operand3, result) => guarded(
            features,
            guard,
            ternary(operand1, operand2, operand3, result),
        ),
        Shape::Extract(guard, lane, lanes, value) => guarded(
            features,
            guard,
            provided(lane_check(lane, lanes), unary(Type::V128, value)),
        ),
        Shape::Replace(guard, lane, lanes, value) => guarded(
            features,
            guard,
            provided(lane_check(lane, lanes), binary(Type::V128, value, Type::V128)),
        ),
        Shape::Load(guard, memarg, max_align, value) => guarded(
            features,
            guard,
            load(memarg_type(features, module, memarg, max_align), value),
        ),
        Shape::Store(guard, memarg, max_align, value) => guarded(
            features,
            guard,
            store(memarg_type(features, module, memarg, max_align), value),
        ),
        Shape::AtomicLoad(value) => atomic_op(
            features,
            load(memory_index_type(features, module, 0), value),
        ),
        Shape::AtomicStore(value) => atomic_op(
            features,
            store(memory_index_type(features, module, 0), value),
        ),
        Shape::AtomicExchange(value) => atomic_op(
            features,
            exchange(memory_index_type(features, module, 0), value),
        ),
        Shape::AtomicTernary(operand2, operand3, result) => atomic_op(
            features,
            exchange_if(memory_index_type(features, module, 0), operand2, operand3, result),
        ),
        Shape::Other => from_to(seq![], seq![]),
    }
}

/// The typing of a call and of an operator on locals and globals.
pub open spec fn variable_typing(
    state: FuncModel,
    module: ModuleModel,
    operator: Operator,
) -> Option<Verdict<FuncSignature>> {
    match operator {
        Operator::Call { function_index } => Some(call_typing(module, function_index)),
        Operator::CallIndirect { index, table_index } => Some(call_indirect_typing(
            module,
            index,
            table_index,
        )),
        Operator::LocalGet { local_index } => Some(match state.local_type(local_index) {
            Ok(ty) => constant(ty),
            Err(message) => Err(message),
        }),
        Operator::LocalSet { local_index } => Some(match state.local_type(local_index) {
            Ok(ty) => from_to(seq![ty], seq![]),
            Err(message) => Err(message),
        }),
        Operator::LocalTee { local_index } => Some(match state.local_type(local_index) {
            Ok(ty) => unary(ty, ty),
            Err(message) => Err(message),
        }),
        Operator::GlobalGet { global_index } => Some(match module.globals.get(global_index) {
            Some(global) => constant(global.content_type),
            None => Err("unknown global: global index out of bounds"@),
        }),
        Operator::GlobalSet { global_index } => Some(match module.globals.get(global_index) {
            Some(global) => if !global.mutable {
                Err("global is immutable: cannot modify it with `global.set`"@)
            } else {
                from_to(seq![global.content_type], seq![])
            },
            None => Err("unknown global: global index out of bounds"@),
        }),
        _ => None,
    }
}

/// The typing of an operator on references and on elements of tables.
pub open spec fn reference_typing(
    features: WasmFeatures,
    module: ModuleModel,
    operator: Operator,
) -> Option<Verdict<FuncSignature>> {
    match operator {
        Operator::RefNull { ty } => Some(reference_op(
            features,
            if ty is FuncRef || ty is ExternRef {
                constant(ty)
            } else {
                Err("invalid reference type in ref.null"@)
            },
        )),
        Operator::RefFunc { function_index } => Some(reference_op(
            features,
            if module.functions.get(function_index) is None {
                Err("unknown function: function index out of bounds"@)
            } else if !module.referenced_functions.contains(function_index) {
                Err("undeclared function reference"@)
            } else {
                constant(Type::FuncRef)
            },
        )),
        Operator::TableGet { table } => Some(reference_op(
            features,
            match element_type(module, table) {
                Ok(ty) => unary(Type::I32, ty),
                Err(message) => Err(message),
            },
        )),
        Operator::TableSet { table } => Some(reference_op(
            features,
            match element_type(module, table) {
                Ok(ty) => from_to(seq![Type::I32, ty], seq![]),
                Err(message) => Err(message),
            },
        )),
        Operator::TableGrow { table } => Some(reference_op(
            features,
            match element_type(module, table) {
                Ok(ty) => binary(ty, Type::I32, Type::I32),
                Err(message) => Err(message),
            },
        )),
        Operator::TableSize { table } => Some(reference_op(
            features,
            match element_type(module, table) {
                Ok(_) => constant(Type::I32),
                Err(message) => Err(message),
            },
        )),
        _ => None,
    }
}

/// The typing of an operator on ranges of memories and tables, and on segments.
pub open spec fn bulk_typing(
    features: WasmFeatures,
    module: ModuleModel,
    operator: Operator,
) -> Option<Verdict<FuncSignature>> {
    match operator {
        Operator::MemoryInit { mem, segment } => Some(bulk_op(
            features,
            match memory_index_type(features, module, mem) {
                Ok(ty) => provided(
                    data_segment_check(module, segment),
                    from_to(seq![ty, Type::I32, Type::I32], seq![]),
                ),
                Err(message) => Err(message),
            },
        )),
        Operator::DataDrop { segment } => Some(bulk_op(
            features,
            provided(data_segment_check(module, segment), from_to(seq![], seq![])),
        )),
        Operator::MemoryCopy { src, dst } => Some(bulk_op(
            features,
            memory_copy_typing(features, module, src, dst),
        )),
        Operator::MemoryFill { mem } => Some(bulk_op(
            features,
            match memory_index_type(features, module, mem) {
                Ok(ty) => from_to(seq![ty, Type::I32, ty], seq![]),
                Err(message) => Err(message),
            },
        )),
        Operator::TableInit { segment, table } => Some(bulk_op(
            features,
            provided(
                table_init_check(features, module, segment, table),
                from_to(seq![Type::I32, Type::I32, Type::I32], seq![]),
            ),
        )),
        Operator::ElemDrop { segment } => Some(bulk_op(
            features,
            provided(element_segment_check(module, segment), from_to(seq![], seq![])),
        )),
        Operator::TableCopy { src_table, dst_table } => Some(bulk_op(
            features,
            provided(
                table_copy_check(features, module, src_table, dst_table),
                from_to(seq![Type::I32, Type::I32, Type::I32], seq![]),
            ),
        )),
        Operator::TableFill { table } => Some(bulk_op(
            features,
            match element_type(module, table) {
                Ok(ty) => from_to(seq![Type::I32, ty, Type::I32], seq![]),
                Err(message) => Err(message),
            },
        )),
        _ => None,
    }
}

/// The typing of an operator on the size of a memory, and of a fence.
pub open spec fn memory_typing(
    features: WasmFeatures,
    module: ModuleModel,
    operator: Operator,
) -> Option<Verdict<FuncSignature>> {
    match operator {
        Operator::MemorySize { mem, mem_byte } => Some(memory_size_typing(
            features,
            module,
            mem,
            mem_byte,
            false,
        )),
        Operator::MemoryGrow { mem, mem_byte } => Some(memory_size_typing(
            features,
            module,
            mem,
            mem_byte,
            true,
        )),
        Operator::AtomicFence { flags } => Some(atomic_op(
            features,
            if flags != 0 {
                Err("non-zero flags for fence not supported yet"@)
            } else {
                from_to(seq![], seq![])
            },
        )),
        _ => None,
    }
}

/// The typing of an operator whose operands and results are fixed by its
/// immediates, the locals and the module.
pub open spec fn typing(
    state: FuncModel,
    features: WasmFeatures,
    module: ModuleModel,
    operator: Operator,
) -> Verdict<FuncSignature> {
    match variable_typing(state, module, operator) {
        Some(typing) => typing,
        None => match reference_typing(features, module, operator) {
            Some(typing) => typing,
            None => match bulk_typing(features, module, operator) {
                Some(typing) => typing,
                None => match memory_typing(features, module, operator) {
                    Some(typing) => typing,
                    None => shape_typing(features, module, shape(operator)),
                },
            },
        },
    }
}

/// The beginning of a block.
pub open spec fn block_step(
    state: FuncModel,
    features: WasmFeatures,
    module: ModuleModel,
    ty: TypeOrFuncType,
    block_type: BlockType,
) -> Step {
    match (block_type_check(features, module, ty), module.block_signature(ty)) {
        (Err(message), _) => refuse(state, message),
        (Ok(_), Err(message)) => refuse(state, message),
        (Ok(_), Ok(signature)) => {
            let entered = proceed(state.entered(block_type, signature));
            if block_type is If {
                step_if(
                    state,
                    state.operands_check(seq![Type::I32]),
                    step_if(state, state.block_params_check(signature.inputs, 1), entered),
                )
            } else {
                step_if(state, state.block_params_check(signature.inputs, 0), entered)
            }
        },
    }
}

/// The beginning of the `else` branch.
pub open spec fn else_step(state: FuncModel, features: WasmFeatures) -> Step {
    if !state.last_block().is_else_allowed {
        refuse(state, "unexpected else: if block is not started"@)
    } else {
        step_if(state, state.block_return_check(features), proceed(state.in_else()))
    }
}

/// The end of a block, or of the body.
pub open spec fn end_step(state: FuncModel, features: WasmFeatures) -> Step {
    let block = state.last_block();
    step_if(
        state,
        state.block_return_check(features),
        if state.blocks.len() == 1 {
            Step { state: state.ended(), result: Ok(FunctionEnd::Yes) }
        } else if block.is_else_allowed && block.start_types != block.return_types {
            refuse(
                state,
                "type mismatch: else is expected: if block has a type that can't be implemented with a no-op"@,
            )
        } else {
            proceed(state.left())
        },
    )
}

/// A jump.
pub open spec fn br_step(state: FuncModel, features: WasmFeatures, depth: u32) -> Step {
    step_if(
        state,
        state.jump_check(features, depth as int, 0),
        proceed(state.in_dead_code()),
    )
}

/// A jump on a condition.
pub open spec fn br_if_step(state: FuncModel, features: WasmFeatures, depth: u32) -> Step {
    let rest = state.popped(1);
    step_if(
        state,
        state.operands_check(seq![Type::I32]),
        step_if(
            state,
            state.jump_check(features, depth as int, 1),
            proceed(
                if rest.polymorphic() {
                    rest.exact_types_from(depth as int)
                } else {
                    rest
                },
            ),
        ),
    )
}

/// The check of the entry of a jump table at `i`: the first must be a target of
/// a jump, the others go together with the first.
pub open spec fn br_table_entry_check(
    state: FuncModel,
    features: WasmFeatures,
    entries: Seq<Result<(u32, bool), BinaryReaderError>>,
    i: int,
) -> Verdict<()> {
    match entries[i] {
        Err(e) => Err(e.message@),
        Ok((depth, _)) => if i == 0 {
            state.jump_check(features, depth as int, 1)
        } else {
            state.same_label_check(depth as int, (entries[0]->Ok_0).0 as int)
        },
    }
}

/// The check of the first `n` entries of a jump table: that of the first entry
/// that fails, if any does.
pub open spec fn br_table_check(
    state: FuncModel,
    features: WasmFeatures,
    entries: Seq<Result<(u32, bool), BinaryReaderError>>,
    n: nat,
) -> Verdict<()>
    decreases n,
{
    if n == 0 {
        Ok(())
    } else {
        match br_table_check(state, features, entries, (n - 1) as nat) {
            Err(message) => Err(message),
            Ok(_) => br_table_entry_check(state, features, entries, n - 1),
        }
    }
}

/// A jump table fails with the failure of its first entries.
pub proof fn lemma_br_table_check_fails(
    state: FuncModel,
    features: WasmFeatures,
    entries: Seq<Result<(u32, bool), BinaryReaderError>>,
    m: nat,
    n: nat,
)
    requires
        m <= n,
    ensures
        br_table_check(state, features, entries, m) is Err ==> br_table_check(
            state,
            features,
            entries,
            n,
        ) == br_table_check(state, features, entries, m),
    decreases n,
{
    if m < n {
        lemma_br_table_check_fails(state, features, entries, m, (n - 1) as nat);
    }
}

/// A jump through a table.
pub open spec fn br_table_step(state: FuncModel, features: WasmFeatures, table: BrTable) -> Step {
    step_if(
        state,
        state.operands_check(seq![Type::I32]),
        step_if(
            state,
            br_table_check(state, features, table.entries@, table.entries@.len()),
            proceed(state.in_dead_code()),
        ),
    )
}

/// A jump out of the function.
pub open spec fn return_step(state: FuncModel, features: WasmFeatures) -> Step {
    br_step(state, features, (state.blocks.len() - 1) as u32)
}

/// A call that takes the place of the caller. Where the results of the callee
/// are not those of the caller, the call is made all the same.
pub open spec fn return_call_step(
    state: FuncModel,
    features: WasmFeatures,
    typing: Verdict<FuncSignature>,
) -> Step {
    let call = typed(state, typing);
    step_if(
        state,
        features.tail_call_check(),
        if call.result is Ok {
            return_step(call.state, features)
        } else {
            call
        },
    )
}

/// A choice between two operands of a numeric type.
pub open spec fn select_step(state: FuncModel) -> Step {
    match state.select_check(None) {
        Err(message) => refuse(state, message),
        Ok(ty) => match ty {
            Some(Type::I32) | Some(Type::I64) | Some(Type::F32) | Some(Type::F64) | None => proceed(
                state.selected(ty),
            ),
            _ => refuse(
                state,
                "type mismatch: only integer types allowed with bare `select`"@,
            ),
        },
    }
}

/// A choice between two operands of type `ty`.
pub open spec fn typed_select_step(state: FuncModel, ty: Type) -> Step {
    match state.select_check(Some(ty)) {
        Err(message) => refuse(state, message),
        Ok(_) => proceed(state.selected(Some(ty))),
    }
}

/// A test of a reference of any type.
pub open spec fn ref_is_null_step(state: FuncModel, features: WasmFeatures) -> Step {
    step_if(
        state,
        features.reference_types_check(),
        step_if(
            state,
            state.frame_size_check(1),
            match state.type_at(0) {
                None | Some(Type::FuncRef) | Some(Type::ExternRef) => proceed(
                    state.popped(1).pushed(seq![Type::I32]),
                ),
                _ => refuse(state, "type mismatch: invalid reference type in ref.is_null"@),
            },
        ),
    )
}

/// A choice of lanes from two vectors.
pub open spec fn shuffle_step(
    state: FuncModel,
    features: WasmFeatures,
    lanes: Seq<SIMDLaneIndex>,
) -> Step {
    let operands = seq![Type::V128, Type::V128];
    step_if(
        state,
        features.simd_check(),
        step_if(
            state,
            state.operands_check(operands),
            step_if(
                state,
                lanes_check(lanes, 32),
                retyped(state, operands, seq![Type::V128]),
            ),
        ),
    )
}

/// What an operator of the flow of control comes to, and one that takes operands
/// of several types.
pub open spec fn control_step(
    state: FuncModel,
    features: WasmFeatures,
    module: ModuleModel,
    operator: Operator,
) -> Option<Step> {
    match operator {
        Operator::Unreachable => Some(proceed(state.in_dead_code())),
        Operator::Nop => Some(proceed(state)),
        Operator::Block { ty } => Some(block_step(state, features, module, ty, BlockType::Block)),
        Operator::Loop { ty } => Some(block_step(state, features, module, ty, BlockType::Loop)),
        Operator::If { ty } => Some(block_step(state, features, module, ty, BlockType::If)),
        Operator::Else => Some(else_step(state, features)),
        Operator::End => Some(end_step(state, features)),
        Operator::Br { relative_depth } => Some(br_step(state, features, relative_depth)),
        Operator::BrIf { relative_depth } => Some(br_if_step(state, features, relative_depth)),
        Operator::BrTable { table } => Some(br_table_step(state, features, table)),
        Operator::Return => Some(return_step(state, features)),
        Operator::ReturnCall { function_index } => Some(
            return_call_step(state, features, call_typing(module, function_index)),
        ),
        Operator::ReturnCallIndirect { index, table_index } => Some(
            return_call_step(state, features, call_indirect_typing(module, index, table_index)),
        ),
        Operator::Drop => Some(
            step_if(state, state.frame_size_check(1), proceed(state.popped(1))),
        ),
        Operator::Select => Some(select_step(state)),
        Operator::TypedSelect { ty } => Some(typed_select_step(state, ty)),
        Operator::RefIsNull => Some(ref_is_null_step(state, features)),
        Operator::V8x16Shuffle { lanes } => Some(shuffle_step(state, features, lanes@)),
        _ => None,
    }
}

/// What processing `operator` in `state` comes to.
pub open spec fn step(
    state: FuncModel,
    features: WasmFeatures,
    module: ModuleModel,
    operator: Operator,
) -> Step {
    if state.end_function {
        refuse(state, "unexpected operator"@)
    } else {
        match control_step(state, features, module, operator) {
            Some(step) => step,
            None => typed(state, typing(state, features, module, operator)),
        }
    }
}

} // verus!
