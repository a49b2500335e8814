//! What holds of validation as a whole.

use vstd::prelude::*;

use crate::checks::locals_check;
use crate::error::{BinaryReaderError, Verdict};
use crate::features::WasmFeatures;
use crate::model::{min, BlockModel, FuncModel};
use crate::operators_validator::FunctionEnd;
use crate::primitives::{BlockType, Operator, Type, TypeOrFuncType};
use crate::resources::{FuncSignature, ModuleModel};
use crate::rules::{
    block_step, br_if_step, br_step, br_table_check, br_table_entry_check, bulk_typing,
    call_indirect_typing, call_typing, control_step, end_step, memory_typing, reference_typing,
    retyped, return_call_step, shape_typing, step, typed, typing, variable_typing, Step,
};
use crate::shapes::{shape, Shape};

verus! {

/// `a` and `b` are one block, at different points of its body.
pub open spec fn same_block(a: BlockModel, b: BlockModel) -> bool {
    &&& a.start_types == b.start_types
    &&& a.return_types == b.return_types
    &&& a.stack_starts_at == b.stack_starts_at
    &&& a.jump_to_top == b.jump_to_top
}

/// From `before` to `after` nothing was done but in the innermost block of
/// `before`: the locals, the blocks around it, and the operands of these are the
/// same, and it is the same block if it is still open.
pub open spec fn stays_inside(before: FuncModel, after: FuncModel) -> bool {
    let outer = before.blocks.len() - 1;
    let base = before.base() as int;
    &&& after.local_types == before.local_types
    &&& after.blocks.len() >= outer
    &&& forall|i: int| 0 <= i < outer ==> #[trigger] after.blocks[i] == before.blocks[i]
    &&& after.blocks.len() > outer ==> same_block(after.blocks[outer], before.last_block())
    &&& after.stack_types.len() >= base
    &&& forall|i: int| 0 <= i < base ==> #[trigger] after.stack_types[i] == before.stack_types[i]
}

proof fn lemma_popped(state: FuncModel, n: int)
    requires
        state.wf(),
        n >= 0,
        state.has_operands(n),
    ensures
        state.popped(n).wf(),
        stays_inside(state, state.popped(n)),
        state.popped(n).blocks.len() == state.blocks.len(),
        state.popped(n).end_function == state.end_function,
{
}

proof fn lemma_pushed(state: FuncModel, types: Seq<Type>)
    requires
        state.wf(),
    ensures
        state.pushed(types).wf(),
        stays_inside(state, state.pushed(types)),
{
}

proof fn lemma_typed(state: FuncModel, typing: Verdict<FuncSignature>)
    requires
        state.wf(),
    ensures
        typed(state, typing).state.wf(),
        stays_inside(state, typed(state, typing).state),
        typed(state, typing).state.blocks.len() == state.blocks.len(),
        typed(state, typing).state.end_function == state.end_function,
        typed(state, typing).result is Err ==> typed(state, typing).state == state,
        typed(state, typing).result is Ok ==> typed(state, typing).result->Ok_0 is No,
{
    if let Ok(signature) = typing {
        let n = signature.inputs.len() as int;
        if state.has_operands(n) {
            lemma_popped(state, n);
            lemma_pushed(state.popped(n), signature.outputs);
        }
    }
}

proof fn lemma_in_dead_code(state: FuncModel)
    requires
        state.wf(),
    ensures
        state.in_dead_code().wf(),
        stays_inside(state, state.in_dead_code()),
{
}

proof fn lemma_entered(state: FuncModel, block_type: BlockType, signature: FuncSignature)
    requires
        state.wf(),
        block_type is If ==> state.has_operands(1),
        state.before_params(block_type).has_operands(signature.inputs.len() as int),
    ensures
        state.entered(block_type, signature).wf(),
        stays_inside(state, state.entered(block_type, signature)),
{
}

proof fn lemma_left(state: FuncModel)
    requires
        state.wf(),
        state.blocks.len() > 1,
    ensures
        state.left().wf(),
        stays_inside(state, state.left()),
{
}

proof fn lemma_in_else(state: FuncModel)
    requires
        state.wf(),
    ensures
        state.in_else().wf(),
        stays_inside(state, state.in_else()),
{
}

proof fn lemma_exact_types_from(state: FuncModel, depth: int)
    requires
        state.wf(),
    ensures
        state.exact_types_from(depth).wf(),
        stays_inside(state, state.exact_types_from(depth)),
{
}

proof fn lemma_selected(state: FuncModel, ty: Option<Type>)
    requires
        state.wf(),
        state.has_operands(3),
    ensures
        state.selected(ty).wf(),
        stays_inside(state, state.selected(ty)),
{
    lemma_popped(state, 3);
    if let Some(ty) = ty {
        lemma_pushed(state.popped(3), seq![ty]);
    }
}

/// What a step from `state` keeps, whatever the operator is.
spec fn regular(state: FuncModel, step: Step) -> bool {
    &&& step.state.wf()
    &&& stays_inside(state, step.state)
    &&& step.state.end_function == (state.end_function || step.result == Ok::<
        FunctionEnd,
        Seq<char>,
    >(FunctionEnd::Yes))
}

proof fn lemma_br(state: FuncModel, features: WasmFeatures, depth: u32)
    requires
        state.wf(),
        !state.end_function,
    ensures
        regular(state, br_step(state, features, depth)),
{
    lemma_in_dead_code(state);
}

proof fn lemma_return_call(
    state: FuncModel,
    features: WasmFeatures,
    typing: Verdict<FuncSignature>,
)
    requires
        state.wf(),
        !state.end_function,
    ensures
        regular(state, return_call_step(state, features, typing)),
{
    lemma_typed(state, typing);
    let call = typed(state, typing);
    lemma_br(call.state, features, (call.state.blocks.len() - 1) as u32);
}

proof fn lemma_block(
    state: FuncModel,
    features: WasmFeatures,
    module: ModuleModel,
    ty: TypeOrFuncType,
    block_type: BlockType,
)
    requires
        state.wf(),
        !state.end_function,
    ensures
        regular(state, block_step(state, features, module, ty, block_type)),
{
    if let Ok(signature) = module.block_signature(ty) {
        if block_step(state, features, module, ty, block_type).result is Ok {
            state.lemma_params_stay_accepted(block_type, signature.inputs);
            lemma_entered(state, block_type, signature);
        }
    }
}

proof fn lemma_end(state: FuncModel, features: WasmFeatures)
    requires
        state.wf(),
        !state.end_function,
    ensures
        regular(state, end_step(state, features)),
{
    if state.blocks.len() > 1 {
        lemma_left(state);
    }
}

proof fn lemma_br_if(state: FuncModel, features: WasmFeatures, depth: u32)
    requires
        state.wf(),
        !state.end_function,
    ensures
        regular(state, br_if_step(state, features, depth)),
{
    if state.has_operands(1) {
        lemma_popped(state, 1);
        lemma_exact_types_from(state.popped(1), depth as int);
    }
}

proof fn lemma_control(
    state: FuncModel,
    features: WasmFeatures,
    module: ModuleModel,
    operator: Operator,
)
    requires
        state.wf(),
        !state.end_function,
    ensures
        control_step(state, features, module, operator) matches Some(step) ==> regular(state, step),
{
    lemma_in_dead_code(state);
    match operator {
        Operator::Block { ty } => lemma_block(state, features, module, ty, BlockType::Block),
        Operator::Loop { ty } => lemma_block(state, features, module, ty, BlockType::Loop),
        Operator::If { ty } => lemma_block(state, features, module, ty, BlockType::If),
        Operator::Else => lemma_in_else(state),
        Operator::End => lemma_end(state, features),
        Operator::BrIf { relative_depth } => lemma_br_if(state, features, relative_depth),
        Operator::ReturnCall { function_index } => lemma_return_call(
            state,
            features,
            call_typing(module, function_index),
        ),
        Operator::ReturnCallIndirect { index, table_index } => lemma_return_call(
            state,
            features,
            call_indirect_typing(module, index, table_index),
        ),
        Operator::Drop => {
            if state.has_operands(1) {
                lemma_popped(state, 1);
            }
        },
        Operator::Select => {
            if let Ok(ty) = state.select_check(None) {
                lemma_selected(state, ty);
            }
        },
        Operator::TypedSelect { ty } => {
            if let Ok(_) = state.select_check(Some(ty)) {
                lemma_selected(state, Some(ty));
            }
        },
        Operator::RefIsNull => {
            if state.has_operands(1) {
                lemma_popped(state, 1);
                lemma_pushed(state.popped(1), seq![Type::I32]);
            }
        },
        Operator::V8x16Shuffle { .. } => {
            lemma_typed(
                state,
                Ok(
                    FuncSignature {
                        inputs: seq![Type::V128, Type::V128],
                        outputs: seq![Type::V128],
                    },
                ),
            );
        },
        _ => {},
    }
}

proof fn lemma_step(
    state: FuncModel,
    features: WasmFeatures,
    module: ModuleModel,
    operator: Operator,
)
    requires
        state.wf(),
    ensures
        regular(state, step(state, features, module, operator)),
{
    if !state.end_function {
        lemma_control(state, features, module, operator);
        if control_step(state, features, module, operator) is None {
            lemma_typed(state, typing(state, features, module, operator));
        }
    }
}

/// Whatever the operator is, and whether or not it is accepted, the state stays
/// well-formed: no sequence of operators leads to a state in which validation
/// cannot go on.
pub proof fn law_step_keeps_wf(
    state: FuncModel,
    features: WasmFeatures,
    module: ModuleModel,
    operator: Operator,
)
    requires
        state.wf(),
    ensures
        step(state, features, module, operator).state.wf(),
{
    lemma_step(state, features, module, operator);
}

/// An operator acts on the innermost block alone. It keeps the locals, the
/// blocks around that block, and the operands of these; and the types of an open
/// block and the place of its operands never change.
pub proof fn law_step_stays_inside(
    state: FuncModel,
    features: WasmFeatures,
    module: ModuleModel,
    operator: Operator,
)
    requires
        state.wf(),
    ensures
        stays_inside(state, step(state, features, module, operator).state),
{
    lemma_step(state, features, module, operator);
}

/// Once the body has ended, every operator is refused, and nothing changes.
pub proof fn law_nothing_after_the_end(
    state: FuncModel,
    features: WasmFeatures,
    module: ModuleModel,
    operator: Operator,
)
    requires
        state.end_function,
    ensures
        step(state, features, module, operator).result == Err::<FunctionEnd, Seq<char>>(
            "unexpected operator"@,
        ),
        step(state, features, module, operator).state == state,
{
}

/// The body ends with an accepted `end` of the outermost block, and in no other
/// way.
pub proof fn law_end_of_body(
    state: FuncModel,
    features: WasmFeatures,
    module: ModuleModel,
    operator: Operator,
)
    requires
        state.wf(),
        !state.end_function,
    ensures
        step(state, features, module, operator).state.end_function <==> operator is End
            && state.blocks.len() == 1 && state.block_return_check(features) is Ok,
        step(state, features, module, operator).state.end_function <==> step(
            state,
            features,
            module,
            operator,
        ).result == Ok::<FunctionEnd, Seq<char>>(FunctionEnd::Yes),
{
    lemma_step(state, features, module, operator);
    if control_step(state, features, module, operator) is None {
        lemma_typed(state, typing(state, features, module, operator));
    }
}

/// What a refused tail call leaves, where `call` is its call alone: the state
/// after the call if that was accepted, so that only the return is refused.
pub open spec fn after_refused_tail_call(
    state: FuncModel,
    features: WasmFeatures,
    call: Step,
) -> FuncModel {
    if features.tail_call && call.result is Ok {
        call.state
    } else {
        state
    }
}

/// A refused operator leaves the state as it was. The one exception is a tail
/// call whose call is accepted and whose return is not: there the call has been
/// made.
pub proof fn law_refusal_keeps_state(
    state: FuncModel,
    features: WasmFeatures,
    module: ModuleModel,
    operator: Operator,
)
    requires
        state.wf(),
        step(state, features, module, operator).result is Err,
    ensures
        step(state, features, module, operator).state == (match operator {
            Operator::ReturnCall { function_index } => after_refused_tail_call(
                state,
                features,
                step(state, features, module, Operator::Call { function_index }),
            ),
            Operator::ReturnCallIndirect { index, table_index } => after_refused_tail_call(
                state,
                features,
                step(state, features, module, Operator::CallIndirect { index, table_index }),
            ),
            _ => state,
        }),
{
    if !state.end_function && control_step(state, features, module, operator) is None {
        lemma_typed(state, typing(state, features, module, operator));
    }
}

/// An accepted `block`, `loop` or `if` opens a block, an accepted `end` closes
/// one or ends the body, and no other operator does either.
pub proof fn law_depth(
    state: FuncModel,
    features: WasmFeatures,
    module: ModuleModel,
    operator: Operator,
)
    requires
        state.wf(),
        step(state, features, module, operator).result is Ok,
    ensures
        step(state, features, module, operator).state.blocks.len() == state.blocks.len() + (
        if operator is Block || operator is Loop || operator is If {
            1int
        } else if operator is End && state.blocks.len() > 1 {
            -1int
        } else {
            0int
        }),
{
    match operator {
        Operator::ReturnCall { function_index } => {
            lemma_typed(state, call_typing(module, function_index));
        },
        Operator::ReturnCallIndirect { index, table_index } => {
            lemma_typed(state, call_indirect_typing(module, index, table_index));
        },
        _ => {},
    }
    if !state.end_function && control_step(state, features, module, operator) is None {
        lemma_typed(state, typing(state, features, module, operator));
    }
}

/// Whether control never goes on after an operator.
pub open spec fn leaves(operator: Operator) -> bool {
    operator is Unreachable || operator is Br || operator is BrTable || operator is Return
        || operator is ReturnCall || operator is ReturnCallIndirect
}

/// After an operator that never lets control go on the block has no operands,
/// and pops operands of whatever types are wanted.
pub proof fn law_dead_code(
    state: FuncModel,
    features: WasmFeatures,
    module: ModuleModel,
    operator: Operator,
    types: Seq<Type>,
)
    requires
        state.wf(),
        leaves(operator),
        step(state, features, module, operator).result is Ok,
    ensures
        step(state, features, module, operator).state.polymorphic(),
        step(state, features, module, operator).state.height() == 0,
        step(state, features, module, operator).state.operands_check(types) is Ok,
{
    match operator {
        Operator::ReturnCall { function_index } => {
            lemma_typed(state, call_typing(module, function_index));
        },
        Operator::ReturnCallIndirect { index, table_index } => {
            lemma_typed(state, call_indirect_typing(module, index, table_index));
        },
        _ => {},
    }
}

/// In reachable code an operator of a fixed type is accepted if and only if the
/// topmost operands of the block are of the types of its operands. Its results
/// then take their place, and nothing else changes.
pub proof fn law_typing_in_reachable_code(
    state: FuncModel,
    features: WasmFeatures,
    module: ModuleModel,
    operator: Operator,
)
    requires
        state.wf(),
        !state.end_function,
        !state.polymorphic(),
        control_step(state, features, module, operator) is None,
        typing(state, features, module, operator) is Ok,
    ensures
        ({
            let signature = typing(state, features, module, operator)->Ok_0;
            let n = signature.inputs.len() as int;
            let len = state.stack_types.len() as int;
            let after = step(state, features, module, operator);
            &&& after.result is Ok <==> n <= state.height() && state.stack_types.skip(len - n)
                == signature.inputs
            &&& after.result is Ok ==> after.state == (FuncModel {
                stack_types: state.stack_types.take(len - n) + signature.outputs,
                ..state
            })
        }),
{
    let signature = typing(state, features, module, operator)->Ok_0;
    lemma_typing_in_reachable_code(state, signature);
}

proof fn lemma_typing_in_reachable_code(state: FuncModel, signature: FuncSignature)
    requires
        state.wf(),
        !state.polymorphic(),
    ensures
        ({
            let n = signature.inputs.len() as int;
            let len = state.stack_types.len() as int;
            let after = retyped(state, signature.inputs, signature.outputs);
            &&& after.result is Ok <==> n <= state.height() && state.stack_types.skip(len - n)
                == signature.inputs
            &&& after.result is Ok ==> after.state == (FuncModel {
                stack_types: state.stack_types.take(len - n) + signature.outputs,
                ..state
            })
        }),
{
    let types = signature.inputs;
    if types.len() <= state.height() {
        lemma_accepts_the_top(state, types);
        assert(state.stack_types.take(state.stack_types.len() as int) =~= state.stack_types);
    }
}

/// The topmost `types.len()` operands of a block that is not polymorphic are
/// accepted if and only if they are of these types.
proof fn lemma_accepts_the_top(state: FuncModel, types: Seq<Type>)
    requires
        state.wf(),
        !state.polymorphic(),
        types.len() <= state.height(),
    ensures
        state.accepts_all(types, 0) <==> state.stack_types.skip(
            state.stack_types.len() - types.len(),
        ) == types,
{
    let top = state.stack_types.skip(state.stack_types.len() - types.len());
    if state.accepts_all(types, 0) {
        assert forall|i: int| 0 <= i < types.len() implies top[i] == types[i] by {
            assert(state.accepts(types.len() - 1 - i + 0, types[i]));
        }
        assert(top =~= types);
    }
    if top == types {
        assert forall|i: int| 0 <= i < types.len() implies state.accepts(
            types.len() - 1 - i + 0,
            #[trigger] types[i],
        ) by {
            assert(top[i] == types[i]);
        }
    }
}

/// The state in which a polymorphic block has operands of the types `below`
/// under its own, and can pop no others.
pub open spec fn supplied(state: FuncModel, below: Seq<Type>) -> FuncModel {
    let block = BlockModel { polymorphic_values: None, ..state.last_block() };
    FuncModel {
        stack_types: state.stack_types.take(state.base() as int) + below + state.operands(),
        ..state.with_last_block(block)
    }
}

/// In unreachable code operands are accepted if and only if there are types for
/// the operands that are not known with which they are accepted in reachable
/// code.
pub proof fn law_unknown_operands_are_supplied(state: FuncModel, types: Seq<Type>)
    requires
        state.wf(),
        state.polymorphic(),
    ensures
        state.operands_check(types) is Ok <==> exists|below: Seq<Type>|
            (#[trigger] supplied(state, below)).operands_check(types) is Ok,
{
    let n = types.len() as int;
    let h = state.height();
    if state.operands_check(types) is Ok {
        let below = if n > h {
            types.take(n - h)
        } else {
            seq![]
        };
        let reachable = supplied(state, below);
        assert(reachable.height() == below.len() + h);
        assert forall|i: int| 0 <= i < n implies reachable.accepts(
            n - 1 - i + 0,
            #[trigger] types[i],
        ) by {
            assert(state.accepts(n - 1 - i + 0, types[i]));
        }
        assert(reachable.operands_check(types) is Ok);
    }
    if exists|below: Seq<Type>|
        (#[trigger] supplied(state, below)).operands_check(types) is Ok {
        let below = choose|below: Seq<Type>|
            (#[trigger] supplied(state, below)).operands_check(types) is Ok;
        let reachable = supplied(state, below);
        assert(reachable.height() == below.len() + h);
        assert forall|i: int| 0 <= i < n implies state.accepts(
            n - 1 - i + 0,
            #[trigger] types[i],
        ) by {
            assert(reachable.accepts(n - 1 - i + 0, types[i]));
        }
    }
}

/// In reachable code a jump is accepted if and only if its target is an open
/// block and the topmost operands are of the types that the target takes over;
/// without multiple values, that is one type at most, except for a loop.
pub proof fn law_jump_in_reachable_code(
    state: FuncModel,
    features: WasmFeatures,
    module: ModuleModel,
    depth: u32,
)
    requires
        state.wf(),
        !state.end_function,
        !state.polymorphic(),
    ensures
        ({
            let target = state.block_at(depth as int);
            let types = target.label_types();
            step(state, features, module, Operator::Br { relative_depth: depth }).result is Ok <==> {
                &&& depth < state.blocks.len()
                &&& target.jump_to_top || features.multi_value || types.len() <= 1
                &&& types.len() <= state.height()
                &&& state.stack_types.skip(state.stack_types.len() - types.len()) == types
            }
        }),
{
    let types = state.block_at(depth as int).label_types();
    if types.len() <= state.height() {
        lemma_accepts_the_top(state, types);
    }
}

/// In reachable code an `end` is accepted if and only if the operands of the
/// block are of the types of its results and no others; without multiple values,
/// that is one type at most. An `if` without `else` moreover has the same types
/// for parameters and results, unless it is the body itself.
pub proof fn law_end_in_reachable_code(
    state: FuncModel,
    features: WasmFeatures,
    module: ModuleModel,
)
    requires
        state.wf(),
        !state.end_function,
        !state.polymorphic(),
    ensures
        ({
            let block = state.last_block();
            let types = block.return_types;
            step(state, features, module, Operator::End).result is Ok <==> {
                &&& state.operands() == types
                &&& features.multi_value || types.len() <= 1
                &&& state.blocks.len() == 1 || !block.is_else_allowed || block.start_types == types
            }
        }),
{
    let types = state.last_block().return_types;
    if types.len() == state.height() {
        lemma_accepts_the_top(state, types);
        assert(state.operands() == state.stack_types.skip(
            state.stack_types.len() - types.len(),
        ));
    }
}

/// Whether values of a type can be chosen from without naming the type.
pub open spec fn is_numeric(ty: Type) -> bool {
    ty is I32 || ty is I64 || ty is F32 || ty is F64
}

/// In reachable code a `select` is accepted if and only if there are two operands
/// of one numeric type below an `i32`. One of the two stays.
pub proof fn law_select_in_reachable_code(
    state: FuncModel,
    features: WasmFeatures,
    module: ModuleModel,
)
    requires
        state.wf(),
        !state.end_function,
        !state.polymorphic(),
    ensures
        ({
            let stack = state.stack_types;
            let len = stack.len() as int;
            let after = step(state, features, module, Operator::Select);
            &&& after.result is Ok <==> {
                &&& state.height() >= 3
                &&& stack[len - 1] is I32
                &&& stack[len - 2] == stack[len - 3]
                &&& is_numeric(stack[len - 3])
            }
            &&& after.result is Ok ==> after.state == (FuncModel {
                stack_types: stack.take(len - 2),
                ..state
            })
        }),
{
    let stack = state.stack_types;
    let len = stack.len() as int;
    if state.height() >= 3 {
        assert(stack.take(len - 3) + seq![stack[len - 3]] =~= stack.take(len - 2));
    }
}

/// A jump table is accepted if and only if each of its entries is: the first
/// failure is the one that is told.
pub proof fn law_br_table_checks_every_entry(
    state: FuncModel,
    features: WasmFeatures,
    entries: Seq<Result<(u32, bool), BinaryReaderError>>,
    n: nat,
)
    ensures
        br_table_check(state, features, entries, n) is Ok <==> forall|i: int|
            0 <= i < n ==> #[trigger] br_table_entry_check(state, features, entries, i) is Ok,
        br_table_check(state, features, entries, n) is Err ==> exists|i: int|
            {
                &&& 0 <= i < n
                &&& br_table_check(state, features, entries, n)
                    == #[trigger] br_table_entry_check(state, features, entries, i)
                &&& forall|j: int|
                    0 <= j < i ==> #[trigger] br_table_entry_check(state, features, entries, j)
                        is Ok
            },
    decreases n,
{
    if n > 0 {
        law_br_table_checks_every_entry(state, features, entries, (n - 1) as nat);
        let last = br_table_entry_check(state, features, entries, n - 1);
        if br_table_check(state, features, entries, (n - 1) as nat) is Err {
            let i = choose|i: int|
                {
                    &&& 0 <= i < n - 1
                    &&& br_table_check(state, features, entries, (n - 1) as nat)
                        == #[trigger] br_table_entry_check(state, features, entries, i)
                    &&& forall|j: int|
                        0 <= j < i ==> #[trigger] br_table_entry_check(state, features, entries, j)
                            is Ok
                };
            assert(br_table_entry_check(state, features, entries, i) is Err);
        }
    }
}

/// Which of two labels comes first is of no account: they go together in a jump
/// table in either order or in neither. A label goes together with itself
/// whenever there is a block at it.
pub proof fn law_labels_match_both_ways(state: FuncModel, depth1: u32, depth2: u32)
    ensures
        state.same_label_check(depth1 as int, depth2 as int) == state.same_label_check(
            depth2 as int,
            depth1 as int,
        ),
        state.same_label_check(depth1 as int, depth1 as int) is Ok <==> depth1
            < state.blocks.len(),
{
}

/// One more operand on top of the stack is taken off by one more operand of the
/// operator.
proof fn lemma_one_more_operand(state: FuncModel, signature: FuncSignature, ty: Type)
    requires
        state.wf(),
    ensures
        ({
            let more = retyped(
                state.pushed(seq![ty]),
                signature.inputs.push(ty),
                signature.outputs,
            );
            let after = retyped(state, signature.inputs, signature.outputs);
            &&& more.result == after.result
            &&& after.result is Ok ==> more.state == after.state
        }),
{
    let more = state.pushed(seq![ty]);
    let types = signature.inputs;
    let more_types = types.push(ty);
    let n = types.len() as int;
    assert(more.stack_types =~= state.stack_types.push(ty));
    if state.has_operands(n) {
        if state.accepts_all(types, 0) {
            assert forall|i: int| 0 <= i < more_types.len() implies more.accepts(
                more_types.len() - 1 - i + 0,
                #[trigger] more_types[i],
            ) by {
                if i < n {
                    assert(state.accepts(n - 1 - i + 0, types[i]));
                }
            }
        }
        if more.accepts_all(more_types, 0) {
            assert forall|i: int| 0 <= i < n implies state.accepts(
                n - 1 - i + 0,
                #[trigger] types[i],
            ) by {
                assert(more.accepts(more_types.len() - 1 - i + 0, more_types[i]));
            }
        }
        assert(more.popped(n + 1) =~~= state.popped(n));
    }
}

/// A call through a table does what a call of a function of that type does once
/// the index is off the stack, and is refused with the same message where that
/// is refused.
pub proof fn law_indirect_call_is_a_call(
    state: FuncModel,
    features: WasmFeatures,
    module: ModuleModel,
    index: u32,
    table_index: u32,
    function_index: u32,
)
    requires
        state.wf(),
        module.tables.get(table_index) is Some,
        module.types.get(index) is Some,
        module.types.get(index) == module.functions.get(function_index),
    ensures
        ({
            let with_index = state.pushed(seq![Type::I32]);
            let indirect = Operator::CallIndirect { index, table_index };
            let direct = Operator::Call { function_index };
            let after_indirect = step(with_index, features, module, indirect);
            let after_direct = step(state, features, module, direct);
            &&& after_indirect.result == after_direct.result
            &&& after_direct.result is Ok ==> after_indirect.state == after_direct.state
        }),
{
    lemma_one_more_operand(state, module.types.get(index)->0, Type::I32);
}

/// Every operator has a rule of its own: none is accepted for want of one.
#[verifier::rlimit(30)]
pub proof fn law_every_operator_has_a_rule(
    state: FuncModel,
    features: WasmFeatures,
    module: ModuleModel,
    operator: Operator,
)
    ensures
        ({
            ||| control_step(state, features, module, operator) is Some
            ||| variable_typing(state, module, operator) is Some
            ||| reference_typing(features, module, operator) is Some
            ||| bulk_typing(features, module, operator) is Some
            ||| memory_typing(features, module, operator) is Some
            ||| !(shape(operator) is Other)
        }),
{
}

/// Whether the operators of a shape are on vectors.
pub open spec fn is_vector_shape(shape: Shape) -> bool {
    match shape {
        Shape::Constant(guard, ..)
        | Shape::Unary(guard, ..)
        | Shape::Binary(guard, ..)
        | Shape::Ternary(guard, ..)
        | Shape::Extract(guard, ..)
        | Shape::Replace(guard, ..)
        | Shape::Load(guard, ..)
        | Shape::Store(guard, ..) => guard is Vector || guard is FloatVector,
        _ => false,
    }
}

/// Whether the operators of a shape are on floats.
pub open spec fn is_float_shape(shape: Shape) -> bool {
    match shape {
        Shape::Constant(guard, ..)
        | Shape::Unary(guard, ..)
        | Shape::Binary(guard, ..)
        | Shape::Ternary(guard, ..)
        | Shape::Extract(guard, ..)
        | Shape::Replace(guard, ..)
        | Shape::Load(guard, ..)
        | Shape::Store(guard, ..) => guard is Float || guard is FloatVector,
        _ => false,
    }
}

/// Whether the operators of a shape access a memory other than the first.
pub open spec fn has_further_memory(shape: Shape) -> bool {
    match shape {
        Shape::Load(_, memarg, ..) | Shape::Store(_, memarg, ..) => memarg.memory > 0,
        _ => false,
    }
}

/// Whether the operators of a shape need a feature that is not enabled.
pub open spec fn is_disabled_shape(features: WasmFeatures, shape: Shape) -> bool {
    ||| !features.simd && is_vector_shape(shape)
    ||| !features.threads && is_atomic_shape(shape)
    ||| features.non_deterministic_check() is Err && is_float_shape(shape)
    ||| !features.multi_memory && has_further_memory(shape)
}

/// Whether the operators of a shape are atomic.
pub open spec fn is_atomic_shape(shape: Shape) -> bool {
    shape is AtomicLoad || shape is AtomicStore || shape is AtomicExchange || shape is AtomicTernary
}

proof fn lemma_disabled_shape(
    features: WasmFeatures,
    module: ModuleModel,
    shape: Shape,
)
    requires
        is_disabled_shape(features, shape),
    ensures
        shape_typing(features, module, shape) is Err,
{
}

#[verifier::rlimit(30)]
pub(crate) proof fn lemma_control_has_no_shape(
    state: FuncModel,
    features: WasmFeatures,
    module: ModuleModel,
    operator: Operator,
)
    ensures
        control_step(state, features, module, operator) is Some ==> shape(operator) is Other,
{
}

#[verifier::rlimit(30)]
pub(crate) proof fn lemma_families_have_no_shape(
    state: FuncModel,
    features: WasmFeatures,
    module: ModuleModel,
    operator: Operator,
)
    ensures
        variable_typing(state, module, operator) is Some ==> shape(operator) is Other,
        memory_typing(features, module, operator) is Some ==> shape(operator) is Other,
        reference_typing(features, module, operator) is Some ==> shape(operator) is Other,
        bulk_typing(features, module, operator) is Some ==> shape(operator) is Other,
{
}

/// An operator of a feature that is not enabled is refused.
#[verifier::rlimit(30)]
pub proof fn law_disabled_features_refuse(
    state: FuncModel,
    features: WasmFeatures,
    module: ModuleModel,
    operator: Operator,
)
    requires
        ({
            ||| is_disabled_shape(features, shape(operator))
            ||| !features.simd && operator is V8x16Shuffle
            ||| !features.threads && operator is AtomicFence
            ||| !features.tail_call && (operator is ReturnCall || operator is ReturnCallIndirect)
            ||| !features.bulk_memory && bulk_typing(features, module, operator) is Some
            ||| !features.reference_types && (operator is RefIsNull || reference_typing(
                features,
                module,
                operator,
            ) is Some)
        }),
    ensures
        step(state, features, module, operator).result is Err,
{
    if !(shape(operator) is Other) {
        lemma_control_has_no_shape(state, features, module, operator);
        lemma_families_have_no_shape(state, features, module, operator);
        if is_disabled_shape(features, shape(operator)) {
            lemma_disabled_shape(features, module, shape(operator));
        }
    }
}

/// A `return` is a jump to the outermost block. A refused one changes nothing.
pub proof fn law_return_is_a_jump(
    state: FuncModel,
    features: WasmFeatures,
    module: ModuleModel,
    depth: u32,
)
    requires
        depth == state.blocks.len() - 1,
    ensures
        step(state, features, module, Operator::Return) == step(
            state,
            features,
            module,
            Operator::Br { relative_depth: depth },
        ),
        step(state, features, module, Operator::Return).result is Err ==> step(
            state,
            features,
            module,
            Operator::Return,
        ).state == state,
{
}

/// After an accepted `else` another one is refused.
pub proof fn law_one_else(state: FuncModel, features: WasmFeatures, module: ModuleModel)
    requires
        state.wf(),
        step(state, features, module, Operator::Else).result is Ok,
    ensures
        step(
            step(state, features, module, Operator::Else).state,
            features,
            module,
            Operator::Else,
        ).result == Err::<FunctionEnd, Seq<char>>("unexpected else: if block is not started"@),
{
}

/// The state after the operators of `operators`.
pub open spec fn run(
    state: FuncModel,
    features: WasmFeatures,
    module: ModuleModel,
    operators: Seq<Operator>,
) -> FuncModel
    decreases operators.len(),
{
    if operators.len() == 0 {
        state
    } else {
        step(
            run(state, features, module, operators.drop_last()),
            features,
            module,
            operators.last(),
        ).state
    }
}

/// Whether, while the operators of `operators` are processed, `depth` blocks are
/// open at all times.
pub open spec fn stays_below(
    state: FuncModel,
    features: WasmFeatures,
    module: ModuleModel,
    operators: Seq<Operator>,
    depth: nat,
) -> bool
    decreases operators.len(),
{
    &&& run(state, features, module, operators).blocks.len() >= depth
    &&& operators.len() > 0 ==> stays_below(state, features, module, operators.drop_last(), depth)
}

proof fn lemma_stays_inside_twice(a: FuncModel, b: FuncModel, c: FuncModel)
    requires
        a.wf(),
        b.wf(),
        stays_inside(a, b),
        stays_inside(b, c),
        b.blocks.len() >= a.blocks.len(),
        c.blocks.len() >= a.blocks.len(),
    ensures
        stays_inside(a, c),
{
    let n = a.blocks.len() - 1;
    assert(b.blocks[n].stack_starts_at <= b.blocks[b.blocks.len() - 1].stack_starts_at);
    assert forall|i: int| 0 <= i < n implies #[trigger] c.blocks[i] == a.blocks[i] by {
        assert(b.blocks[i] == a.blocks[i]);
    }
    assert forall|i: int| 0 <= i < a.base() implies #[trigger] c.stack_types[i]
        == a.stack_types[i] by {
        assert(b.stack_types[i] == a.stack_types[i]);
    }
    if n < b.blocks.len() - 1 {
        assert(c.blocks[n] == b.blocks[n]);
    }
}

/// As long as the innermost block of `state` is open, operators act on it and on
/// the blocks inside it alone.
pub proof fn law_run_stays_inside(
    state: FuncModel,
    features: WasmFeatures,
    module: ModuleModel,
    operators: Seq<Operator>,
)
    requires
        state.wf(),
        stays_below(state, features, module, operators, state.blocks.len()),
    ensures
        run(state, features, module, operators).wf(),
        stays_inside(state, run(state, features, module, operators)),
    decreases operators.len(),
{
    if operators.len() > 0 {
        let before = run(state, features, module, operators.drop_last());
        law_run_stays_inside(state, features, module, operators.drop_last());
        reveal_with_fuel(stays_below, 2);
        lemma_step(before, features, module, operators.last());
        lemma_stays_inside_twice(state, before, run(state, features, module, operators));
    }
}

/// A block as a whole does what an operator of its type does: whatever is in its
/// body, once it is closed its results have taken the place of its parameters,
/// as many of them as there were, and nothing else has changed.
pub proof fn law_block_has_its_type(
    state: FuncModel,
    features: WasmFeatures,
    module: ModuleModel,
    ty: TypeOrFuncType,
    block_type: BlockType,
    body: Seq<Operator>,
)
    requires
        state.wf(),
        !state.end_function,
        block_step(state, features, module, ty, block_type).result is Ok,
        ({
            let inside = block_step(state, features, module, ty, block_type).state;
            let end = run(inside, features, module, body);
            &&& stays_below(inside, features, module, body, inside.blocks.len())
            &&& end.blocks.len() == inside.blocks.len()
            &&& step(end, features, module, Operator::End).result is Ok
        }),
    ensures
        ({
            let signature = module.block_signature(ty)->Ok_0;
            let inside = block_step(state, features, module, ty, block_type).state;
            let end = run(inside, features, module, body);
            let after = step(end, features, module, Operator::End).state;
            let outer = state.before_params(block_type);
            let n = signature.inputs.len() as int;
            let params = min(n, outer.height());
            &&& after == (FuncModel {
                stack_types: outer.stack_types.take(outer.stack_types.len() - params)
                    + signature.outputs,
                ..outer
            })
            &&& n <= outer.height() ==> after == outer.popped(n).pushed(signature.outputs)
        }),
{
    let signature = module.block_signature(ty)->Ok_0;
    let inside = block_step(state, features, module, ty, block_type).state;
    let end = run(inside, features, module, body);
    lemma_block(state, features, module, ty, block_type);
    law_run_stays_inside(inside, features, module, body);
    if end.end_function {
        law_nothing_after_the_end(end, features, module, Operator::End);
    }
    let after = step(end, features, module, Operator::End).state;
    lemma_block_has_its_type(state, block_type, signature, end);
    assert(after == end.left());
    state.lemma_params_stay_accepted(block_type, signature.inputs);
}

proof fn lemma_block_has_its_type(
    state: FuncModel,
    block_type: BlockType,
    signature: FuncSignature,
    end: FuncModel,
)
    requires
        state.wf(),
        block_type is If ==> state.has_operands(1),
        state.before_params(block_type).has_operands(signature.inputs.len() as int),
        end.wf(),
        end.end_function == state.end_function,
        stays_inside(state.entered(block_type, signature), end),
        end.blocks.len() == state.blocks.len() + 1,
    ensures
        ({
            let outer = state.before_params(block_type);
            let n = signature.inputs.len() as int;
            let params = min(n, outer.height());
            &&& end.left() == (FuncModel {
                stack_types: outer.stack_types.take(outer.stack_types.len() - params)
                    + signature.outputs,
                ..outer
            })
            &&& n <= outer.height() ==> end.left() == outer.popped(n).pushed(signature.outputs)
        }),
{
    let outer = state.before_params(block_type);
    let n = signature.inputs.len() as int;
    let params = min(n, outer.height());
    assert(end.left().blocks =~= outer.blocks);
    assert(end.left().stack_types =~= outer.stack_types.take(outer.stack_types.len() - params)
        + signature.outputs);
    if n <= outer.height() {
        let expected = outer.popped(n).pushed(signature.outputs);
        assert(end.left().blocks =~= expected.blocks);
        assert(end.left().stack_types =~= expected.stack_types);
    }
}

/// From a well-formed state no sequence of operators leads to one that is not,
/// and some block is open at all times.
pub proof fn law_run_keeps_wf(
    state: FuncModel,
    features: WasmFeatures,
    module: ModuleModel,
    operators: Seq<Operator>,
)
    requires
        state.wf(),
    ensures
        run(state, features, module, operators).wf(),
        stays_below(state, features, module, operators, 1),
    decreases operators.len(),
{
    if operators.len() > 0 {
        let before = run(state, features, module, operators.drop_last());
        law_run_keeps_wf(state, features, module, operators.drop_last());
        lemma_step(before, features, module, operators.last());
    }
}

/// A body that is accepted to its end leaves the results of the function: the
/// `end` that ends it belongs to the outermost block, and in reachable code the
/// operands there are of the types of the results and no others.
pub proof fn law_body_leaves_results(
    signature: FuncSignature,
    features: WasmFeatures,
    module: ModuleModel,
    body: Seq<Operator>,
    last: Operator,
)
    requires
        step(
            run(FuncModel::initial(signature), features, module, body),
            features,
            module,
            last,
        ).result == Ok::<FunctionEnd, Seq<char>>(FunctionEnd::Yes),
    ensures
        ({
            let end = run(FuncModel::initial(signature), features, module, body);
            &&& last is End
            &&& end.blocks.len() == 1
            &&& !end.polymorphic() ==> end.stack_types == signature.outputs
        }),
{
    let start = FuncModel::initial(signature);
    let end = run(start, features, module, body);
    law_run_keeps_wf(start, features, module, body);
    law_run_stays_inside(start, features, module, body);
    lemma_step(end, features, module, last);
    if end.end_function {
        assert(false);
    }
    law_end_of_body(end, features, module, last);
    if !end.polymorphic() {
        let types = signature.outputs;
        assert(end.last_block().return_types == types);
        assert forall|i: int| 0 <= i < types.len() implies end.stack_types[i] == types[i] by {
            assert(end.accepts(types.len() - 1 - i + 0, types[i]));
        }
        assert(end.stack_types =~= types);
    }
}

/// Every feature of `a` is one of `b`, and `b` guards no more than `a`.
pub open spec fn no_more_features(a: WasmFeatures, b: WasmFeatures) -> bool {
    &&& a.reference_types ==> b.reference_types
    &&& a.simd ==> b.simd
    &&& a.multi_value ==> b.multi_value
    &&& a.threads ==> b.threads
    &&& a.tail_call ==> b.tail_call
    &&& a.bulk_memory ==> b.bulk_memory
    &&& a.multi_memory ==> b.multi_memory
    &&& a.non_deterministic_check() is Ok ==> b.non_deterministic_check() is Ok
}

proof fn lemma_br_table_with_more_features(
    state: FuncModel,
    features: WasmFeatures,
    more: WasmFeatures,
    entries: Seq<Result<(u32, bool), BinaryReaderError>>,
    n: nat,
)
    requires
        no_more_features(features, more),
        br_table_check(state, features, entries, n) is Ok,
    ensures
        br_table_check(state, more, entries, n) is Ok,
    decreases n,
{
    if n > 0 {
        lemma_br_table_with_more_features(state, features, more, entries, (n - 1) as nat);
    }
}

proof fn lemma_control_with_more_features(
    state: FuncModel,
    features: WasmFeatures,
    more: WasmFeatures,
    module: ModuleModel,
    operator: Operator,
)
    requires
        no_more_features(features, more),
    ensures
        match control_step(state, features, module, operator) {
            Some(step) => step.result is Ok ==> control_step(state, more, module, operator) == Some(
                step,
            ),
            None => control_step(state, more, module, operator) is None,
        },
{
    if let Operator::BrTable { table } = operator {
        let n = table.entries@.len();
        if br_table_check(state, features, table.entries@, n) is Ok {
            lemma_br_table_with_more_features(state, features, more, table.entries@, n);
        }
    }
}

proof fn lemma_shape_with_more_features(
    features: WasmFeatures,
    more: WasmFeatures,
    module: ModuleModel,
    shape: Shape,
)
    requires
        no_more_features(features, more),
        shape_typing(features, module, shape) is Ok,
    ensures
        shape_typing(more, module, shape) == shape_typing(features, module, shape),
{
}

#[verifier::rlimit(30)]
proof fn lemma_families_with_more_features(
    features: WasmFeatures,
    more: WasmFeatures,
    module: ModuleModel,
    operator: Operator,
)
    requires
        no_more_features(features, more),
    ensures
        match reference_typing(features, module, operator) {
            Some(Ok(signature)) => reference_typing(more, module, operator) == Some(
                Ok::<FuncSignature, Seq<char>>(signature),
            ),
            Some(Err(_)) => true,
            None => reference_typing(more, module, operator) is None,
        },
        match bulk_typing(features, module, operator) {
            Some(Ok(signature)) => bulk_typing(more, module, operator) == Some(
                Ok::<FuncSignature, Seq<char>>(signature),
            ),
            Some(Err(_)) => true,
            None => bulk_typing(more, module, operator) is None,
        },
        match memory_typing(features, module, operator) {
            Some(Ok(signature)) => memory_typing(more, module, operator) == Some(
                Ok::<FuncSignature, Seq<char>>(signature),
            ),
            Some(Err(_)) => true,
            None => memory_typing(more, module, operator) is None,
        },
{
}

#[verifier::rlimit(30)]
proof fn lemma_typing_with_more_features(
    state: FuncModel,
    features: WasmFeatures,
    more: WasmFeatures,
    module: ModuleModel,
    operator: Operator,
)
    requires
        no_more_features(features, more),
        typing(state, features, module, operator) is Ok,
    ensures
        typing(state, more, module, operator) == typing(state, features, module, operator),
{
    lemma_families_with_more_features(features, more, module, operator);
    if shape_typing(features, module, shape(operator)) is Ok {
        lemma_shape_with_more_features(features, more, module, shape(operator));
    }
}

/// What is accepted with some features is accepted, and does the same, with
/// more of them.
pub proof fn law_more_features_accept_more(
    state: FuncModel,
    features: WasmFeatures,
    more: WasmFeatures,
    module: ModuleModel,
    operator: Operator,
)
    requires
        no_more_features(features, more),
        step(state, features, module, operator).result is Ok,
    ensures
        step(state, more, module, operator) == step(state, features, module, operator),
{
    lemma_control_with_more_features(state, features, more, module, operator);
    if control_step(state, features, module, operator) is None {
        lemma_typing_with_more_features(state, features, more, module, operator);
    }
}

/// Declaring locals of a type twice is declaring them at once.
pub proof fn law_locals_add_up(
    state: FuncModel,
    features: WasmFeatures,
    count1: u32,
    count2: u32,
    total: u32,
    ty: Type,
)
    requires
        total == count1 + count2,
    ensures
        state.with_locals(count1 as nat, ty).with_locals(count2 as nat, ty) == state.with_locals(
            total as nat,
            ty,
        ),
        locals_check(state, features, total, ty) is Ok <==> locals_check(
            state,
            features,
            count1,
            ty,
        ) is Ok && locals_check(state.with_locals(count1 as nat, ty), features, count2, ty) is Ok,
{
    assert(state.with_locals(count1 as nat, ty).with_locals(count2 as nat, ty)
        =~= state.with_locals(total as nat, ty));
}

/// Declared locals come after those that there were, which keep their types.
pub proof fn law_declared_locals_are_there(
    state: FuncModel,
    count: u32,
    ty: Type,
    index: u32,
)
    ensures
        state.with_locals(count as nat, ty).local_type(index) == (if index
            < state.local_types.len() {
            state.local_type(index)
        } else if index < state.local_types.len() + count {
            Ok(ty)
        } else {
            state.local_type(index)
        }),
{
}

/// Why a value cannot have a type.
pub open spec fn value_type_obstacle(features: WasmFeatures, ty: Type) -> Option<Seq<char>> {
    if ty == Type::Func || ty == Type::EmptyBlockType {
        Some("invalid value type"@)
    } else if (ty == Type::FuncRef || ty == Type::ExternRef) && !features.reference_types {
        Some("reference types support is not enabled"@)
    } else if ty == Type::V128 && !features.simd {
        Some("SIMD support is not enabled"@)
    } else {
        None
    }
}

/// Numbers are always values, vectors and references if they are enabled, and nothing
/// else is.
pub proof fn law_value_types(features: WasmFeatures, ty: Type)
    ensures
        features.value_type_error(ty) == value_type_obstacle(features, ty),
{
}

/// Locals of a type can be declared as long as there are no more than 50000 with
/// those that there are, parameters included. They add to the locals and to nothing
/// else.
pub proof fn law_declaring_locals(
    state: FuncModel,
    features: WasmFeatures,
    count: u32,
    ty: Type,
)
    ensures
        ({
            let total = state.local_types.len() + count;
            let check = locals_check(state, features, count, ty);
            if total > 0xffff_ffff {
                check == Err::<(), Seq<char>>("locals overflow"@)
            } else if total > 50000 {
                check == Err::<(), Seq<char>>("locals exceed maximum"@)
            } else {
                match value_type_obstacle(features, ty) {
                    Some(message) => check == Err::<(), Seq<char>>(message),
                    None => check is Ok,
                }
            }
        }),
        ({
            let after = state.with_locals(count as nat, ty);
            &&& after.local_types.len() == state.local_types.len() + count
            &&& forall|i: int|
                0 <= i < after.local_types.len() ==> #[trigger] after.local_types[i] == (if i
                    < state.local_types.len() {
                    state.local_types[i]
                } else {
                    ty
                })
            &&& after.blocks == state.blocks
            &&& after.stack_types == state.stack_types
            &&& after.end_function == state.end_function
        }),
{
}

} // verus!
