//! What the operators of the flow of control ask for and do: blocks, jumps and
//! the end of a body.

use vstd::prelude::*;

use crate::error::BinaryReaderError;
use crate::features::WasmFeatures;
use crate::model::{BlockModel, FuncModel};
use crate::operators_validator::FunctionEnd;
use crate::primitives::{BlockType, BrTable, Operator, Type, TypeOrFuncType};
use crate::resources::{FuncSignature, ModuleModel};
use crate::rules::{br_table_check, br_table_entry_check, step, Step};
use crate::typing_laws::{
    accepted, enough, first_of, goes_on, innermost, is_unreachable, known, lemma_lie_below,
    lemma_replaced, lie_below, needs, owed, refused, replaced, vector_obstacle,
};

verus! {

/// The state after an operator behind which no code is reached: the block has no
/// operands, owes none, and stands in for whatever is asked for.
pub open spec fn cut_off(state: FuncModel) -> FuncModel {
    FuncModel {
        stack_types: state.stack_types.take(innermost(state).stack_starts_at as int),
        blocks: state.blocks.update(
            state.blocks.len() - 1,
            BlockModel {
                is_dead_code: true,
                polymorphic_values: Some(0),
                ..innermost(state)
            },
        ),
        ..state
    }
}

/// A body begins with its parameters for locals, without operands, and in one
/// block that has the results of the function.
pub proof fn law_beginning(signature: FuncSignature)
    ensures
        ({
            let state = FuncModel::initial(signature);
            &&& goes_on(state)
            &&& state.wf()
            &&& state.local_types == signature.inputs
            &&& state.stack_types.len() == 0
            &&& state.blocks.len() == 1
            &&& innermost(state).start_types.len() == 0
            &&& innermost(state).return_types == signature.outputs
            &&& innermost(state).stack_starts_at == 0
            &&& !innermost(state).jump_to_top
            &&& !innermost(state).is_else_allowed
            &&& !innermost(state).is_dead_code
            &&& !is_unreachable(state)
        }),
{
}

/// A body goes on in every well-formed state in which it has not ended, and nothing
/// more is asked of such a state than that the open blocks begin one above the
/// other within the stack.
pub proof fn law_well_formed(state: FuncModel)
    ensures
        state.wf() <==> {
            &&& state.blocks.len() > 0
            &&& innermost(state).stack_starts_at <= state.stack_types.len()
            &&& forall|i: int, j: int|
                0 <= i <= j < state.blocks.len() ==> state.blocks[i].stack_starts_at
                    <= state.blocks[j].stack_starts_at
        },
        state.wf() && !state.end_function ==> goes_on(state),
{
}

/// Once the body has ended, every operator is refused for being there at all.
pub proof fn law_no_operator_after_the_end(
    state: FuncModel,
    features: WasmFeatures,
    module: ModuleModel,
    operator: Operator,
)
    requires
        state.end_function,
    ensures
        refused(state, step(state, features, module, operator), "unexpected operator"@),
{
}

/// `nop` is always accepted and does nothing. `unreachable` is always accepted and
/// cuts off what follows it.
pub proof fn law_nop_and_unreachable(
    state: FuncModel,
    features: WasmFeatures,
    module: ModuleModel,
)
    requires
        goes_on(state),
    ensures
        accepted(step(state, features, module, Operator::Nop), state),
        accepted(step(state, features, module, Operator::Unreachable), cut_off(state)),
{
    assert(state.blocks.last() == innermost(state));
}

/// The block at a relative depth, counted from the innermost outwards.
pub open spec fn target(state: FuncModel, depth: int) -> BlockModel {
    state.blocks[state.blocks.len() - 1 - depth]
}

/// What a jump to a block hands over: to the beginning of a loop its parameters, to
/// the end of any other block its results.
pub open spec fn handed_over(block: BlockModel) -> Seq<Type> {
    if block.jump_to_top {
        block.start_types
    } else {
        block.return_types
    }
}

/// Why a jump is refused that finds what it hands over below `above` operands.
pub open spec fn jump_obstacle(
    state: FuncModel,
    features: WasmFeatures,
    depth: int,
    above: int,
) -> Option<Seq<char>> {
    let block = target(state, depth);
    let types = handed_over(block);
    if depth >= state.blocks.len() {
        Some("unknown label: invalid block depth"@)
    } else if !enough(state, types.len() + above) {
        if block.jump_to_top {
            Some("type mismatch: stack size does not match target loop type"@)
        } else {
            Some("type mismatch: stack size does not match target block type"@)
        }
    } else if !block.jump_to_top && types.len() > 1 && !features.multi_value {
        Some(
            "blocks, loops, and ifs may only return at most one value when multi-value is not enabled"@,
        )
    } else if !lie_below(state, types, above) {
        if block.jump_to_top {
            Some("type mismatch: stack item type does not match block param type"@)
        } else {
            Some("type mismatch: stack item type does not match block item type"@)
        }
    } else {
        None
    }
}

proof fn lemma_jump(state: FuncModel, features: WasmFeatures, depth: u32, above: int)
    requires
        goes_on(state),
        above >= 0,
    ensures
        match jump_obstacle(state, features, depth as int, above) {
            None => state.jump_check(features, depth as int, above) is Ok,
            Some(message) => state.jump_check(features, depth as int, above) == Err::<
                (),
                Seq<char>,
            >(message),
        },
{
    let types = handed_over(target(state, depth as int));
    lemma_lie_below(state, types, above);
    assert(state.has_operands(types.len() + above) == enough(state, types.len() + above));
}

/// A jump hands over the topmost operands, which are of the types that the target
/// takes over as far as they are known. What follows it is cut off.
pub proof fn law_br(
    state: FuncModel,
    features: WasmFeatures,
    module: ModuleModel,
    relative_depth: u32,
)
    requires
        goes_on(state),
    ensures
        ({
            let after = step(state, features, module, Operator::Br { relative_depth });
            match jump_obstacle(state, features, relative_depth as int, 0) {
                Some(message) => refused(state, after, message),
                None => accepted(after, cut_off(state)),
            }
        }),
{
    lemma_jump(state, features, relative_depth, 0);
    assert(state.blocks.last() == innermost(state));
}

/// A `return` hands over the results of the function, and cuts off what follows it.
pub proof fn law_return(state: FuncModel, features: WasmFeatures, module: ModuleModel)
    requires
        goes_on(state),
        state.blocks.len() - 1 <= u32::MAX,
    ensures
        ({
            let after = step(state, features, module, Operator::Return);
            match jump_obstacle(state, features, state.blocks.len() - 1, 0) {
                Some(message) => refused(state, after, message),
                None => accepted(after, cut_off(state)),
            }
        }),
{
    lemma_jump(state, features, (state.blocks.len() - 1) as u32, 0);
    assert(state.blocks.last() == innermost(state));
}

/// A state in which a block that lacks operands of the types `types` has got them.
pub open spec fn filled_up(state: FuncModel, types: Seq<Type>) -> FuncModel {
    if types.len() <= known(state) {
        state
    } else {
        FuncModel {
            stack_types: state.stack_types.take(innermost(state).stack_starts_at as int) + types,
            blocks: state.blocks.update(
                state.blocks.len() - 1,
                BlockModel {
                    polymorphic_values: owed(state, types.len() as int),
                    ..innermost(state)
                },
            ),
            ..state
        }
    }
}

/// A jump on a condition takes an `i32` and asks, of the operands below it, what the
/// jump asks for. In reachable code nothing else changes; in unreachable code the
/// block then has at least as many operands as the target has results.
pub proof fn law_br_if(
    state: FuncModel,
    features: WasmFeatures,
    module: ModuleModel,
    relative_depth: u32,
)
    requires
        goes_on(state),
    ensures
        ({
            let after = step(state, features, module, Operator::BrIf { relative_depth });
            let stack = state.stack_types;
            let rest = replaced(state, 1, seq![]);
            if !enough(state, 1) {
                refused(state, after, "type mismatch: not enough operands"@)
            } else if known(state) > 0 && stack[stack.len() - 1] != Type::I32 {
                refused(state, after, "stack operand type mismatch"@)
            } else {
                match jump_obstacle(state, features, relative_depth as int, 1) {
                    Some(message) => refused(state, after, message),
                    None => if is_unreachable(state) {
                        accepted(
                            after,
                            filled_up(rest, target(state, relative_depth as int).return_types),
                        )
                    } else {
                        accepted(after, FuncModel { stack_types: stack.drop_last(), ..state })
                    },
                }
            }
        }),
{
    let stack = state.stack_types;
    lemma_jump(state, features, relative_depth, 1);
    lemma_lie_below(state, seq![Type::I32], 0);
    state.lemma_accepts_1(Type::I32);
    assert(state.has_operands(1) == enough(state, 1));
    assert(state.blocks.last() == innermost(state));
    if enough(state, 1) {
        lemma_replaced(state, 1, seq![]);
        let rest = replaced(state, 1, seq![]);
        assert(rest.blocks.last() == innermost(rest));
        if !is_unreachable(state) {
            assert(rest =~~= FuncModel { stack_types: stack.drop_last(), ..state });
        } else if relative_depth < state.blocks.len() {
            let types = target(state, relative_depth as int).return_types;
            assert(target(rest, relative_depth as int).return_types == types);
            assert(rest.exact_types_from(relative_depth as int) =~~= filled_up(rest, types));
        }
    }
}

/// In reachable code a jump on a condition is accepted if and only if, with the
/// `i32` on top taken off, the jump is.
pub proof fn law_br_if_is_a_jump(
    state: FuncModel,
    features: WasmFeatures,
    module: ModuleModel,
    relative_depth: u32,
)
    requires
        goes_on(state),
        !is_unreachable(state),
        known(state) > 0,
        state.stack_types[state.stack_types.len() - 1] == Type::I32,
    ensures
        ({
            let rest = FuncModel { stack_types: state.stack_types.drop_last(), ..state };
            let jump = step(rest, features, module, Operator::Br { relative_depth });
            let after = step(state, features, module, Operator::BrIf { relative_depth });
            &&& after.result == jump.result
            &&& after.result is Ok ==> after.state == rest
        }),
{
    let rest = FuncModel { stack_types: state.stack_types.drop_last(), ..state };
    law_br(rest, features, module, relative_depth);
    law_br_if(state, features, module, relative_depth);
    lemma_jump_below(state, features, relative_depth);
}

/// In reachable code a jump below one operand asks for what the jump without it does.
proof fn lemma_jump_below(state: FuncModel, features: WasmFeatures, relative_depth: u32)
    requires
        goes_on(state),
        !is_unreachable(state),
        known(state) > 0,
    ensures
        jump_obstacle(state, features, relative_depth as int, 1) == jump_obstacle(
            FuncModel { stack_types: state.stack_types.drop_last(), ..state },
            features,
            relative_depth as int,
            0,
        ),
{
    let rest = FuncModel { stack_types: state.stack_types.drop_last(), ..state };
    let types = handed_over(target(state, relative_depth as int));
    assert(handed_over(target(rest, relative_depth as int)) == types);
    let first = state.stack_types.len() - 1 - types.len();
    assert(innermost(rest) == innermost(state));
    if lie_below(state, types, 1) {
        assert forall|i: int|
            0 <= i < types.len() && innermost(rest).stack_starts_at <= first
                + i implies rest.stack_types[first + i] == #[trigger] types[i] by {
            assert(state.stack_types[first + i] == types[i]);
        }
    }
    if lie_below(rest, types, 0) {
        assert forall|i: int|
            0 <= i < types.len() && innermost(state).stack_starts_at <= first
                + i implies state.stack_types[first + i] == #[trigger] types[i] by {
            assert(rest.stack_types[first + i] == types[i]);
        }
    }
}

/// Whether two blocks can stand in one jump table.
pub open spec fn stand_together(a: BlockModel, b: BlockModel) -> bool {
    ||| a.jump_to_top && b.jump_to_top
    ||| !a.jump_to_top && !b.jump_to_top && a.return_types == b.return_types
    ||| a.jump_to_top && !b.jump_to_top && b.return_types.len() == 0
    ||| b.jump_to_top && !a.jump_to_top && a.return_types.len() == 0
}

/// Why a jump table is refused on account of one of its entries: it could not be
/// read, or it is the first and the jump is refused, or it does not stand together
/// with the first.
pub open spec fn entry_obstacle(
    state: FuncModel,
    features: WasmFeatures,
    entries: Seq<Result<(u32, bool), BinaryReaderError>>,
    i: int,
) -> Option<Seq<char>> {
    match entries[i] {
        Err(e) => Some(e.message@),
        Ok((depth, _)) => if i == 0 {
            jump_obstacle(state, features, depth as int, 1)
        } else {
            match entries[0] {
                Err(e) => Some(e.message@),
                Ok((first, _)) => if depth >= state.blocks.len() || first >= state.blocks.len() {
                    Some("unknown label: invalid block depth"@)
                } else {
                    needs(
                        stand_together(target(state, depth as int), target(state, first as int)),
                        "type mismatch: block types do not match"@,
                    )
                },
            }
        },
    }
}

proof fn lemma_entries(
    state: FuncModel,
    features: WasmFeatures,
    entries: Seq<Result<(u32, bool), BinaryReaderError>>,
    n: nat,
)
    requires
        goes_on(state),
        n <= entries.len(),
    ensures
        br_table_check(state, features, entries, n) is Ok <==> forall|i: int|
            0 <= i < n ==> #[trigger] entry_obstacle(state, features, entries, i) is None,
        forall|i: int|
            {
                &&& 0 <= i < n
                &&& #[trigger] entry_obstacle(state, features, entries, i) is Some
                &&& forall|j: int|
                    0 <= j < i ==> #[trigger] entry_obstacle(state, features, entries, j) is None
            } ==> br_table_check(state, features, entries, n) == Err::<(), Seq<char>>(
                entry_obstacle(state, features, entries, i)->0,
            ),
    decreases n,
{
    if n > 0 {
        lemma_entries(state, features, entries, (n - 1) as nat);
        let last = n - 1;
        let check = br_table_entry_check(state, features, entries, last);
        if br_table_check(state, features, entries, (n - 1) as nat) is Ok {
            if n > 1 {
                assert(entry_obstacle(state, features, entries, 0) is None);
            }
            if let Ok((depth, _)) = entries[last] {
                if last == 0 {
                    lemma_jump(state, features, depth, 1);
                }
            }
            assert(match entry_obstacle(state, features, entries, last) {
                None => check is Ok,
                Some(message) => check == Err::<(), Seq<char>>(message),
            });
        }
        assert forall|i: int|
            {
                &&& 0 <= i < n
                &&& #[trigger] entry_obstacle(state, features, entries, i) is Some
                &&& forall|j: int|
                    0 <= j < i ==> #[trigger] entry_obstacle(state, features, entries, j) is None
            } implies br_table_check(state, features, entries, n) == Err::<(), Seq<char>>(
            entry_obstacle(state, features, entries, i)->0,
        ) by {
            if i == last {
                assert(br_table_check(state, features, entries, (n - 1) as nat) is Ok);
            }
        }
    }
}

/// A jump table takes an `i32`. Of the operands below it, the first entry asks for
/// what a jump does, and the others stand together with the first. The first entry
/// that fails tells why. What follows is cut off.
pub proof fn law_br_table(
    state: FuncModel,
    features: WasmFeatures,
    module: ModuleModel,
    table: BrTable,
)
    requires
        goes_on(state),
    ensures
        ({
            let after = step(state, features, module, Operator::BrTable { table });
            let stack = state.stack_types;
            let entries = table.entries@;
            if !enough(state, 1) {
                refused(state, after, "type mismatch: not enough operands"@)
            } else if known(state) > 0 && stack[stack.len() - 1] != Type::I32 {
                refused(state, after, "stack operand type mismatch"@)
            } else {
                &&& (forall|i: int|
                    0 <= i < entries.len() ==> #[trigger] entry_obstacle(
                        state,
                        features,
                        entries,
                        i,
                    ) is None) ==> accepted(after, cut_off(state))
                &&& forall|i: int|
                    {
                        &&& 0 <= i < entries.len()
                        &&& #[trigger] entry_obstacle(state, features, entries, i) is Some
                        &&& forall|j: int|
                            0 <= j < i ==> #[trigger] entry_obstacle(state, features, entries, j)
                                is None
                    } ==> refused(
                        state,
                        after,
                        entry_obstacle(state, features, entries, i)->0,
                    )
            }
        }),
{
    lemma_lie_below(state, seq![Type::I32], 0);
    state.lemma_accepts_1(Type::I32);
    assert(state.has_operands(1) == enough(state, 1));
    assert(state.blocks.last() == innermost(state));
    lemma_entries(state, features, table.entries@, table.entries@.len());
}

proof fn lemma_br_table_accepted(
    state: FuncModel,
    features: WasmFeatures,
    module: ModuleModel,
    table: BrTable,
)
    requires
        goes_on(state),
        step(state, features, module, Operator::BrTable { table }).result is Ok,
    ensures
        enough(state, 1),
        known(state) > 0 ==> state.stack_types[state.stack_types.len() - 1] == Type::I32,
        forall|i: int|
            0 <= i < table.entries@.len() ==> #[trigger] entry_obstacle(
                state,
                features,
                table.entries@,
                i,
            ) is None,
{
    lemma_lie_below(state, seq![Type::I32], 0);
    state.lemma_accepts_1(Type::I32);
    assert(state.has_operands(1) == enough(state, 1));
    lemma_entries(state, features, table.entries@, table.entries@.len());
}

proof fn lemma_targets(
    state: FuncModel,
    features: WasmFeatures,
    entries: Seq<Result<(u32, bool), BinaryReaderError>>,
)
    requires
        entries.len() > 0,
        forall|i: int|
            0 <= i < entries.len() ==> #[trigger] entry_obstacle(state, features, entries, i)
                is None,
    ensures
        entries[0] is Ok,
        jump_obstacle(state, features, (entries[0]->Ok_0).0 as int, 1) is None,
        forall|i: int|
            0 <= i < entries.len() ==> {
                &&& (#[trigger] entries[i]) is Ok
                &&& (entries[i]->Ok_0).0 < state.blocks.len()
                &&& stand_together(
                    target(state, (entries[i]->Ok_0).0 as int),
                    target(state, (entries[0]->Ok_0).0 as int),
                )
            },
{
    assert(entry_obstacle(state, features, entries, 0) is None);
    assert forall|i: int| 0 <= i < entries.len() implies {
        &&& (#[trigger] entries[i]) is Ok
        &&& (entries[i]->Ok_0).0 < state.blocks.len()
        &&& stand_together(
            target(state, (entries[i]->Ok_0).0 as int),
            target(state, (entries[0]->Ok_0).0 as int),
        )
    } by {
        assert(entry_obstacle(state, features, entries, i) is None);
    }
}

/// In reachable code an accepted jump table that is not empty has operands for each
/// of its entries: with the `i32` on top taken off, a jump to the first is accepted,
/// and all the others can stand together with it.
pub proof fn law_br_table_is_a_jump(
    state: FuncModel,
    features: WasmFeatures,
    module: ModuleModel,
    table: BrTable,
)
    requires
        goes_on(state),
        !is_unreachable(state),
        table.entries@.len() > 0,
        step(state, features, module, Operator::BrTable { table }).result is Ok,
    ensures
        known(state) > 0,
        state.stack_types[state.stack_types.len() - 1] == Type::I32,
        forall|i: int|
            0 <= i < table.entries@.len() ==> {
                &&& (#[trigger] table.entries@[i]) is Ok
                &&& (table.entries@[i]->Ok_0).0 < state.blocks.len()
                &&& stand_together(
                    target(state, (table.entries@[i]->Ok_0).0 as int),
                    target(state, (table.entries@[0]->Ok_0).0 as int),
                )
            },
        step(
            FuncModel { stack_types: state.stack_types.drop_last(), ..state },
            features,
            module,
            Operator::Br { relative_depth: (table.entries@[0]->Ok_0).0 },
        ).result is Ok,
{
    let rest = FuncModel { stack_types: state.stack_types.drop_last(), ..state };
    let first = (table.entries@[0]->Ok_0).0;
    lemma_br_table_accepted(state, features, module, table);
    lemma_targets(state, features, table.entries@);
    lemma_jump_below(state, features, first);
    law_br(rest, features, module, first);
}

/// The parameters and results of a block of a type.
pub open spec fn block_types(module: ModuleModel, ty: TypeOrFuncType) -> (Seq<Type>, Seq<Type>) {
    match ty {
        TypeOrFuncType::Type(Type::EmptyBlockType) => (seq![], seq![]),
        TypeOrFuncType::Type(ty) => (seq![], seq![ty]),
        TypeOrFuncType::FuncType(at) => (module.types[at].inputs, module.types[at].outputs),
    }
}

/// Why there is no block of a type.
pub open spec fn block_type_obstacle(
    features: WasmFeatures,
    module: ModuleModel,
    ty: TypeOrFuncType,
) -> Option<Seq<char>> {
    match ty {
        TypeOrFuncType::Type(Type::Func) => Some("invalid block return type"@),
        TypeOrFuncType::Type(Type::V128) => vector_obstacle(features),
        TypeOrFuncType::Type(Type::FuncRef) | TypeOrFuncType::Type(Type::ExternRef) => needs(
            features.reference_types,
            "reference types support is not enabled"@,
        ),
        TypeOrFuncType::Type(_) => None,
        TypeOrFuncType::FuncType(at) => first_of(
            needs(module.types.contains_key(at), "unknown type: type index out of bounds"@),
            first_of(
                needs(
                    features.multi_value || module.types[at].outputs.len() <= 1,
                    "blocks, loops, and ifs may only return at most one value when multi-value is not enabled"@,
                ),
                needs(
                    features.multi_value || module.types[at].inputs.len() == 0,
                    "blocks, loops, and ifs accept no parameters when multi-value is not enabled"@,
                ),
            ),
        ),
    }
}

/// The state in a new block within a block with the operands `stack`. The
/// parameters of the new block are its first operands. Where some are not known, it
/// starts without those that are and owes the others.
pub open spec fn inside(
    state: FuncModel,
    stack: Seq<Type>,
    inputs: Seq<Type>,
    outputs: Seq<Type>,
    is_loop: bool,
    is_if: bool,
) -> FuncModel {
    let base = innermost(state).stack_starts_at;
    let n = inputs.len() as int;
    FuncModel {
        stack_types: stack,
        blocks: state.blocks + seq![
            BlockModel {
                start_types: inputs,
                return_types: outputs,
                stack_starts_at: if base + n <= stack.len() {
                    (stack.len() - n) as nat
                } else {
                    base
                },
                jump_to_top: is_loop,
                is_else_allowed: is_if,
                is_dead_code: false,
                polymorphic_values: if base + n <= stack.len() {
                    None
                } else {
                    Some((base + n - stack.len()) as nat)
                },
            },
        ],
        ..state
    }
}

/// `block` and `loop` open a block of their type if its parameters are on top of the
/// stack. A jump to a loop, and to a loop alone, goes to its beginning.
pub proof fn law_block_and_loop(
    state: FuncModel,
    features: WasmFeatures,
    module: ModuleModel,
    ty: TypeOrFuncType,
    is_loop: bool,
)
    requires
        goes_on(state),
    ensures
        ({
            let operator = if is_loop {
                Operator::Loop { ty }
            } else {
                Operator::Block { ty }
            };
            let after = step(state, features, module, operator);
            let (inputs, outputs) = block_types(module, ty);
            match block_type_obstacle(features, module, ty) {
                Some(message) => refused(state, after, message),
                None => if !enough(state, inputs.len() as int) {
                    refused(state, after, "type mismatch: not enough operands"@)
                } else if !lie_below(state, inputs, 0) {
                    refused(state, after, "stack operand type mismatch for block"@)
                } else {
                    accepted(
                        after,
                        inside(state, state.stack_types, inputs, outputs, is_loop, false),
                    )
                },
            }
        }),
{
    let (inputs, outputs) = block_types(module, ty);
    let block_type = if is_loop {
        BlockType::Loop
    } else {
        BlockType::Block
    };
    lemma_lie_below(state, inputs, 0);
    assert(state.has_operands(inputs.len() + 0int) == enough(state, inputs.len() + 0int));
    assert(state.blocks.last() == innermost(state));
    if enough(state, inputs.len() as int) {
        assert(state.entered(block_type, FuncSignature { inputs, outputs }) =~~= inside(
            state,
            state.stack_types,
            inputs,
            outputs,
            is_loop,
            false,
        ));
    }
}

/// `if` takes an `i32`, and opens a block of its type if its parameters are below
/// that. An `else` may follow.
pub proof fn law_if(
    state: FuncModel,
    features: WasmFeatures,
    module: ModuleModel,
    ty: TypeOrFuncType,
)
    requires
        goes_on(state),
    ensures
        ({
            let after = step(state, features, module, Operator::If { ty });
            let stack = state.stack_types;
            let (inputs, outputs) = block_types(module, ty);
            match block_type_obstacle(features, module, ty) {
                Some(message) => refused(state, after, message),
                None => if !enough(state, 1) {
                    refused(state, after, "type mismatch: not enough operands"@)
                } else if known(state) > 0 && stack[stack.len() - 1] != Type::I32 {
                    refused(state, after, "stack operand type mismatch"@)
                } else if !enough(state, inputs.len() + 1int) {
                    refused(state, after, "type mismatch: not enough operands"@)
                } else if !lie_below(state, inputs, 1) {
                    refused(state, after, "stack operand type mismatch for block"@)
                } else {
                    let rest = if known(state) > 0 {
                        stack.drop_last()
                    } else {
                        stack
                    };
                    accepted(after, inside(state, rest, inputs, outputs, false, true))
                },
            }
        }),
{
    let stack = state.stack_types;
    let (inputs, outputs) = block_types(module, ty);
    lemma_lie_below(state, inputs, 1);
    lemma_lie_below(state, seq![Type::I32], 0);
    state.lemma_accepts_1(Type::I32);
    assert(state.has_operands(1) == enough(state, 1));
    assert(state.has_operands(inputs.len() + 1int) == enough(state, inputs.len() + 1int));
    assert(state.blocks.last() == innermost(state));
    if enough(state, inputs.len() + 1int) {
        let rest = if known(state) > 0 {
            stack.drop_last()
        } else {
            stack
        };
        assert(state.entered(BlockType::If, FuncSignature { inputs, outputs }) =~~= inside(
            state,
            rest,
            inputs,
            outputs,
            false,
            true,
        ));
    }
}

/// Why a block cannot end: it has operands that are not its results, or lacks some.
/// In unreachable code it may lack some, but what it owes counts as operands.
pub open spec fn end_obstacle(state: FuncModel, features: WasmFeatures) -> Option<Seq<char>> {
    let types = innermost(state).return_types;
    let fits = match innermost(state).polymorphic_values {
        None => known(state) == types.len(),
        Some(owed) => known(state) + owed <= types.len(),
    };
    if !fits {
        Some("type mismatch: stack size does not match block type"@)
    } else if types.len() > 1 && !features.multi_value {
        Some(
            "blocks, loops, and ifs may only return at most one value when multi-value is not enabled"@,
        )
    } else {
        needs(
            lie_below(state, types, 0),
            "type mismatch: stack item type does not match block item type"@,
        )
    }
}

proof fn lemma_end(state: FuncModel, features: WasmFeatures)
    requires
        goes_on(state),
    ensures
        match end_obstacle(state, features) {
            None => state.block_return_check(features) is Ok,
            Some(message) => state.block_return_check(features) == Err::<(), Seq<char>>(message),
        },
{
    lemma_lie_below(state, innermost(state).return_types, 0);
    assert(state.blocks.last() == innermost(state));
}

/// `else` stands once in an `if`, where the block can end. Behind it the block begins
/// anew, whatever came before: its operands are its parameters, it owes none, and
/// code is reached.
pub proof fn law_else(state: FuncModel, features: WasmFeatures, module: ModuleModel)
    requires
        goes_on(state),
    ensures
        ({
            let after = step(state, features, module, Operator::Else);
            let block = innermost(state);
            if !block.is_else_allowed {
                refused(state, after, "unexpected else: if block is not started"@)
            } else {
                match end_obstacle(state, features) {
                    Some(message) => refused(state, after, message),
                    None => {
                        &&& after.result == Ok::<FunctionEnd, Seq<char>>(FunctionEnd::No)
                        &&& !is_unreachable(after.state)
                        &&& after.state.stack_types.skip(block.stack_starts_at as int)
                            == block.start_types
                        &&& after.state == (FuncModel {
                            stack_types: state.stack_types.take(block.stack_starts_at as int)
                                + block.start_types,
                            blocks: state.blocks.update(
                                state.blocks.len() - 1,
                                BlockModel {
                                    is_else_allowed: false,
                                    polymorphic_values: None,
                                    ..block
                                },
                            ),
                            ..state
                        })
                    },
                }
            }
        }),
{
    let block = innermost(state);
    lemma_end(state, features);
    assert(state.blocks.last() == innermost(state));
    let base = block.stack_starts_at as int;
    assert((state.stack_types.take(base) + block.start_types).skip(base) =~= block.start_types);
}

/// An `end` right behind an accepted `else` is accepted if and only if the parameters
/// of the block are its results; without multiple values, that is one at most.
pub proof fn law_end_behind_else(state: FuncModel, features: WasmFeatures, module: ModuleModel)
    requires
        goes_on(state),
        state.blocks.len() > 1,
        step(state, features, module, Operator::Else).result is Ok,
    ensures
        step(
            step(state, features, module, Operator::Else).state,
            features,
            module,
            Operator::End,
        ).result is Ok <==> {
            &&& innermost(state).start_types == innermost(state).return_types
            &&& features.multi_value || innermost(state).return_types.len() <= 1
        },
{
    let block = innermost(state);
    law_else(state, features, module);
    let after = step(state, features, module, Operator::Else).state;
    law_end(after, features, module);
    let base = block.stack_starts_at as int;
    let operands = after.stack_types.skip(base);
    assert(operands == block.start_types);
    if block.start_types.len() == block.return_types.len() {
        let first = after.stack_types.len() - block.return_types.len();
        assert(first == base);
        if lie_below(after, block.return_types, 0) {
            assert forall|i: int| 0 <= i < block.start_types.len() implies block.start_types[i]
                == block.return_types[i] by {
                assert(operands[i] == after.stack_types[base + i]);
            }
            assert(block.start_types =~= block.return_types);
        }
        if block.start_types == block.return_types {
            assert forall|i: int|
                0 <= i < block.return_types.len() && base <= first
                    + i implies after.stack_types[first + i] == #[trigger] block.return_types[i] by {
                assert(operands[i] == after.stack_types[base + i]);
            }
        }
    }
}

/// `end` closes a block that can end: its results take the place of its operands. An
/// `if` without `else` has its parameters for results. The end of the outermost block
/// is the end of the body.
pub proof fn law_end(state: FuncModel, features: WasmFeatures, module: ModuleModel)
    requires
        goes_on(state),
    ensures
        ({
            let after = step(state, features, module, Operator::End);
            let block = innermost(state);
            match end_obstacle(state, features) {
                Some(message) => refused(state, after, message),
                None => if state.blocks.len() == 1 {
                    &&& after.result == Ok::<FunctionEnd, Seq<char>>(FunctionEnd::Yes)
                    &&& after.state == (FuncModel { end_function: true, ..state })
                } else if block.is_else_allowed && block.start_types != block.return_types {
                    refused(
                        state,
                        after,
                        "type mismatch: else is expected: if block has a type that can't be implemented with a no-op"@,
                    )
                } else {
                    accepted(
                        after,
                        FuncModel {
                            stack_types: state.stack_types.take(block.stack_starts_at as int)
                                + block.return_types,
                            blocks: state.blocks.take(state.blocks.len() - 1),
                            ..state
                        },
                    )
                },
            }
        }),
{
    lemma_end(state, features);
    assert(state.blocks.last() == innermost(state));
    assert(state.blocks.drop_last() =~= state.blocks.take(state.blocks.len() - 1));
}

} // verus!
