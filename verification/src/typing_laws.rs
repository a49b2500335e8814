//! What it is to take operands off the stack and to leave others on it, and which
//! ones the operators on variables, functions, tables and memories do.

use vstd::prelude::*;

use crate::features::WasmFeatures;
use crate::model::{BlockModel, FuncModel};
use crate::operators_validator::FunctionEnd;
use crate::primitives::{MemoryImmediate, MemoryType, Operator, Type};
use crate::resources::ModuleModel;
use crate::rules::{retyped, step, Step};
use crate::text::indexed;

verus! {

/// The body goes on, and some block is open that begins within the stack.
pub open spec fn goes_on(state: FuncModel) -> bool {
    &&& !state.end_function
    &&& state.blocks.len() > 0
    &&& innermost(state).stack_starts_at <= state.stack_types.len()
}

/// The block that was opened last.
pub open spec fn innermost(state: FuncModel) -> BlockModel {
    state.blocks[state.blocks.len() - 1]
}

/// How many operands of the innermost block are known.
pub open spec fn known(state: FuncModel) -> int {
    state.stack_types.len() - innermost(state).stack_starts_at
}

/// Whether the innermost block stands in for operands that it lacks.
pub open spec fn is_unreachable(state: FuncModel) -> bool {
    innermost(state).polymorphic_values is Some
}

/// Whether there are `n` operands to take.
pub open spec fn enough(state: FuncModel, n: int) -> bool {
    n <= known(state) || is_unreachable(state)
}

/// Whether, of the operands that end below the topmost `above`, none that is
/// known differs from `types`. The topmost type comes last.
pub open spec fn lie_below(state: FuncModel, types: Seq<Type>, above: int) -> bool {
    let first = state.stack_types.len() - above - types.len();
    forall|i: int|
        0 <= i < types.len() && innermost(state).stack_starts_at <= first + i
            ==> state.stack_types[first + i] == #[trigger] types[i]
}

/// The operator is refused, and nothing changes.
pub open spec fn refused(before: FuncModel, after: Step, message: Seq<char>) -> bool {
    after.state == before && after.result == Err::<FunctionEnd, Seq<char>>(message)
}

/// The operator is accepted, the body goes on, and `state` follows.
pub open spec fn accepted(after: Step, state: FuncModel) -> bool {
    after.state == state && after.result == Ok::<FunctionEnd, Seq<char>>(FunctionEnd::No)
}

/// What is left of the number of operands owed by the innermost block after `n`
/// were taken.
pub open spec fn owed(state: FuncModel, n: int) -> Option<nat> {
    match innermost(state).polymorphic_values {
        None => None,
        Some(owed) => if n <= known(state) {
            Some(owed)
        } else if n - known(state) <= owed {
            Some((owed - (n - known(state))) as nat)
        } else {
            Some(0)
        },
    }
}

/// The state with operands of the types `outputs` in place of the topmost `n`,
/// as far as these are known.
pub open spec fn replaced(state: FuncModel, n: int, outputs: Seq<Type>) -> FuncModel {
    let kept = if n <= known(state) {
        state.stack_types.len() - n
    } else {
        innermost(state).stack_starts_at as int
    };
    FuncModel {
        stack_types: state.stack_types.take(kept) + outputs,
        blocks: state.blocks.update(
            state.blocks.len() - 1,
            BlockModel { polymorphic_values: owed(state, n), ..innermost(state) },
        ),
        ..state
    }
}

/// The operator asks for operands of the types `inputs`, which it replaces by
/// `outputs`, and for nothing else.
pub open spec fn takes_and_leaves(
    before: FuncModel,
    after: Step,
    inputs: Seq<Type>,
    outputs: Seq<Type>,
) -> bool {
    if !enough(before, inputs.len() as int) {
        refused(before, after, "type mismatch: not enough operands"@)
    } else if !lie_below(before, inputs, 0) {
        refused(before, after, "stack operand type mismatch"@)
    } else {
        accepted(after, replaced(before, inputs.len() as int, outputs))
    }
}

/// The operator is refused with the message of `obstacle`, if there is one, and
/// otherwise replaces `inputs` by `outputs`.
pub open spec fn unless(
    obstacle: Option<Seq<char>>,
    before: FuncModel,
    after: Step,
    inputs: Seq<Type>,
    outputs: Seq<Type>,
) -> bool {
    match obstacle {
        Some(message) => refused(before, after, message),
        None => takes_and_leaves(before, after, inputs, outputs),
    }
}

/// The first of two obstacles.
pub open spec fn first_of(a: Option<Seq<char>>, b: Option<Seq<char>>) -> Option<Seq<char>> {
    if a is Some {
        a
    } else {
        b
    }
}

/// Why an operator is refused that needs something, unless it is there.
pub open spec fn needs(there: bool, message: Seq<char>) -> Option<Seq<char>> {
    if there {
        None
    } else {
        Some(message)
    }
}

/// Why operators on floats are refused.
pub open spec fn float_obstacle(features: WasmFeatures) -> Option<Seq<char>> {
    needs(
        features.deterministic ==> features.deterministic_only,
        "deterministic_only support is not enabled"@,
    )
}

/// Why operators on vectors are refused.
pub open spec fn vector_obstacle(features: WasmFeatures) -> Option<Seq<char>> {
    needs(features.simd, "SIMD support is not enabled"@)
}

/// Why operators on values of a type are refused.
pub open spec fn value_obstacle(features: WasmFeatures, ty: Type) -> Option<Seq<char>> {
    match ty {
        Type::F32 | Type::F64 => float_obstacle(features),
        Type::V128 => vector_obstacle(features),
        _ => None,
    }
}

/// Why operators on vectors with lanes of a type are refused.
pub open spec fn lane_obstacle(features: WasmFeatures, floats: bool) -> Option<Seq<char>> {
    first_of(
        if floats {
            float_obstacle(features)
        } else {
            None
        },
        vector_obstacle(features),
    )
}

/// Why operators on ranges of memories and tables are refused.
pub open spec fn bulk_obstacle(features: WasmFeatures) -> Option<Seq<char>> {
    needs(features.bulk_memory, "bulk memory support is not enabled"@)
}

/// Whether a type is one of numbers.
pub open spec fn is_number(ty: Type) -> bool {
    ty == Type::I32 || ty == Type::I64 || ty == Type::F32 || ty == Type::F64
}

/// The type of an address into a memory.
pub open spec fn address_type(memory: MemoryType) -> Type {
    match memory {
        MemoryType::M32 => Type::I32,
        MemoryType::M64 => Type::I64,
    }
}

/// Why operators on the memory at an index are refused.
pub open spec fn memory_obstacle(
    features: WasmFeatures,
    module: ModuleModel,
    memory: u32,
) -> Option<Seq<char>> {
    first_of(
        needs(memory == 0 || features.multi_memory, "multi-memory support is not enabled"@),
        needs(module.memories.contains_key(memory), indexed("unknown memory "@, memory, ""@)),
    )
}

/// Why operators that read or write `bytes` bytes are refused: the alignment may
/// not exceed their number.
pub open spec fn access_obstacle(
    features: WasmFeatures,
    module: ModuleModel,
    memarg: MemoryImmediate,
    bytes: nat,
) -> Option<Seq<char>> {
    first_of(
        memory_obstacle(features, module, memarg.memory),
        needs(
            match memarg.align {
                0 => 1 <= bytes,
                1 => 2 <= bytes,
                2 => 4 <= bytes,
                3 => 8 <= bytes,
                4 => 16 <= bytes,
                _ => false,
            },
            "alignment must not be larger than natural"@,
        ),
    )
}

/// Why atomic operators are refused.
pub open spec fn atomic_obstacle(features: WasmFeatures, module: ModuleModel) -> Option<
    Seq<char>,
> {
    first_of(
        needs(features.threads, "threads support is not enabled"@),
        memory_obstacle(features, module, 0),
    )
}

/// Operands are accepted if and only if none that is known differs.
pub(crate) proof fn lemma_lie_below(state: FuncModel, types: Seq<Type>, above: int)
    requires
        state.blocks.len() > 0,
        innermost(state).stack_starts_at <= state.stack_types.len(),
        above >= 0,
    ensures
        forall|n: int| #[trigger] state.has_operands(n) == enough(state, n),
        enough(state, types.len() + above) ==> state.accepts_all(types, above) == lie_below(
            state,
            types,
            above,
        ),
{
    let n = types.len() as int;
    let first = state.stack_types.len() - above - n;
    assert(state.blocks.last() == innermost(state));
    if enough(state, n + above) {
        assert forall|i: int| 0 <= i < n implies state.accepts(
            n - 1 - i + above,
            #[trigger] types[i],
        ) == (innermost(state).stack_starts_at <= first + i ==> state.stack_types[first + i]
            == types[i]) by {}
        if lie_below(state, types, above) {
            assert forall|i: int| 0 <= i < types.len() implies state.accepts(
                types.len() - 1 - i + above,
                #[trigger] types[i],
            ) by {}
        }
        if state.accepts_all(types, above) {
            assert forall|i: int|
                0 <= i < n && innermost(state).stack_starts_at <= first + i implies state.stack_types[
            first + i] == #[trigger] types[i] by {
                assert(state.accepts(types.len() - 1 - i + above, types[i]));
            }
        }
    }
}

/// Taking operands off and putting others on the stack.
pub(crate) proof fn lemma_replaced(state: FuncModel, n: int, outputs: Seq<Type>)
    requires
        state.blocks.len() > 0,
        innermost(state).stack_starts_at <= state.stack_types.len(),
        n >= 0,
        enough(state, n),
    ensures
        state.popped(n).pushed(outputs) == replaced(state, n, outputs),
        state.popped(n) == replaced(state, n, seq![]),
{
    assert(state.blocks.last() == innermost(state));
    assert(state.popped(n).pushed(outputs) =~~= replaced(state, n, outputs));
    assert(state.popped(n) =~~= replaced(state, n, seq![]));
}

/// Taking operands off and putting results on the stack, with the checks.
pub(crate) proof fn lemma_retyped(state: FuncModel, inputs: Seq<Type>, outputs: Seq<Type>)
    requires
        goes_on(state),
    ensures
        takes_and_leaves(state, retyped(state, inputs, outputs), inputs, outputs),
{
    lemma_lie_below(state, inputs, 0);
    assert(state.has_operands(inputs.len() as int) == enough(state, inputs.len() as int));
    if enough(state, inputs.len() as int) {
        lemma_replaced(state, inputs.len() as int, outputs);
    }
}

/// A local is read and written at its type.
pub proof fn law_local_operators(
    state: FuncModel,
    features: WasmFeatures,
    module: ModuleModel,
    index: u32,
)
    requires
        goes_on(state),
    ensures
        ({
            let ty = state.local_types[index as int];
            let obstacle = needs(
                index < state.local_types.len(),
                indexed("unknown local "@, index, ": local index out of bounds"@),
            );
            &&& unless(
                obstacle,
                state,
                step(state, features, module, Operator::LocalGet { local_index: index }),
                seq![],
                seq![ty],
            )
            &&& unless(
                obstacle,
                state,
                step(state, features, module, Operator::LocalSet { local_index: index }),
                seq![ty],
                seq![],
            )
            &&& unless(
                obstacle,
                state,
                step(state, features, module, Operator::LocalTee { local_index: index }),
                seq![ty],
                seq![ty],
            )
        }),
{
    let ty = state.local_types[index as int];
    lemma_retyped(state, seq![], seq![ty]);
    lemma_retyped(state, seq![ty], seq![]);
    lemma_retyped(state, seq![ty], seq![ty]);
}

/// A global is read at its type, and written if it is mutable.
pub proof fn law_global_operators(
    state: FuncModel,
    features: WasmFeatures,
    module: ModuleModel,
    index: u32,
)
    requires
        goes_on(state),
    ensures
        ({
            let global = module.globals[index];
            let unknown = needs(
                module.globals.contains_key(index),
                "unknown global: global index out of bounds"@,
            );
            &&& unless(
                unknown,
                state,
                step(state, features, module, Operator::GlobalGet { global_index: index }),
                seq![],
                seq![global.content_type],
            )
            &&& unless(
                first_of(
                    unknown,
                    needs(
                        global.mutable,
                        "global is immutable: cannot modify it with `global.set`"@,
                    ),
                ),
                state,
                step(state, features, module, Operator::GlobalSet { global_index: index }),
                seq![global.content_type],
                seq![],
            )
        }),
{
    let ty = module.globals[index].content_type;
    lemma_retyped(state, seq![], seq![ty]);
    lemma_retyped(state, seq![ty], seq![]);
}

/// A call takes the arguments of the function and leaves its results. A call
/// through a table takes an index besides, which lies above the arguments.
pub proof fn law_calls(
    state: FuncModel,
    features: WasmFeatures,
    module: ModuleModel,
    function_index: u32,
    index: u32,
    table_index: u32,
)
    requires
        goes_on(state),
    ensures
        ({
            let callee = module.functions[function_index];
            let named = module.types[index];
            &&& unless(
                needs(
                    module.functions.contains_key(function_index),
                    indexed(
                        "unknown function "@,
                        function_index,
                        ": function index out of bounds"@,
                    ),
                ),
                state,
                step(state, features, module, Operator::Call { function_index }),
                callee.inputs,
                callee.outputs,
            )
            &&& unless(
                first_of(
                    needs(
                        module.tables.contains_key(table_index),
                        "unknown table: table index out of bounds"@,
                    ),
                    needs(
                        module.types.contains_key(index),
                        "unknown type: type index out of bounds"@,
                    ),
                ),
                state,
                step(state, features, module, Operator::CallIndirect { index, table_index }),
                named.inputs + seq![Type::I32],
                named.outputs,
            )
        }),
{
    let callee = module.functions[function_index];
    let named = module.types[index];
    assert(named.inputs + seq![Type::I32] =~= named.inputs.push(Type::I32));
    lemma_retyped(state, callee.inputs, callee.outputs);
    lemma_retyped(state, named.inputs.push(Type::I32), named.outputs);
}

/// A tail call is a call and a return, in this order.
pub proof fn law_tail_calls(
    state: FuncModel,
    features: WasmFeatures,
    module: ModuleModel,
    function_index: u32,
    index: u32,
    table_index: u32,
)
    requires
        goes_on(state),
    ensures
        ({
            &&& if !features.tail_call {
                refused(state, step(state, features, module, Operator::ReturnCall { function_index }), "tail calls support is not enabled"@)
            } else if step(state, features, module, Operator::Call { function_index }).result is Ok {
                step(state, features, module, Operator::ReturnCall { function_index }) == step(
                    step(state, features, module, Operator::Call { function_index }).state,
                    features,
                    module,
                    Operator::Return,
                )
            } else {
                step(state, features, module, Operator::ReturnCall { function_index }) == step(state, features, module, Operator::Call { function_index })
            }
            &&& if !features.tail_call {
                refused(state, step(state, features, module, Operator::ReturnCallIndirect { index, table_index }), "tail calls support is not enabled"@)
            } else if step(state, features, module, Operator::CallIndirect { index, table_index }).result is Ok {
                step(state, features, module, Operator::ReturnCallIndirect { index, table_index }) == step(
                    step(state, features, module, Operator::CallIndirect { index, table_index }).state,
                    features,
                    module,
                    Operator::Return,
                )
            } else {
                step(state, features, module, Operator::ReturnCallIndirect { index, table_index }) == step(state, features, module, Operator::CallIndirect { index, table_index })
            }
        }),
{
}

/// The size of a memory is an address into it, and so is what it grows by.
pub proof fn law_memory_size_operators(
    state: FuncModel,
    features: WasmFeatures,
    module: ModuleModel,
    mem: u32,
    mem_byte: u8,
)
    requires
        goes_on(state),
    ensures
        ({
            let address = address_type(module.memories[mem]);
            let obstacle = first_of(
                needs(mem_byte == 0 || features.multi_memory, "multi-memory not enabled"@),
                memory_obstacle(features, module, mem),
            );
            &&& unless(
                obstacle,
                state,
                step(state, features, module, Operator::MemorySize { mem, mem_byte }),
                seq![],
                seq![address],
            )
            &&& unless(
                obstacle,
                state,
                step(state, features, module, Operator::MemoryGrow { mem, mem_byte }),
                seq![address],
                seq![address],
            )
        }),
{
    let address = address_type(module.memories[mem]);
    lemma_retyped(state, seq![], seq![address]);
    lemma_retyped(state, seq![address], seq![address]);
}

/// A fence takes and leaves nothing.
pub proof fn law_fence(
    state: FuncModel,
    features: WasmFeatures,
    module: ModuleModel,
    flags: u8,
)
    requires
        goes_on(state),
    ensures
        ({
            &&& unless(
                first_of(
                    needs(features.threads, "threads support is not enabled"@),
                    needs(flags == 0, "non-zero flags for fence not supported yet"@),
                ),
                state,
                step(state, features, module, Operator::AtomicFence { flags }),
                seq![],
                seq![],
            )
        }),
{
    lemma_retyped(state, seq![], seq![]);
}

/// A null reference is of the type that it names, and a reference to a declared
/// function is one to a function.
pub proof fn law_new_references(
    state: FuncModel,
    features: WasmFeatures,
    module: ModuleModel,
    ty: Type,
    function_index: u32,
)
    requires
        goes_on(state),
    ensures
        ({
            &&& unless(
                first_of(
                    needs(features.reference_types, "reference types support is not enabled"@),
                    needs(
                        ty == Type::FuncRef || ty == Type::ExternRef,
                        "invalid reference type in ref.null"@,
                    ),
                ),
                state,
                step(state, features, module, Operator::RefNull { ty }),
                seq![],
                seq![ty],
            )
            &&& unless(
                first_of(
                    needs(features.reference_types, "reference types support is not enabled"@),
                    first_of(
                        needs(
                            module.functions.contains_key(function_index),
                            "unknown function: function index out of bounds"@,
                        ),
                        needs(
                            module.referenced_functions.contains(function_index),
                            "undeclared function reference"@,
                        ),
                    ),
                ),
                state,
                step(state, features, module, Operator::RefFunc { function_index }),
                seq![],
                seq![Type::FuncRef],
            )
        }),
{
    lemma_retyped(state, seq![], seq![ty]);
    lemma_retyped(state, seq![], seq![Type::FuncRef]);
}

/// An element of a table is read at an `i32`, at the type that the table has.
pub proof fn law_table_get(
    state: FuncModel,
    features: WasmFeatures,
    module: ModuleModel,
    table: u32,
)
    requires
        goes_on(state),
    ensures
        ({
            let ty = module.tables[table].element_type;
            let unknown = needs(
                module.tables.contains_key(table),
                "table index out of bounds"@,
            );
            let obstacle = first_of(
                needs(features.reference_types, "reference types support is not enabled"@),
                unknown,
            );
            &&& unless(
                obstacle,
                state,
                step(state, features, module, Operator::TableGet { table }),
                seq![Type::I32],
                seq![ty],
            )
        }),
{
    let ty = module.tables[table].element_type;
    lemma_retyped(state, seq![Type::I32], seq![ty]);
}

/// An element of a table is written at an `i32`, at the type that the table has.
pub proof fn law_table_set(
    state: FuncModel,
    features: WasmFeatures,
    module: ModuleModel,
    table: u32,
)
    requires
        goes_on(state),
    ensures
        ({
            let ty = module.tables[table].element_type;
            let unknown = needs(
                module.tables.contains_key(table),
                "table index out of bounds"@,
            );
            let obstacle = first_of(
                needs(features.reference_types, "reference types support is not enabled"@),
                unknown,
            );
            &&& unless(
                obstacle,
                state,
                step(state, features, module, Operator::TableSet { table }),
                seq![Type::I32, ty],
                seq![],
            )
        }),
{
    let ty = module.tables[table].element_type;
    lemma_retyped(state, seq![Type::I32, ty], seq![]);
}

/// A table grows by an `i32` of elements of its type, and tells an `i32`.
pub proof fn law_table_grow(
    state: FuncModel,
    features: WasmFeatures,
    module: ModuleModel,
    table: u32,
)
    requires
        goes_on(state),
    ensures
        ({
            let ty = module.tables[table].element_type;
            let unknown = needs(
                module.tables.contains_key(table),
                "table index out of bounds"@,
            );
            let obstacle = first_of(
                needs(features.reference_types, "reference types support is not enabled"@),
                unknown,
            );
            &&& unless(
                obstacle,
                state,
                step(state, features, module, Operator::TableGrow { table }),
                seq![ty, Type::I32],
                seq![Type::I32],
            )
        }),
{
    let ty = module.tables[table].element_type;
    lemma_retyped(state, seq![ty, Type::I32], seq![Type::I32]);
}

/// The size of a table is an `i32`.
pub proof fn law_table_size(
    state: FuncModel,
    features: WasmFeatures,
    module: ModuleModel,
    table: u32,
)
    requires
        goes_on(state),
    ensures
        ({
            let unknown = needs(
                module.tables.contains_key(table),
                "table index out of bounds"@,
            );
            let obstacle = first_of(
                needs(features.reference_types, "reference types support is not enabled"@),
                unknown,
            );
            &&& unless(
                obstacle,
                state,
                step(state, features, module, Operator::TableSize { table }),
                seq![],
                seq![Type::I32],
            )
        }),
{
    lemma_retyped(state, seq![], seq![Type::I32]);
}

/// A table is filled from an `i32` on, with an element of its type, for an `i32`.
pub proof fn law_table_fill(
    state: FuncModel,
    features: WasmFeatures,
    module: ModuleModel,
    table: u32,
)
    requires
        goes_on(state),
    ensures
        ({
            let ty = module.tables[table].element_type;
            let unknown = needs(
                module.tables.contains_key(table),
                "table index out of bounds"@,
            );
            &&& unless(
                first_of(bulk_obstacle(features), unknown),
                state,
                step(state, features, module, Operator::TableFill { table }),
                seq![Type::I32, ty, Type::I32],
                seq![],
            )
        }),
{
    let ty = module.tables[table].element_type;
    lemma_retyped(state, seq![Type::I32, ty, Type::I32], seq![]);
}

/// A range of elements goes to a table of their type: from a segment, or from
/// another table. Tables but the first need references.
pub proof fn law_table_ranges(
    state: FuncModel,
    features: WasmFeatures,
    module: ModuleModel,
    segment: u32,
    table: u32,
    src_table: u32,
    dst_table: u32,
)
    requires
        goes_on(state),
    ensures
        ({
            let range = seq![Type::I32, Type::I32, Type::I32];
            &&& unless(
                first_of(
                    first_of(
                        bulk_obstacle(features),
                        needs(
                            table == 0 || features.reference_types,
                            "reference types support is not enabled"@,
                        ),
                    ),
                    first_of(
                        needs(
                            module.tables.contains_key(table),
                            indexed("unknown table "@, table, ": table index out of bounds"@),
                        ),
                        first_of(
                            needs(
                                module.elements.contains_key(segment),
                                indexed(
                                    "unknown elem segment "@,
                                    segment,
                                    ": segment index out of bounds"@,
                                ),
                            ),
                            needs(
                                module.elements[segment] == module.tables[table].element_type,
                                "type mismatch"@,
                            ),
                        ),
                    ),
                ),
                state,
                step(state, features, module, Operator::TableInit { segment, table }),
                range,
                seq![],
            )
            &&& unless(
                first_of(
                    first_of(
                        bulk_obstacle(features),
                        needs(
                            (src_table == 0 && dst_table == 0) || features.reference_types,
                            "reference types support is not enabled"@,
                        ),
                    ),
                    first_of(
                        needs(
                            module.tables.contains_key(src_table) && module.tables.contains_key(
                                dst_table,
                            ),
                            "table index out of bounds"@,
                        ),
                        needs(
                            module.tables[src_table].element_type
                                == module.tables[dst_table].element_type,
                            "type mismatch"@,
                        ),
                    ),
                ),
                state,
                step(state, features, module, Operator::TableCopy { src_table, dst_table }),
                range,
                seq![],
            )
            &&& unless(
                first_of(
                    bulk_obstacle(features),
                    needs(
                        segment < module.element_count,
                        indexed(
                            "unknown elem segment "@,
                            segment,
                            ": segment index out of bounds"@,
                        ),
                    ),
                ),
                state,
                step(state, features, module, Operator::ElemDrop { segment }),
                seq![],
                seq![],
            )
        }),
{
    lemma_retyped(state, seq![Type::I32, Type::I32, Type::I32], seq![]);
    lemma_retyped(state, seq![], seq![]);
}

/// A memory is filled from an address on with bytes of a segment, which is indexed
/// by an `i32`.
pub proof fn law_memory_init(
    state: FuncModel,
    features: WasmFeatures,
    module: ModuleModel,
    mem: u32,
    segment: u32,
)
    requires
        goes_on(state),
    ensures
        ({
            let address = address_type(module.memories[mem]);
            let unknown_segment = needs(
                segment < module.data_count,
                indexed("unknown data segment "@, segment, ""@),
            );
            &&& unless(
                first_of(
                    first_of(bulk_obstacle(features), memory_obstacle(features, module, mem)),
                    unknown_segment,
                ),
                state,
                step(state, features, module, Operator::MemoryInit { mem, segment }),
                seq![address, Type::I32, Type::I32],
                seq![],
            )
        }),
{
    let address = address_type(module.memories[mem]);
    lemma_retyped(state, seq![address, Type::I32, Type::I32], seq![]);
}

/// A segment is dropped without operands.
pub proof fn law_data_drop(
    state: FuncModel,
    features: WasmFeatures,
    module: ModuleModel,
    segment: u32,
)
    requires
        goes_on(state),
    ensures
        ({
            let unknown_segment = needs(
                segment < module.data_count,
                indexed("unknown data segment "@, segment, ""@),
            );
            &&& unless(
                first_of(bulk_obstacle(features), unknown_segment),
                state,
                step(state, features, module, Operator::DataDrop { segment }),
                seq![],
                seq![],
            )
        }),
{
    lemma_retyped(state, seq![], seq![]);
}

/// A memory is filled from an address on with an `i32`, for a length that is an
/// address.
pub proof fn law_memory_fill(
    state: FuncModel,
    features: WasmFeatures,
    module: ModuleModel,
    mem: u32,
)
    requires
        goes_on(state),
    ensures
        ({
            let address = address_type(module.memories[mem]);
            &&& unless(
                first_of(bulk_obstacle(features), memory_obstacle(features, module, mem)),
                state,
                step(state, features, module, Operator::MemoryFill { mem }),
                seq![address, Type::I32, address],
                seq![],
            )
        }),
{
    let address = address_type(module.memories[mem]);
    lemma_retyped(state, seq![address, Type::I32, address], seq![]);
}

/// Bytes are copied from one memory to another, for a length that is an address into
/// both.
pub proof fn law_memory_copy(
    state: FuncModel,
    features: WasmFeatures,
    module: ModuleModel,
    src: u32,
    dst: u32,
)
    requires
        goes_on(state),
    ensures
        ({
            let from = address_type(module.memories[src]);
            let to = address_type(module.memories[dst]);
            let length = if from == Type::I64 && to == Type::I64 {
                Type::I64
            } else {
                Type::I32
            };
            &&& unless(
                first_of(
                    bulk_obstacle(features),
                    first_of(
                        memory_obstacle(features, module, src),
                        memory_obstacle(features, module, dst),
                    ),
                ),
                state,
                step(state, features, module, Operator::MemoryCopy { src, dst }),
                seq![to, from, length],
                seq![],
            )
        }),
{
    let from = address_type(module.memories[src]);
    let to = address_type(module.memories[dst]);
    let length = if from == Type::I64 && to == Type::I64 {
        Type::I64
    } else {
        Type::I32
    };
    lemma_retyped(state, seq![to, from, length], seq![]);
}

/// A `drop` takes one operand, whatever its type is.
pub proof fn law_drop(
    state: FuncModel,
    features: WasmFeatures,
    module: ModuleModel,
)
    requires
        goes_on(state),
    ensures
        ({
            let after = step(state, features, module, Operator::Drop);
            &&& if enough(state, 1) {
                accepted(after, replaced(state, 1, seq![]))
            } else {
                refused(state, after, "type mismatch: not enough operands"@)
            }
        }),
{
    lemma_lie_below(state, seq![], 1);
    assert(state.has_operands(1) == enough(state, 1));
    if enough(state, 1) {
        lemma_replaced(state, 1, seq![]);
    }
}

/// A reference of any type can be compared with null, and so can an operand that is
/// not known.
pub proof fn law_ref_is_null(
    state: FuncModel,
    features: WasmFeatures,
    module: ModuleModel,
)
    requires
        goes_on(state),
    ensures
        ({
            let after = step(state, features, module, Operator::RefIsNull);
            let top = state.stack_types[state.stack_types.len() - 1];
            &&& if !features.reference_types {
                refused(state, after, "reference types support is not enabled"@)
            } else if !enough(state, 1) {
                refused(state, after, "type mismatch: not enough operands"@)
            } else if known(state) > 0 && top != Type::FuncRef && top != Type::ExternRef {
                refused(
                    state,
                    after,
                    "type mismatch: invalid reference type in ref.is_null"@,
                )
            } else {
                accepted(after, replaced(state, 1, seq![Type::I32]))
            }
        }),
{
    lemma_lie_below(state, seq![], 1);
    assert(state.has_operands(1) == enough(state, 1));
    if enough(state, 1) {
        lemma_replaced(state, 1, seq![Type::I32]);
    }
}

/// A shuffle takes two vectors and leaves one, made of lanes that they have between
/// them.
pub proof fn law_shuffle(
    state: FuncModel,
    features: WasmFeatures,
    module: ModuleModel,
    lanes: [u8; 16],
)
    requires
        goes_on(state),
    ensures
        ({
            let after = step(state, features, module, Operator::V8x16Shuffle { lanes });
            let vectors = seq![Type::V128, Type::V128];
            &&& if !features.simd {
                refused(state, after, "SIMD support is not enabled"@)
            } else if enough(state, 2) && lie_below(state, vectors, 0) && exists|i: int|
                0 <= i < 16 && #[trigger] lanes@[i] >= 32 {
                refused(state, after, "SIMD index out of bounds"@)
            } else {
                takes_and_leaves(state, after, vectors, seq![Type::V128])
            }
        }),
{
    let vectors = seq![Type::V128, Type::V128];
    lemma_lie_below(state, vectors, 0);
    assert(state.has_operands(2) == enough(state, 2));
    lemma_retyped(state, vectors, seq![Type::V128]);
}

/// A `select` takes an `i32` and two operands below it of one numeric type, as far
/// as they are known, and leaves one of that type. Where neither is known, the
/// block owes one operand more.
pub proof fn law_select(
    state: FuncModel,
    features: WasmFeatures,
    module: ModuleModel,
)
    requires
        goes_on(state),
    ensures
        ({
            let after = step(state, features, module, Operator::Select);
            let stack = state.stack_types;
            let len = stack.len() as int;
            let n = known(state);
            &&& if !enough(state, 3) {
                refused(state, after, "type mismatch: not enough operands"@)
            } else if {
                ||| n >= 1 && stack[len - 1] != Type::I32
                ||| n >= 3 && stack[len - 2] != stack[len - 3]
            } {
                refused(state, after, "stack operand type mismatch"@)
            } else if n >= 2 && !is_number(stack[len - 2]) {
                refused(
                    state,
                    after,
                    "type mismatch: only integer types allowed with bare `select`"@,
                )
            } else if n >= 2 {
                accepted(after, replaced(state, 3, seq![stack[len - 2]]))
            } else {
                let rest = replaced(state, 3, seq![]);
                accepted(
                    after,
                    FuncModel {
                        blocks: rest.blocks.update(
                            rest.blocks.len() - 1,
                            BlockModel {
                                polymorphic_values: Some(
                                    (innermost(rest).polymorphic_values->0 + 1) as nat,
                                ),
                                ..innermost(rest)
                            },
                        ),
                        ..rest
                    },
                )
            }
        }),
{
    let stack = state.stack_types;
    lemma_lie_below(state, seq![], 3);
    assert(state.has_operands(3) == enough(state, 3));
    assert(state.blocks.last() == innermost(state));
    if enough(state, 3) {
        lemma_replaced(state, 3, seq![stack[stack.len() - 2]]);
        let rest = replaced(state, 3, seq![]);
        assert(rest.blocks.last() == innermost(rest));
    }
}

/// A `select` with a type takes an `i32` and an operand of that type below it, if
/// three operands are known, and leaves one of that type in place of three.
pub proof fn law_typed_select(
    state: FuncModel,
    features: WasmFeatures,
    module: ModuleModel,
    ty: Type,
)
    requires
        goes_on(state),
    ensures
        ({
            let after = step(state, features, module, Operator::TypedSelect { ty });
            let stack = state.stack_types;
            let len = stack.len() as int;
            let n = known(state);
            &&& if !enough(state, 3) {
                refused(state, after, "type mismatch: not enough operands"@)
            } else if {
                ||| n >= 1 && stack[len - 1] != Type::I32
                ||| n >= 3 && stack[len - 2] != ty
            } {
                refused(state, after, "stack operand type mismatch"@)
            } else {
                accepted(after, replaced(state, 3, seq![ty]))
            }
        }),
{
    lemma_lie_below(state, seq![], 3);
    assert(state.has_operands(3) == enough(state, 3));
    assert(state.blocks.last() == innermost(state));
    if enough(state, 3) {
        lemma_replaced(state, 3, seq![ty]);
    }
}

} // verus!
