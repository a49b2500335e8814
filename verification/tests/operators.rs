use wasm_operators::Type::{F32, F64, I32, I64};
use wasm_operators::{
    BrTable, FuncType, FunctionEnd, GlobalType, Ieee32, Ieee64, MemoryImmediate, MemoryType, Module,
    Operator, OperatorValidator, TableType, Type, TypeOrFuncType, WasmFeatures, V128,
};

fn features() -> WasmFeatures {
    WasmFeatures {
        reference_types: true,
        simd: true,
        multi_value: true,
        threads: true,
        tail_call: true,
        bulk_memory: true,
        multi_memory: true,
        deterministic: false,
        deterministic_only: false,
    }
}

fn no_features() -> WasmFeatures {
    WasmFeatures {
        reference_types: false,
        simd: false,
        multi_value: false,
        threads: false,
        tail_call: false,
        bulk_memory: false,
        multi_memory: false,
        deterministic: false,
        deterministic_only: false,
    }
}

fn func(params: &[Type], results: &[Type]) -> FuncType {
    FuncType { params: params.to_vec(), results: results.to_vec() }
}

fn module() -> Module {
    Module {
        types: vec![
            func(&[], &[]),
            func(&[I32], &[I64]),
            func(&[I32, F32], &[F64, I32]),
            func(&[], &[I32, I32]),
        ],
        functions: vec![0, 1, 2, 9],
        tables: vec![
            TableType { element_type: Type::FuncRef },
            TableType { element_type: Type::ExternRef },
        ],
        memories: vec![MemoryType::M32, MemoryType::M64],
        globals: vec![
            GlobalType { content_type: F32, mutable: false },
            GlobalType { content_type: I64, mutable: true },
        ],
        elements: vec![Type::FuncRef, Type::ExternRef],
        data_count: 2,
        referenced_functions: vec![1],
    }
}

fn start(params: &[Type], results: &[Type], features: &WasmFeatures) -> OperatorValidator {
    OperatorValidator::new(func(params, results), features)
}

fn feed(v: &mut OperatorValidator, operator: Operator) -> Result<FunctionEnd, String> {
    match v.process_operator(&operator, &module()) {
        Ok(end) => Ok(end),
        Err(e) => {
            assert_eq!(e.0.offset, usize::MAX);
            Err(e.0.message)
        }
    }
}

/// Processes all operators but the last, which must be accepted, and returns
/// what the last comes to.
fn last_of(v: &mut OperatorValidator, operators: Vec<Operator>) -> Result<FunctionEnd, String> {
    let mut result = Ok(FunctionEnd::No);
    for operator in operators {
        assert_eq!(result, Ok(FunctionEnd::No), "before {:?}", operator);
        result = feed(v, operator);
    }
    result
}

fn body(params: &[Type], results: &[Type], operators: Vec<Operator>) -> Result<FunctionEnd, String> {
    last_of(&mut start(params, results, &features()), operators)
}

fn refused(message: &str) -> Result<FunctionEnd, String> {
    Err(message.to_string())
}

fn i32_const() -> Operator {
    Operator::I32Const { value: 7 }
}

fn i64_const() -> Operator {
    Operator::I64Const { value: 7 }
}

fn f32_const() -> Operator {
    Operator::F32Const { value: Ieee32(0) }
}

fn f64_const() -> Operator {
    Operator::F64Const { value: Ieee64(0) }
}

fn v128_const() -> Operator {
    Operator::V128Const { value: V128([0; 16]) }
}

fn empty() -> TypeOrFuncType {
    TypeOrFuncType::Type(Type::EmptyBlockType)
}

fn of(ty: Type) -> TypeOrFuncType {
    TypeOrFuncType::Type(ty)
}

fn typed(at: u32) -> TypeOrFuncType {
    TypeOrFuncType::FuncType(at)
}

fn push(ty: Type) -> Operator {
    match ty {
        Type::I32 => i32_const(),
        Type::I64 => i64_const(),
        Type::F32 => f32_const(),
        Type::F64 => f64_const(),
        Type::V128 => v128_const(),
        ty => Operator::RefNull { ty },
    }
}

fn memarg(align: u8, memory: u32) -> MemoryImmediate {
    MemoryImmediate { align, offset: 0, memory }
}

const YES: Result<FunctionEnd, String> = Ok(FunctionEnd::Yes);
const NO: Result<FunctionEnd, String> = Ok(FunctionEnd::No);
const NOT_ENOUGH: &str = "type mismatch: not enough operands";
const MISMATCH: &str = "stack operand type mismatch";

// Bodies and their ends.

#[test]
fn body_of_constants_is_accepted() {
    assert_eq!(body(&[], &[I32], vec![i32_const(), Operator::End]), YES);
    assert_eq!(body(&[], &[], vec![Operator::Nop, Operator::End]), YES);
    assert_eq!(body(&[], &[I32, F64], vec![i32_const(), f64_const(), Operator::End]), YES);
}

#[test]
fn end_needs_exactly_the_results() {
    let size = "type mismatch: stack size does not match block type";
    assert_eq!(body(&[], &[I32], vec![Operator::End]), refused(size));
    assert_eq!(body(&[], &[], vec![i32_const(), Operator::End]), refused(size));
    assert_eq!(
        body(&[], &[I32], vec![i64_const(), Operator::End]),
        refused("type mismatch: stack item type does not match block item type")
    );
}

#[test]
fn several_results_need_multi_value() {
    let message = "blocks, loops, and ifs may only return at most one value when multi-value is not enabled";
    let mut v = start(&[], &[I32, I32], &no_features());
    assert_eq!(last_of(&mut v, vec![i32_const(), i32_const(), Operator::End]), refused(message));
    assert_eq!(feed(&mut v, Operator::Return), refused(message));
}

#[test]
fn nothing_is_accepted_after_the_end() {
    let mut v = start(&[], &[], &features());
    assert_eq!(feed(&mut v, Operator::End), YES);
    assert_eq!(feed(&mut v, Operator::Nop), refused("unexpected operator"));
    assert_eq!(feed(&mut v, Operator::End), refused("unexpected operator"));
}

#[test]
fn refusal_leaves_the_state() {
    let mut v = start(&[], &[I32], &features());
    assert_eq!(feed(&mut v, i32_const()), NO);
    assert_eq!(feed(&mut v, Operator::I64Eqz), refused(MISMATCH));
    assert_eq!(feed(&mut v, Operator::I32Add), refused(NOT_ENOUGH));
    assert_eq!(feed(&mut v, Operator::End), YES);
}

// Blocks.

#[test]
fn blocks_hand_over_parameters_and_results() {
    let operators = vec![
        i32_const(),
        Operator::Block { ty: typed(1) },
        Operator::I64ExtendI32S,
        Operator::End,
        Operator::End,
    ];
    assert_eq!(body(&[], &[I64], operators), YES);
    assert_eq!(
        body(&[], &[I32], vec![Operator::Block { ty: of(I32) }, i32_const(), Operator::End, Operator::End]),
        YES
    );
    assert_eq!(body(&[], &[], vec![Operator::Loop { ty: empty() }, Operator::End, Operator::End]), YES);
}

#[test]
fn a_block_cannot_use_operands_from_outside() {
    let operators = vec![i32_const(), Operator::Block { ty: empty() }, Operator::I32Eqz];
    assert_eq!(body(&[], &[], operators), refused(NOT_ENOUGH));
    let operators = vec![i32_const(), Operator::Block { ty: empty() }, Operator::Drop];
    assert_eq!(body(&[], &[], operators), refused(NOT_ENOUGH));
}

#[test]
fn block_parameters_are_checked() {
    assert_eq!(body(&[], &[], vec![Operator::Block { ty: typed(1) }]), refused(NOT_ENOUGH));
    assert_eq!(
        body(&[], &[], vec![i64_const(), Operator::Loop { ty: typed(1) }]),
        refused("stack operand type mismatch for block")
    );
    // The condition of an `if` lies above the parameters.
    assert_eq!(
        body(&[], &[], vec![i64_const(), i32_const(), Operator::If { ty: typed(1) }]),
        refused("stack operand type mismatch for block")
    );
    assert_eq!(body(&[], &[], vec![i32_const(), Operator::If { ty: typed(1) }]), refused(NOT_ENOUGH));
    assert_eq!(body(&[], &[], vec![i64_const(), Operator::If { ty: empty() }]), refused(MISMATCH));
    assert_eq!(body(&[], &[], vec![i32_const(), i32_const(), Operator::If { ty: typed(1) }]), NO);
}

#[test]
fn block_types_are_checked() {
    assert_eq!(
        body(&[], &[], vec![Operator::Block { ty: typed(9) }]),
        refused("unknown type: type index out of bounds")
    );
    assert_eq!(
        body(&[], &[], vec![Operator::Block { ty: of(Type::Func) }]),
        refused("invalid block return type")
    );
    let mut v = start(&[], &[], &no_features());
    for ty in [Type::FuncRef, Type::ExternRef] {
        assert_eq!(
            feed(&mut v, Operator::Block { ty: of(ty) }),
            refused("reference types support is not enabled")
        );
    }
    assert_eq!(feed(&mut v, Operator::Block { ty: of(Type::V128) }), refused("SIMD support is not enabled"));
    assert_eq!(
        feed(&mut v, Operator::Block { ty: typed(3) }),
        refused("blocks, loops, and ifs may only return at most one value when multi-value is not enabled")
    );
    assert_eq!(
        feed(&mut v, Operator::Block { ty: typed(1) }),
        refused("blocks, loops, and ifs accept no parameters when multi-value is not enabled")
    );
    for ty in [I32, I64, F32, F64] {
        assert_eq!(feed(&mut v, Operator::Block { ty: of(ty) }), NO);
    }
    assert_eq!(feed(&mut v, Operator::Loop { ty: typed(0) }), NO);
}

#[test]
fn if_and_else_agree_on_results() {
    let operators = vec![
        i32_const(),
        Operator::If { ty: of(F32) },
        f32_const(),
        Operator::Else,
        f32_const(),
        Operator::End,
        Operator::End,
    ];
    assert_eq!(body(&[], &[F32], operators), YES);
    let operators = vec![i32_const(), Operator::If { ty: of(F32) }, f32_const(), Operator::Else, Operator::End];
    assert_eq!(body(&[], &[F32], operators), refused("type mismatch: stack size does not match block type"));
}

#[test]
fn else_brings_the_parameters_back() {
    let operators = vec![
        i32_const(),
        i32_const(),
        Operator::If { ty: typed(1) },
        Operator::I64ExtendI32S,
        Operator::Else,
        Operator::I64ExtendI32U,
        Operator::End,
        Operator::End,
    ];
    assert_eq!(body(&[], &[I64], operators), YES);
}

#[test]
fn else_needs_an_open_if() {
    let message = "unexpected else: if block is not started";
    assert_eq!(body(&[], &[], vec![Operator::Else]), refused(message));
    assert_eq!(body(&[], &[], vec![Operator::Block { ty: empty() }, Operator::Else]), refused(message));
    let operators = vec![i32_const(), Operator::If { ty: empty() }, Operator::Else, Operator::Else];
    assert_eq!(body(&[], &[], operators), refused(message));
}

#[test]
fn if_without_else_has_equal_types() {
    let operators = vec![i32_const(), Operator::If { ty: of(I32) }, i32_const(), Operator::End];
    assert_eq!(
        body(&[], &[I32], operators),
        refused("type mismatch: else is expected: if block has a type that can't be implemented with a no-op")
    );
    assert_eq!(body(&[], &[], vec![i32_const(), Operator::If { ty: empty() }, Operator::End, Operator::End]), YES);
}

// Jumps.

#[test]
fn jumps_hand_over_what_the_target_takes() {
    let operators = vec![Operator::Block { ty: of(I32) }, i32_const(), Operator::Br { relative_depth: 0 }];
    assert_eq!(body(&[], &[], operators), NO);
    let operators = vec![Operator::Block { ty: of(I32) }, Operator::Br { relative_depth: 0 }];
    assert_eq!(
        body(&[], &[], operators),
        refused("type mismatch: stack size does not match target block type")
    );
    let operators = vec![Operator::Block { ty: of(I32) }, i64_const(), Operator::Br { relative_depth: 0 }];
    assert_eq!(
        body(&[], &[], operators),
        refused("type mismatch: stack item type does not match block item type")
    );
    assert_eq!(
        body(&[], &[], vec![Operator::Br { relative_depth: 1 }]),
        refused("unknown label: invalid block depth")
    );
}

#[test]
fn jumps_to_a_loop_hand_over_its_parameters() {
    let operators = vec![i32_const(), Operator::Loop { ty: typed(1) }, Operator::Br { relative_depth: 0 }];
    assert_eq!(body(&[], &[], operators), NO);
    let operators = vec![
        i32_const(),
        Operator::Loop { ty: typed(1) },
        Operator::Drop,
        Operator::Br { relative_depth: 0 },
    ];
    assert_eq!(
        body(&[], &[], operators),
        refused("type mismatch: stack size does not match target loop type")
    );
    let operators = vec![
        i32_const(),
        Operator::Loop { ty: typed(1) },
        Operator::I64ExtendI32S,
        Operator::Br { relative_depth: 0 },
    ];
    assert_eq!(
        body(&[], &[], operators),
        refused("type mismatch: stack item type does not match block param type")
    );
}

#[test]
fn conditional_jumps_keep_the_operands() {
    let operators = vec![
        Operator::Block { ty: of(I64) },
        i64_const(),
        i32_const(),
        Operator::BrIf { relative_depth: 0 },
        Operator::End,
        Operator::End,
    ];
    assert_eq!(body(&[], &[I64], operators), YES);
    assert_eq!(body(&[], &[], vec![Operator::BrIf { relative_depth: 0 }]), refused(NOT_ENOUGH));
    assert_eq!(
        body(&[], &[], vec![i64_const(), Operator::BrIf { relative_depth: 0 }]),
        refused(MISMATCH)
    );
    assert_eq!(
        body(&[], &[], vec![i32_const(), Operator::BrIf { relative_depth: 3 }]),
        refused("unknown label: invalid block depth")
    );
}

fn br_table(entries: Vec<Result<(u32, bool), wasm_operators::BinaryReaderError>>) -> Operator {
    Operator::BrTable { table: BrTable { entries } }
}

#[test]
fn jump_tables_have_matching_targets() {
    let operators = vec![
        Operator::Block { ty: empty() },
        Operator::Block { ty: empty() },
        i32_const(),
        br_table(vec![Ok((0, false)), Ok((1, false)), Ok((2, true))]),
    ];
    assert_eq!(body(&[], &[], operators), NO);
    let operators = vec![
        Operator::Block { ty: of(I32) },
        i32_const(),
        i32_const(),
        br_table(vec![Ok((0, false)), Ok((1, true))]),
    ];
    assert_eq!(body(&[], &[], operators), refused("type mismatch: block types do not match"));
    assert_eq!(
        body(&[], &[], vec![i32_const(), br_table(vec![Ok((0, false)), Ok((1, true))])]),
        refused("unknown label: invalid block depth")
    );
    assert_eq!(
        body(&[], &[], vec![i32_const(), br_table(vec![Ok((1, true))])]),
        refused("unknown label: invalid block depth")
    );
    // A loop goes together with a block without results, in either order.
    for entries in [vec![Ok((0, false)), Ok((1, true))], vec![Ok((1, false)), Ok((0, true))]] {
        let operators = vec![Operator::Loop { ty: empty() }, i32_const(), br_table(entries)];
        assert_eq!(body(&[], &[], operators), NO);
    }
    for entries in [vec![Ok((0, false)), Ok((1, true))], vec![Ok((1, false)), Ok((0, true))]] {
        let operators = vec![Operator::Loop { ty: empty() }, f32_const(), i32_const(), br_table(entries)];
        assert_eq!(body(&[], &[F32], operators), refused("type mismatch: block types do not match"));
    }
}

#[test]
fn jump_table_tells_the_first_failure() {
    let broken = wasm_operators::BinaryReaderError::new("Unexpected EOF", 41);
    assert_eq!(
        body(&[], &[], vec![i32_const(), br_table(vec![Ok((0, false)), Err(broken.clone()), Ok((9, true))])]),
        refused("Unexpected EOF")
    );
    assert_eq!(
        body(&[], &[], vec![i32_const(), br_table(vec![Ok((0, false)), Ok((9, false)), Err(broken)])]),
        refused("unknown label: invalid block depth")
    );
    assert_eq!(body(&[], &[], vec![br_table(vec![])]), refused(NOT_ENOUGH));
    assert_eq!(body(&[], &[I32], vec![i32_const(), br_table(vec![]), Operator::End]), YES);
}

#[test]
fn return_is_a_jump_to_the_outermost_block() {
    for jump in [Operator::Return, Operator::Br { relative_depth: 1 }] {
        let operators = vec![Operator::Block { ty: of(I32) }, f64_const(), jump.clone()];
        assert_eq!(body(&[], &[F64], operators), NO);
        let operators = vec![Operator::Block { ty: of(I32) }, i32_const(), jump.clone()];
        assert_eq!(
            body(&[], &[F64], operators),
            refused("type mismatch: stack item type does not match block item type")
        );
    }
}

// Unreachable code.

#[test]
fn dead_code_accepts_operands_of_any_type() {
    for leave in [Operator::Unreachable, Operator::Return, Operator::Br { relative_depth: 0 }] {
        let operators = vec![leave.clone(), Operator::I32Add, Operator::Drop, Operator::F64Neg, Operator::Drop, Operator::End];
        assert_eq!(body(&[], &[], operators), YES);
        assert_eq!(body(&[], &[], vec![leave, i64_const(), Operator::I32Eqz]), refused(MISMATCH));
    }
}

#[test]
fn dead_code_ends_with_the_block() {
    let operators = vec![
        Operator::Block { ty: of(I32) },
        Operator::Unreachable,
        Operator::End,
        Operator::I64Eqz,
    ];
    assert_eq!(body(&[], &[], operators), refused(MISMATCH));
    let operators = vec![Operator::Block { ty: empty() }, Operator::Unreachable, Operator::End, Operator::Drop];
    assert_eq!(body(&[], &[], operators), refused(NOT_ENOUGH));
}

#[test]
fn dead_code_does_not_hide_operands_that_are_too_many() {
    let operators = vec![Operator::Unreachable, i32_const(), i32_const(), Operator::End];
    assert_eq!(body(&[], &[I32], operators), refused("type mismatch: stack size does not match block type"));
    let operators = vec![Operator::Unreachable, i64_const(), Operator::End];
    assert_eq!(
        body(&[], &[I32], operators),
        refused("type mismatch: stack item type does not match block item type")
    );
}

#[test]
fn blocks_in_dead_code_require_their_parameters() {
    // The parameter is not known, and is still to be popped at the end.
    let operators = vec![Operator::Unreachable, Operator::Block { ty: typed(1) }, i64_const(), Operator::End];
    assert_eq!(body(&[], &[], operators), refused("type mismatch: stack size does not match block type"));
    let operators = vec![
        Operator::Unreachable,
        Operator::Block { ty: typed(1) },
        Operator::Drop,
        i64_const(),
        Operator::End,
        Operator::End,
    ];
    assert_eq!(body(&[], &[I64], operators), YES);
    // A known one is checked.
    let operators = vec![Operator::Unreachable, f32_const(), Operator::Block { ty: typed(1) }];
    assert_eq!(body(&[], &[], operators), refused("stack operand type mismatch for block"));
}

#[test]
fn conditional_jump_in_dead_code_fixes_the_types() {
    let operators = vec![
        Operator::Block { ty: of(I64) },
        Operator::Unreachable,
        Operator::BrIf { relative_depth: 0 },
        Operator::I32Eqz,
    ];
    assert_eq!(body(&[], &[], operators), refused(MISMATCH));
    let operators = vec![
        Operator::Block { ty: of(I64) },
        Operator::Unreachable,
        Operator::BrIf { relative_depth: 0 },
        Operator::End,
        Operator::End,
    ];
    assert_eq!(body(&[], &[I64], operators), YES);
}

#[test]
fn if_in_dead_code_needs_no_condition() {
    let operators = vec![Operator::Unreachable, Operator::If { ty: empty() }, Operator::End, Operator::End];
    assert_eq!(body(&[], &[], operators), YES);
    let operators = vec![Operator::Unreachable, f32_const(), Operator::If { ty: empty() }];
    assert_eq!(body(&[], &[], operators), refused(MISMATCH));
}

// Calls.

#[test]
fn calls_replace_arguments_by_results() {
    let operators = vec![
        i32_const(),
        f32_const(),
        Operator::Call { function_index: 2 },
        Operator::End,
    ];
    assert_eq!(body(&[], &[F64, I32], operators), YES);
    assert_eq!(body(&[], &[], vec![i32_const(), Operator::Call { function_index: 2 }]), refused(NOT_ENOUGH));
    assert_eq!(
        body(&[], &[], vec![f32_const(), i32_const(), Operator::Call { function_index: 2 }]),
        refused(MISMATCH)
    );
    assert_eq!(
        body(&[], &[], vec![Operator::Call { function_index: 4294967295 }]),
        refused("unknown function 4294967295: function index out of bounds")
    );
    // A function of a type that the module lacks is no function.
    assert_eq!(
        body(&[], &[], vec![Operator::Call { function_index: 3 }]),
        refused("unknown function 3: function index out of bounds")
    );
}

#[test]
fn indirect_calls_take_an_index_on_top() {
    let call = Operator::CallIndirect { index: 1, table_index: 0 };
    assert_eq!(body(&[], &[I64], vec![i32_const(), i32_const(), call.clone(), Operator::End]), YES);
    assert_eq!(body(&[], &[], vec![i32_const(), call.clone()]), refused(NOT_ENOUGH));
    assert_eq!(body(&[], &[], vec![i32_const(), i64_const(), call]), refused(MISMATCH));
    assert_eq!(
        body(&[], &[], vec![Operator::CallIndirect { index: 1, table_index: 2 }]),
        refused("unknown table: table index out of bounds")
    );
    assert_eq!(
        body(&[], &[], vec![Operator::CallIndirect { index: 4, table_index: 0 }]),
        refused("unknown type: type index out of bounds")
    );
}

#[test]
fn tail_calls_return_what_the_callee_does() {
    let operators = vec![i32_const(), Operator::ReturnCall { function_index: 1 }, Operator::Unreachable, Operator::End];
    assert_eq!(body(&[], &[I64], operators), YES);
    let operators = vec![i32_const(), i32_const(), Operator::ReturnCallIndirect { index: 1, table_index: 0 }];
    assert_eq!(body(&[], &[I64], operators), NO);
    let mut v = start(&[], &[I64], &no_features());
    let message = "tail calls support is not enabled";
    assert_eq!(last_of(&mut v, vec![i32_const(), Operator::ReturnCall { function_index: 1 }]), refused(message));
    assert_eq!(feed(&mut v, Operator::ReturnCallIndirect { index: 1, table_index: 0 }), refused(message));
}

#[test]
fn refused_tail_call_has_made_the_call() {
    let mut v = start(&[], &[F32], &features());
    assert_eq!(
        last_of(&mut v, vec![i32_const(), Operator::ReturnCall { function_index: 1 }]),
        refused("type mismatch: stack item type does not match block item type")
    );
    // The operand is now the `i64` that the callee returns.
    assert_eq!(feed(&mut v, Operator::I32Eqz), refused(MISMATCH));
    assert_eq!(feed(&mut v, Operator::I64Eqz), NO);
}

// Operands of several types.

#[test]
fn drop_takes_any_operand() {
    for ty in [I32, I64, F32, F64, Type::V128, Type::FuncRef] {
        assert_eq!(body(&[], &[], vec![push(ty), Operator::Drop, Operator::End]), YES);
    }
    assert_eq!(body(&[], &[], vec![Operator::Drop]), refused(NOT_ENOUGH));
}

#[test]
fn select_chooses_between_equal_numeric_types() {
    for ty in [I32, I64, F32, F64] {
        let operators = vec![push(ty), push(ty), i32_const(), Operator::Select, Operator::End];
        assert_eq!(body(&[], &[ty], operators), YES);
    }
    let operators = vec![i32_const(), i64_const(), i32_const(), Operator::Select];
    assert_eq!(body(&[], &[], operators), refused(MISMATCH));
    let operators = vec![i32_const(), i32_const(), i64_const(), Operator::Select];
    assert_eq!(body(&[], &[], operators), refused(MISMATCH));
    assert_eq!(body(&[], &[], vec![i32_const(), i32_const(), Operator::Select]), refused(NOT_ENOUGH));
    for ty in [Type::V128, Type::FuncRef, Type::ExternRef] {
        let operators = vec![push(ty), push(ty), i32_const(), Operator::Select];
        assert_eq!(
            body(&[], &[], operators),
            refused("type mismatch: only integer types allowed with bare `select`")
        );
    }
}

#[test]
fn select_with_a_type_checks_the_second_operand() {
    let ty = Type::ExternRef;
    let operators = vec![push(ty), push(ty), i32_const(), Operator::TypedSelect { ty }, Operator::End];
    assert_eq!(body(&[], &[ty], operators), YES);
    let operators = vec![push(ty), push(ty), i32_const(), Operator::TypedSelect { ty: I32 }];
    assert_eq!(body(&[], &[], operators), refused(MISMATCH));
    // The third operand is replaced without a check.
    let operators = vec![i64_const(), f32_const(), i32_const(), Operator::TypedSelect { ty: F32 }, Operator::End];
    assert_eq!(body(&[], &[F32], operators), YES);
    assert_eq!(body(&[], &[], vec![Operator::TypedSelect { ty }]), refused(NOT_ENOUGH));
}

#[test]
fn select_in_dead_code_keeps_what_is_known() {
    // Nothing known: the result is of an unknown type.
    let operators = vec![Operator::Unreachable, Operator::Select, Operator::F32Neg, Operator::End];
    assert_eq!(body(&[], &[F32], operators), YES);
    // The result counts as an operand.
    let operators = vec![Operator::Unreachable, Operator::Select, Operator::End];
    assert_eq!(body(&[], &[], operators), refused("type mismatch: stack size does not match block type"));
    let operators = vec![Operator::Unreachable, i64_const(), Operator::Select];
    assert_eq!(body(&[], &[], operators), refused(MISMATCH));
    // The second operand is known.
    let operators = vec![Operator::Unreachable, i64_const(), i32_const(), Operator::Select, Operator::I32Eqz];
    assert_eq!(body(&[], &[], operators), refused(MISMATCH));
    let operators = vec![Operator::Unreachable, f32_const(), i64_const(), i32_const(), Operator::Select];
    assert_eq!(body(&[], &[], operators), refused(MISMATCH));
}

#[test]
fn ref_is_null_takes_any_reference() {
    for ty in [Type::FuncRef, Type::ExternRef] {
        assert_eq!(body(&[], &[I32], vec![push(ty), Operator::RefIsNull, Operator::End]), YES);
    }
    assert_eq!(body(&[], &[I32], vec![Operator::Unreachable, Operator::RefIsNull, Operator::End]), YES);
    assert_eq!(
        body(&[], &[], vec![i32_const(), Operator::RefIsNull]),
        refused("type mismatch: invalid reference type in ref.is_null")
    );
    assert_eq!(body(&[], &[], vec![Operator::RefIsNull]), refused(NOT_ENOUGH));
}

// Variables.

#[test]
fn locals_have_their_types() {
    let get = |local_index| Operator::LocalGet { local_index };
    assert_eq!(body(&[F64, I32], &[I32, F64], vec![get(1), get(0), Operator::End]), YES);
    assert_eq!(
        body(&[I32], &[], vec![get(1)]),
        refused("unknown local 1: local index out of bounds")
    );
    let operators = vec![i32_const(), Operator::LocalTee { local_index: 0 }, Operator::LocalSet { local_index: 0 }, Operator::End];
    assert_eq!(body(&[I32], &[], operators), YES);
    for operator in [Operator::LocalTee { local_index: 0 }, Operator::LocalSet { local_index: 0 }] {
        assert_eq!(body(&[I32], &[], vec![f32_const(), operator]), refused(MISMATCH));
    }
    for operator in [Operator::LocalTee { local_index: 10 }, Operator::LocalSet { local_index: 10 }] {
        assert_eq!(
            body(&[I32], &[], vec![operator]),
            refused("unknown local 10: local index out of bounds")
        );
    }
}

#[test]
fn globals_have_their_types() {
    assert_eq!(body(&[], &[F32], vec![Operator::GlobalGet { global_index: 0 }, Operator::End]), YES);
    assert_eq!(body(&[], &[], vec![i64_const(), Operator::GlobalSet { global_index: 1 }, Operator::End]), YES);
    assert_eq!(body(&[], &[], vec![f32_const(), Operator::GlobalSet { global_index: 1 }]), refused(MISMATCH));
    assert_eq!(
        body(&[], &[], vec![f32_const(), Operator::GlobalSet { global_index: 0 }]),
        refused("global is immutable: cannot modify it with `global.set`")
    );
    for operator in [Operator::GlobalGet { global_index: 2 }, Operator::GlobalSet { global_index: 2 }] {
        assert_eq!(body(&[], &[], vec![operator]), refused("unknown global: global index out of bounds"));
    }
}

// Memories.

#[test]
fn accesses_take_an_address_of_the_memory() {
    let load = |memory| Operator::I32Load { memarg: memarg(2, memory) };
    assert_eq!(body(&[], &[I32], vec![i32_const(), load(0), Operator::End]), YES);
    assert_eq!(body(&[], &[I32], vec![i64_const(), load(1), Operator::End]), YES);
    assert_eq!(body(&[], &[I32], vec![i32_const(), load(1)]), refused(MISMATCH));
    assert_eq!(body(&[], &[], vec![i32_const(), load(12)]), refused("unknown memory 12"));
    let mut v = start(&[], &[], &no_features());
    assert_eq!(feed(&mut v, load(1)), refused("multi-memory support is not enabled"));
    assert_eq!(
        body(&[], &[], vec![i32_const(), Operator::I32Load { memarg: memarg(3, 0) }]),
        refused("alignment must not be larger than natural")
    );
}

#[test]
fn loads_and_stores_have_natural_alignments() {
    let a = |align| memarg(align, 0);
    type Make = fn(MemoryImmediate) -> Operator;
    let loads: Vec<(Make, u8, Type)> = vec![
        (|memarg| Operator::I32Load { memarg }, 2, I32),
        (|memarg| Operator::I64Load { memarg }, 3, I64),
        (|memarg| Operator::F32Load { memarg }, 2, F32),
        (|memarg| Operator::F64Load { memarg }, 3, F64),
        (|memarg| Operator::I32Load8S { memarg }, 0, I32),
        (|memarg| Operator::I32Load8U { memarg }, 0, I32),
        (|memarg| Operator::I32Load16S { memarg }, 1, I32),
        (|memarg| Operator::I32Load16U { memarg }, 1, I32),
        (|memarg| Operator::I64Load8S { memarg }, 0, I64),
        (|memarg| Operator::I64Load8U { memarg }, 0, I64),
        (|memarg| Operator::I64Load16S { memarg }, 1, I64),
        (|memarg| Operator::I64Load16U { memarg }, 1, I64),
        (|memarg| Operator::I64Load32S { memarg }, 2, I64),
        (|memarg| Operator::I64Load32U { memarg }, 2, I64),
        (|memarg| Operator::V128Load { memarg }, 4, Type::V128),
        (|memarg| Operator::V8x16LoadSplat { memarg }, 0, Type::V128),
        (|memarg| Operator::V16x8LoadSplat { memarg }, 1, Type::V128),
        (|memarg| Operator::V32x4LoadSplat { memarg }, 2, Type::V128),
        (|memarg| Operator::V64x2LoadSplat { memarg }, 3, Type::V128),
        (|memarg| Operator::I64x2Load32x2U { memarg }, 3, Type::V128),
    ];
    for (make, align, ty) in loads {
        assert_eq!(body(&[], &[ty], vec![i32_const(), make(a(align)), Operator::End]), YES);
        assert_eq!(
            body(&[], &[ty], vec![i32_const(), make(a(align + 1))]),
            refused("alignment must not be larger than natural")
        );
    }
    let stores: Vec<(Make, u8, Type)> = vec![
        (|memarg| Operator::I32Store { memarg }, 2, I32),
        (|memarg| Operator::I64Store { memarg }, 3, I64),
        (|memarg| Operator::F32Store { memarg }, 2, F32),
        (|memarg| Operator::F64Store { memarg }, 3, F64),
        (|memarg| Operator::I32Store8 { memarg }, 0, I32),
        (|memarg| Operator::I32Store16 { memarg }, 1, I32),
        (|memarg| Operator::I64Store8 { memarg }, 0, I64),
        (|memarg| Operator::I64Store16 { memarg }, 1, I64),
        (|memarg| Operator::I64Store32 { memarg }, 2, I64),
        (|memarg| Operator::V128Store { memarg }, 4, Type::V128),
    ];
    for (make, align, ty) in stores {
        assert_eq!(body(&[], &[], vec![i32_const(), push(ty), make(a(align)), Operator::End]), YES);
        assert_eq!(
            body(&[], &[], vec![i32_const(), push(ty), make(a(align + 1))]),
            refused("alignment must not be larger than natural")
        );
    }
}

#[test]
fn memory_sizes_are_addresses() {
    let size = |mem| Operator::MemorySize { mem, mem_byte: 0 };
    let grow = |mem| Operator::MemoryGrow { mem, mem_byte: 0 };
    assert_eq!(body(&[], &[I32, I64], vec![size(0), size(1), Operator::End]), YES);
    assert_eq!(body(&[], &[I64], vec![i64_const(), grow(1), Operator::End]), YES);
    assert_eq!(body(&[], &[], vec![i64_const(), grow(0)]), refused(MISMATCH));
    let mut v = start(&[], &[], &no_features());
    for operator in [Operator::MemorySize { mem: 0, mem_byte: 1 }, Operator::MemoryGrow { mem: 0, mem_byte: 1 }] {
        assert_eq!(feed(&mut v, operator), refused("multi-memory not enabled"));
    }
}

#[test]
fn bulk_operators_take_ranges() {
    let three = |a, b, c, operator| vec![push(a), push(b), push(c), operator, Operator::End];
    assert_eq!(body(&[], &[], three(I64, I32, I32, Operator::MemoryInit { mem: 1, segment: 1 })), YES);
    assert_eq!(
        body(&[], &[], vec![Operator::MemoryInit { mem: 1, segment: 2 }]),
        refused("unknown data segment 2")
    );
    assert_eq!(body(&[], &[], vec![Operator::DataDrop { segment: 1 }, Operator::End]), YES);
    assert_eq!(body(&[], &[], vec![Operator::DataDrop { segment: 20 }]), refused("unknown data segment 20"));
    assert_eq!(body(&[], &[], three(I32, I32, I32, Operator::MemoryCopy { src: 0, dst: 0 })), YES);
    assert_eq!(body(&[], &[], three(I64, I32, I32, Operator::MemoryCopy { src: 0, dst: 1 })), YES);
    assert_eq!(body(&[], &[], three(I32, I64, I32, Operator::MemoryCopy { src: 1, dst: 0 })), YES);
    assert_eq!(body(&[], &[], three(I64, I64, I64, Operator::MemoryCopy { src: 1, dst: 1 })), YES);
    assert_eq!(
        body(&[], &[], vec![i64_const(), i64_const(), i32_const(), Operator::MemoryCopy { src: 1, dst: 1 }]),
        refused(MISMATCH)
    );
    assert_eq!(body(&[], &[], vec![Operator::MemoryCopy { src: 7, dst: 8 }]), refused("unknown memory 7"));
    assert_eq!(body(&[], &[], three(I64, I32, I64, Operator::MemoryFill { mem: 1 })), YES);
    let mut v = start(&[], &[], &no_features());
    for operator in [
        Operator::MemoryInit { mem: 0, segment: 0 },
        Operator::DataDrop { segment: 0 },
        Operator::MemoryCopy { src: 0, dst: 0 },
        Operator::MemoryFill { mem: 0 },
        Operator::TableInit { segment: 0, table: 0 },
        Operator::ElemDrop { segment: 0 },
        Operator::TableCopy { src_table: 0, dst_table: 0 },
        Operator::TableFill { table: 0 },
    ] {
        assert_eq!(feed(&mut v, operator), refused("bulk memory support is not enabled"));
    }
}

// References and tables.

#[test]
fn references_are_to_declared_functions() {
    assert_eq!(body(&[], &[Type::FuncRef], vec![Operator::RefFunc { function_index: 1 }, Operator::End]), YES);
    assert_eq!(
        body(&[], &[], vec![Operator::RefFunc { function_index: 2 }]),
        refused("undeclared function reference")
    );
    assert_eq!(
        body(&[], &[], vec![Operator::RefFunc { function_index: 5 }]),
        refused("unknown function: function index out of bounds")
    );
    assert_eq!(
        body(&[], &[], vec![Operator::RefNull { ty: I32 }]),
        refused("invalid reference type in ref.null")
    );
    let mut v = start(&[], &[], &no_features());
    for operator in [
        Operator::RefNull { ty: Type::FuncRef },
        Operator::RefIsNull,
        Operator::RefFunc { function_index: 1 },
        Operator::TableGet { table: 0 },
        Operator::TableSet { table: 0 },
        Operator::TableGrow { table: 0 },
        Operator::TableSize { table: 0 },
    ] {
        assert_eq!(feed(&mut v, operator), refused("reference types support is not enabled"));
    }
}

#[test]
fn tables_hold_references_of_their_type() {
    let e = Type::ExternRef;
    assert_eq!(body(&[], &[e], vec![i32_const(), Operator::TableGet { table: 1 }, Operator::End]), YES);
    assert_eq!(body(&[], &[], vec![i32_const(), push(e), Operator::TableSet { table: 1 }, Operator::End]), YES);
    assert_eq!(body(&[], &[], vec![i32_const(), push(e), Operator::TableSet { table: 0 }]), refused(MISMATCH));
    assert_eq!(body(&[], &[I32], vec![push(e), i32_const(), Operator::TableGrow { table: 1 }, Operator::End]), YES);
    assert_eq!(body(&[], &[I32], vec![Operator::TableSize { table: 1 }, Operator::End]), YES);
    assert_eq!(
        body(&[], &[], vec![i32_const(), push(e), i32_const(), Operator::TableFill { table: 1 }, Operator::End]),
        YES
    );
    for operator in [
        Operator::TableGet { table: 2 },
        Operator::TableSet { table: 2 },
        Operator::TableGrow { table: 2 },
        Operator::TableSize { table: 2 },
        Operator::TableFill { table: 2 },
        Operator::TableCopy { src_table: 0, dst_table: 2 },
        Operator::TableCopy { src_table: 2, dst_table: 0 },
    ] {
        assert_eq!(body(&[], &[], vec![operator]), refused("table index out of bounds"));
    }
}

#[test]
fn table_ranges_are_of_one_type() {
    let three = |operator| vec![i32_const(), i32_const(), i32_const(), operator, Operator::End];
    assert_eq!(body(&[], &[], three(Operator::TableInit { segment: 1, table: 1 })), YES);
    assert_eq!(body(&[], &[], three(Operator::TableCopy { src_table: 1, dst_table: 1 })), YES);
    assert_eq!(body(&[], &[], vec![Operator::TableInit { segment: 1, table: 0 }]), refused("type mismatch"));
    assert_eq!(
        body(&[], &[], vec![Operator::TableCopy { src_table: 1, dst_table: 0 }]),
        refused("type mismatch")
    );
    assert_eq!(
        body(&[], &[], vec![Operator::TableInit { segment: 9, table: 3 }]),
        refused("unknown table 3: table index out of bounds")
    );
    assert_eq!(
        body(&[], &[], vec![Operator::TableInit { segment: 9, table: 1 }]),
        refused("unknown elem segment 9: segment index out of bounds")
    );
    assert_eq!(body(&[], &[], vec![Operator::ElemDrop { segment: 1 }, Operator::End]), YES);
    assert_eq!(
        body(&[], &[], vec![Operator::ElemDrop { segment: 2 }]),
        refused("unknown elem segment 2: segment index out of bounds")
    );
    let mut bulk_only = no_features();
    bulk_only.bulk_memory = true;
    let mut v = start(&[], &[], &bulk_only);
    for operator in [
        Operator::TableInit { segment: 1, table: 1 },
        Operator::TableCopy { src_table: 1, dst_table: 0 },
        Operator::TableCopy { src_table: 0, dst_table: 1 },
    ] {
        assert_eq!(feed(&mut v, operator), refused("reference types support is not enabled"));
    }
}

// Operators that differ in their types alone.

fn check_typing(operator: Operator, operands: &[Type], results: &[Type]) {
    let mut operators: Vec<Operator> = operands.iter().map(|ty| push(*ty)).collect();
    operators.push(operator.clone());
    operators.push(Operator::End);
    assert_eq!(body(&[], results, operators), YES, "{:?}", operator);
    if !operands.is_empty() {
        let operators: Vec<Operator> = operands[1..].iter().map(|ty| push(*ty)).chain([operator.clone()]).collect();
        assert_eq!(body(&[], results, operators), refused(NOT_ENOUGH), "{:?}", operator);
        for wrong in 0..operands.len() {
            let mut operators: Vec<Operator> = operands.iter().map(|ty| push(*ty)).collect();
            operators[wrong] = push(if operands[wrong] == Type::FuncRef { I32 } else { Type::FuncRef });
            operators.push(operator.clone());
            assert_eq!(body(&[], results, operators), refused(MISMATCH), "{:?}", operator);
        }
    }
}

#[test]
fn scalar_operators_have_their_types() {
    check_typing(Operator::I32Eqz, &[I32], &[I32]);
    check_typing(Operator::I32GeU, &[I32, I32], &[I32]);
    check_typing(Operator::I64Eqz, &[I64], &[I32]);
    check_typing(Operator::I64LtS, &[I64, I64], &[I32]);
    check_typing(Operator::F32Ge, &[F32, F32], &[I32]);
    check_typing(Operator::F64Eq, &[F64, F64], &[I32]);
    check_typing(Operator::I32Popcnt, &[I32], &[I32]);
    check_typing(Operator::I32Rotr, &[I32, I32], &[I32]);
    check_typing(Operator::I64Clz, &[I64], &[I64]);
    check_typing(Operator::I64RemU, &[I64, I64], &[I64]);
    check_typing(Operator::F32Sqrt, &[F32], &[F32]);
    check_typing(Operator::F32Copysign, &[F32, F32], &[F32]);
    check_typing(Operator::F64Nearest, &[F64], &[F64]);
    check_typing(Operator::F64Div, &[F64, F64], &[F64]);
    check_typing(Operator::I32WrapI64, &[I64], &[I32]);
    check_typing(Operator::I32TruncF32U, &[F32], &[I32]);
    check_typing(Operator::I32TruncF64S, &[F64], &[I32]);
    check_typing(Operator::I64ExtendI32U, &[I32], &[I64]);
    check_typing(Operator::I64TruncF32S, &[F32], &[I64]);
    check_typing(Operator::I64TruncF64U, &[F64], &[I64]);
    check_typing(Operator::F32ConvertI32S, &[I32], &[F32]);
    check_typing(Operator::F32ConvertI64U, &[I64], &[F32]);
    check_typing(Operator::F32DemoteF64, &[F64], &[F32]);
    check_typing(Operator::F64ConvertI32U, &[I32], &[F64]);
    check_typing(Operator::F64ConvertI64S, &[I64], &[F64]);
    check_typing(Operator::F64PromoteF32, &[F32], &[F64]);
    check_typing(Operator::I32ReinterpretF32, &[F32], &[I32]);
    check_typing(Operator::I64ReinterpretF64, &[F64], &[I64]);
    check_typing(Operator::F32ReinterpretI32, &[I32], &[F32]);
    check_typing(Operator::F64ReinterpretI64, &[I64], &[F64]);
    check_typing(Operator::I32TruncSatF32S, &[F32], &[I32]);
    check_typing(Operator::I32TruncSatF64U, &[F64], &[I32]);
    check_typing(Operator::I64TruncSatF32U, &[F32], &[I64]);
    check_typing(Operator::I64TruncSatF64S, &[F64], &[I64]);
    check_typing(Operator::I32Extend8S, &[I32], &[I32]);
    check_typing(Operator::I64Extend32S, &[I64], &[I64]);
}

#[test]
fn atomic_operators_have_their_types() {
    // Whatever memory and alignment are named, the first memory is accessed.
    let memarg = memarg(9, 9);
    check_typing(Operator::I32AtomicLoad8U { memarg }, &[I32], &[I32]);
    check_typing(Operator::I64AtomicLoad32U { memarg }, &[I32], &[I64]);
    check_typing(Operator::I32AtomicStore16 { memarg }, &[I32, I32], &[]);
    check_typing(Operator::I64AtomicStore { memarg }, &[I32, I64], &[]);
    check_typing(Operator::I32AtomicRmw8XorU { memarg }, &[I32, I32], &[I32]);
    check_typing(Operator::I64AtomicRmw32SubU { memarg }, &[I32, I64], &[I64]);
    check_typing(Operator::I32AtomicRmwXchg { memarg }, &[I32, I32], &[I32]);
    check_typing(Operator::I64AtomicRmw8XchgU { memarg }, &[I32, I64], &[I64]);
    check_typing(Operator::I32AtomicRmw16CmpxchgU { memarg }, &[I32, I32, I32], &[I32]);
    check_typing(Operator::I64AtomicRmwCmpxchg { memarg }, &[I32, I64, I64], &[I64]);
    check_typing(Operator::MemoryAtomicNotify { memarg }, &[I32, I32], &[I32]);
    check_typing(Operator::MemoryAtomicWait32 { memarg }, &[I32, I32, I64], &[I32]);
    check_typing(Operator::MemoryAtomicWait64 { memarg }, &[I32, I64, I64], &[I32]);
    check_typing(Operator::AtomicFence { flags: 0 }, &[], &[]);
    assert_eq!(
        body(&[], &[], vec![Operator::AtomicFence { flags: 1 }]),
        refused("non-zero flags for fence not supported yet")
    );
    let mut v = start(&[], &[], &no_features());
    for operator in [
        Operator::I32AtomicLoad { memarg },
        Operator::I64AtomicStore8 { memarg },
        Operator::MemoryAtomicWait64 { memarg },
        Operator::AtomicFence { flags: 1 },
    ] {
        assert_eq!(feed(&mut v, operator), refused("threads support is not enabled"));
    }
}

#[test]
fn vector_operators_have_their_types() {
    let v = Type::V128;
    check_typing(Operator::I8x16Splat, &[I32], &[v]);
    check_typing(Operator::I64x2Splat, &[I64], &[v]);
    check_typing(Operator::F32x4Splat, &[F32], &[v]);
    check_typing(Operator::F64x2Splat, &[F64], &[v]);
    check_typing(Operator::I8x16ExtractLaneU { lane: 15 }, &[v], &[I32]);
    check_typing(Operator::I16x8ExtractLaneS { lane: 7 }, &[v], &[I32]);
    check_typing(Operator::I32x4ExtractLane { lane: 3 }, &[v], &[I32]);
    check_typing(Operator::I64x2ExtractLane { lane: 1 }, &[v], &[I64]);
    check_typing(Operator::F32x4ExtractLane { lane: 3 }, &[v], &[F32]);
    check_typing(Operator::F64x2ExtractLane { lane: 1 }, &[v], &[F64]);
    check_typing(Operator::I8x16ReplaceLane { lane: 15 }, &[v, I32], &[v]);
    check_typing(Operator::I64x2ReplaceLane { lane: 1 }, &[v, I64], &[v]);
    check_typing(Operator::F32x4ReplaceLane { lane: 3 }, &[v, F32], &[v]);
    check_typing(Operator::F64x2ReplaceLane { lane: 1 }, &[v, F64], &[v]);
    check_typing(Operator::F64x2Max, &[v, v], &[v]);
    check_typing(Operator::I16x8NarrowI32x4U, &[v, v], &[v]);
    check_typing(Operator::F32x4ConvertI32x4U, &[v], &[v]);
    check_typing(Operator::I32x4WidenHighI16x8U, &[v], &[v]);
    check_typing(Operator::V128Bitselect, &[v, v, v], &[v]);
    check_typing(Operator::I32x4Bitmask, &[v], &[I32]);
    check_typing(Operator::I64x2ShrU, &[v, I32], &[v]);
    check_typing(Operator::V8x16Swizzle, &[v, v], &[v]);
    check_typing(Operator::V8x16Shuffle { lanes: [31; 16] }, &[v, v], &[v]);
}

#[test]
fn lanes_are_within_the_vector() {
    let message = "SIMD index out of bounds";
    for operator in [
        Operator::I8x16ExtractLaneS { lane: 16 },
        Operator::I16x8ReplaceLane { lane: 8 },
        Operator::I32x4ReplaceLane { lane: 4 },
        Operator::F32x4ExtractLane { lane: 4 },
        Operator::F64x2ReplaceLane { lane: 2 },
    ] {
        assert_eq!(body(&[], &[], vec![operator]), refused(message));
    }
    let mut lanes = [0; 16];
    lanes[15] = 32;
    // A shuffle checks its operands first.
    assert_eq!(body(&[], &[], vec![Operator::V8x16Shuffle { lanes }]), refused(NOT_ENOUGH));
    assert_eq!(
        body(&[], &[], vec![v128_const(), v128_const(), Operator::V8x16Shuffle { lanes }]),
        refused(message)
    );
}

#[test]
fn vector_operators_need_simd() {
    let mut v = start(&[], &[], &no_features());
    for operator in [
        v128_const(),
        Operator::I8x16Splat,
        Operator::F32x4Add,
        Operator::V128Not,
        Operator::V128Load { memarg: memarg(9, 9) },
        Operator::I8x16ExtractLaneS { lane: 99 },
        Operator::V8x16Shuffle { lanes: [99; 16] },
    ] {
        assert_eq!(feed(&mut v, operator), refused("SIMD support is not enabled"));
    }
}

#[test]
fn float_operators_can_be_guarded() {
    let floats = || {
        vec![
            f32_const(),
            Operator::F64Add,
            Operator::F32Load { memarg: memarg(9, 9) },
            Operator::F64ConvertI32S,
            Operator::F32x4Splat,
            Operator::F64x2ExtractLane { lane: 99 },
        ]
    };
    let mut guarded = no_features();
    guarded.deterministic = true;
    let mut v = start(&[], &[], &guarded);
    for operator in floats() {
        assert_eq!(feed(&mut v, operator), refused("deterministic_only support is not enabled"));
    }
    // What yields an integer is not guarded.
    assert_eq!(feed(&mut v, Operator::I32TruncF32S), refused(NOT_ENOUGH));
    guarded.deterministic_only = true;
    let mut v = start(&[], &[], &guarded);
    assert_eq!(feed(&mut v, f32_const()), NO);
    // Without the guard the second feature is of no account.
    guarded.deterministic = false;
    guarded.deterministic_only = false;
    let mut v = start(&[], &[], &guarded);
    assert_eq!(feed(&mut v, f32_const()), NO);
}

#[test]
fn more_features_accept_what_fewer_do() {
    let operators = vec![
        i32_const(),
        Operator::If { ty: of(I64) },
        i64_const(),
        Operator::Else,
        i64_const(),
        Operator::End,
        Operator::End,
    ];
    for features in [no_features(), features()] {
        assert_eq!(last_of(&mut start(&[], &[I64], &features), operators.clone()), YES);
    }
}

#[test]
fn every_block_has_its_end() {
    for depth in [0, 1, 5, 40] {
        let mut v = start(&[], &[], &no_features());
        for i in 0..depth {
            let block = if i % 2 == 0 {
                Operator::Block { ty: empty() }
            } else {
                Operator::Loop { ty: empty() }
            };
            assert_eq!(feed(&mut v, block), NO);
        }
        for _ in 0..depth {
            assert_eq!(feed(&mut v, Operator::End), NO);
        }
        assert_eq!(feed(&mut v, Operator::End), YES);
    }
}

#[test]
fn jumps_reach_every_open_block_and_no_other() {
    let open = || vec![Operator::Block { ty: empty() }, Operator::Loop { ty: empty() }];
    for relative_depth in [0, 1, 2] {
        let operators = open().into_iter().chain([Operator::Br { relative_depth }]).collect();
        assert_eq!(body(&[], &[], operators), NO);
    }
    for relative_depth in [3, u32::MAX] {
        let operators = open().into_iter().chain([Operator::Br { relative_depth }]).collect();
        assert_eq!(body(&[], &[], operators), refused("unknown label: invalid block depth"));
    }
}

#[test]
fn select_with_a_type_in_dead_code() {
    let select = Operator::TypedSelect { ty: F32 };
    // Two known operands: the one below the condition is not checked.
    let operators = vec![Operator::Unreachable, i64_const(), i32_const(), select.clone(), Operator::End];
    assert_eq!(body(&[], &[F32], operators), YES);
    // Three known operands: it is.
    let operators =
        vec![Operator::Unreachable, f32_const(), i64_const(), i32_const(), select.clone()];
    assert_eq!(body(&[], &[F32], operators), refused(MISMATCH));
    let operators = vec![Operator::Unreachable, select, Operator::End];
    assert_eq!(body(&[], &[F32], operators), YES);
}

#[test]
fn operators_keep_what_lies_below_their_operands() {
    let operators = vec![
        f64_const(),
        i32_const(),
        i32_const(),
        Operator::I32Add,
        Operator::Drop,
        Operator::End,
    ];
    assert_eq!(body(&[], &[F64], operators), YES);
    let operators = vec![
        f64_const(),
        Operator::Block { ty: of(I32) },
        Operator::Unreachable,
        Operator::I64Add,
        Operator::Drop,
        Operator::End,
        Operator::Drop,
        Operator::End,
    ];
    assert_eq!(body(&[], &[F64], operators), YES);
}

#[test]
fn labels_of_a_jump_table_match_in_either_order() {
    let types = [empty(), of(I32), of(I32)];
    for (first, second, accepted) in [(0, 1, false), (1, 0, false), (1, 2, true), (2, 1, true), (0, 0, true)] {
        // From the innermost block outwards, blocks of the types above.
        let mut operators: Vec<Operator> = types.iter().rev().map(|ty| Operator::Block { ty: *ty }).collect();
        operators.push(Operator::Unreachable);
        operators.push(br_table(vec![Ok((first, false)), Ok((second, true))]));
        let expected = if accepted { NO } else { refused("type mismatch: block types do not match") };
        assert_eq!(body(&[], &[], operators), expected);
    }
    let table = br_table(vec![Ok((0, false)), Ok((0, true))]);
    assert_eq!(body(&[], &[], vec![i32_const(), table]), NO);
}

#[test]
fn indirect_call_is_a_call_once_the_index_is_gone() {
    let call = || Operator::Call { function_index: 2 };
    let call_indirect = || Operator::CallIndirect { index: 2, table_index: 1 };
    for operands in [vec![], vec![I32], vec![F32, I32], vec![I32, F32], vec![I64, I32, F32]] {
        for dead in [false, true] {
            let before: Vec<Operator> = if dead { vec![Operator::Unreachable] } else { vec![] };
            let before: Vec<Operator> = before.into_iter().chain(operands.iter().map(|ty| push(*ty))).collect();
            let mut direct = before.clone();
            direct.push(call());
            let mut indirect = before;
            indirect.push(i32_const());
            indirect.push(call_indirect());
            let mut v = start(&[], &[F64, I32], &features());
            let mut w = start(&[], &[F64, I32], &features());
            assert_eq!(last_of(&mut v, direct), last_of(&mut w, indirect));
            if operands == vec![I32, F32] {
                assert_eq!(feed(&mut v, Operator::End), YES);
                assert_eq!(feed(&mut w, Operator::End), YES);
            }
        }
    }
}
