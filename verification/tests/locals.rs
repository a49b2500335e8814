use wasm_operators::error::OperatorValidatorError;
use wasm_operators::limits::MAX_WASM_FUNCTION_LOCALS;
use wasm_operators::text::format_index;
use wasm_operators::type_list::{append_types, copy_types, same_types};
use wasm_operators::{
    FuncType, FunctionEnd, MemoryType, Module, Operator, OperatorValidator, Type, WasmFeatures,
    WasmFuncType, WasmModuleResources,
};

fn features() -> WasmFeatures {
    WasmFeatures {
        reference_types: false,
        simd: false,
        multi_value: true,
        threads: false,
        tail_call: false,
        bulk_memory: false,
        multi_memory: false,
        deterministic: false,
        deterministic_only: false,
    }
}

fn validator(params: Vec<Type>, results: Vec<Type>) -> OperatorValidator {
    OperatorValidator::new(FuncType { params, results }, &features())
}

fn module() -> Module {
    Module {
        types: vec![FuncType { params: vec![Type::I32], results: vec![Type::F32, Type::I64] }],
        functions: vec![0, 1],
        tables: vec![],
        memories: vec![MemoryType::M64],
        globals: vec![],
        elements: vec![Type::FuncRef],
        data_count: 3,
        referenced_functions: vec![4, 2],
    }
}

fn message(r: Result<(), wasm_operators::BinaryReaderError>) -> (String, usize) {
    match r {
        Ok(()) => panic!("accepted"),
        Err(e) => (e.message, e.offset),
    }
}

#[test]
fn declared_locals_follow_the_parameters() {
    let mut v = validator(vec![Type::F32], vec![Type::I64, Type::I32]);
    assert!(v.define_locals(0, 2, Type::I32).is_ok());
    assert!(v.define_locals(0, 0, Type::F64).is_ok());
    assert!(v.define_locals(0, 1, Type::I64).is_ok());
    for local_index in [3, 2] {
        assert!(v.process_operator(&Operator::LocalGet { local_index }, &module()).is_ok());
    }
    assert!(v.process_operator(&Operator::LocalGet { local_index: 4 }, &module()).is_err());
    assert_eq!(v.process_operator(&Operator::End, &module()).ok(), Some(FunctionEnd::Yes));
}

#[test]
fn locals_are_limited() {
    assert_eq!(MAX_WASM_FUNCTION_LOCALS, 50000);
    let mut v = validator(vec![Type::F32], vec![]);
    assert_eq!(message(v.define_locals(17, 50000, Type::I32)), ("locals exceed maximum".to_string(), 17));
    assert!(v.define_locals(17, 49999, Type::I32).is_ok());
    assert_eq!(message(v.define_locals(18, 1, Type::I32)), ("locals exceed maximum".to_string(), 18));
    assert!(v.define_locals(19, 0, Type::I32).is_ok());
}

#[test]
fn local_counts_can_overflow() {
    let mut v = validator(vec![Type::F32], vec![]);
    assert_eq!(message(v.define_locals(5, u32::MAX, Type::I32)), ("locals overflow".to_string(), 5));
    assert_eq!(message(v.define_locals(5, u32::MAX - 1, Type::I32)), ("locals exceed maximum".to_string(), 5));
    let mut v = validator(vec![], vec![]);
    assert_eq!(message(v.define_locals(5, u32::MAX, Type::I32)), ("locals exceed maximum".to_string(), 5));
}

#[test]
fn locals_are_of_value_types() {
    let mut v = validator(vec![], vec![]);
    for ty in [Type::FuncRef, Type::ExternRef] {
        assert_eq!(
            message(v.define_locals(1, 1, ty)),
            ("reference types support is not enabled".to_string(), 1)
        );
    }
    assert_eq!(message(v.define_locals(2, 1, Type::V128)), ("SIMD support is not enabled".to_string(), 2));
    for ty in [Type::Func, Type::EmptyBlockType] {
        assert_eq!(message(v.define_locals(3, 0, ty)), ("invalid value type".to_string(), 3));
    }
    let mut all = features();
    all.reference_types = true;
    all.simd = true;
    let mut v = OperatorValidator::new(FuncType { params: vec![], results: vec![] }, &all);
    for ty in [Type::I32, Type::I64, Type::F32, Type::F64, Type::V128, Type::FuncRef, Type::ExternRef] {
        assert!(v.define_locals(0, 1, ty).is_ok());
    }
}

#[test]
fn locals_add_up() {
    for counts in [vec![7], vec![3, 4]] {
        let mut v = validator(vec![], vec![Type::F64]);
        for count in counts {
            assert!(v.define_locals(0, count, Type::F64).is_ok());
        }
        assert!(v.process_operator(&Operator::LocalGet { local_index: 7 }, &module()).is_err());
        assert!(v.process_operator(&Operator::LocalGet { local_index: 6 }, &module()).is_ok());
    }
}

#[test]
fn errors_get_their_offset() {
    let e = OperatorValidatorError::new("type mismatch");
    assert_eq!(e.0.offset, usize::MAX);
    let e = e.set_offset(12);
    assert_eq!((e.message.as_str(), e.offset), ("type mismatch", 12));
}

#[test]
fn indices_are_written_in_decimal() {
    assert_eq!(format_index("a ", 0, ""), "a 0");
    assert_eq!(format_index("a ", 9, "!"), "a 9!");
    assert_eq!(format_index("", 10, ": b"), "10: b");
    assert_eq!(format_index("n", 1203405, "m"), "n1203405m");
    assert_eq!(format_index("", u32::MAX, ""), "4294967295");
}

#[test]
fn lists_of_types_are_copied_and_told_apart() {
    let a = vec![Type::I32, Type::F64];
    let mut b = copy_types(&a);
    assert!(same_types(&a, &b));
    append_types(&mut b, &a);
    assert_eq!(b, vec![Type::I32, Type::F64, Type::I32, Type::F64]);
    assert!(!same_types(&a, &b));
    assert!(!same_types(&a, &vec![Type::I32, Type::F32]));
}

#[test]
fn modules_list_their_contents() {
    let m = module();
    assert_eq!(m.func_type_at(0).map(|ty| ty.inputs()), Some(vec![Type::I32]));
    assert!(m.func_type_at(1).is_none());
    assert_eq!(m.type_of_function(0).map(|ty| (ty.len_inputs(), ty.len_outputs())), Some((1, 2)));
    assert!(m.type_of_function(1).is_none());
    assert!(m.type_of_function(2).is_none());
    assert_eq!(m.memory_at(0).map(|memory| memory.index_type()), Some(Type::I64));
    assert!(m.table_at(0).is_none());
    assert!(m.global_at(0).is_none());
    assert_eq!(m.element_type_at(0), Some(Type::FuncRef));
    assert_eq!((m.element_count(), m.data_count()), (1, 3));
    assert!(m.is_function_referenced(2) && m.is_function_referenced(4));
    assert!(!m.is_function_referenced(3));
}
