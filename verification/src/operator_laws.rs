//! What each operator on numbers, vectors and memory takes off the stack and leaves
//! on it, by what the operator is for.

use vstd::prelude::*;

use crate::features::WasmFeatures;
use crate::laws::{lemma_control_has_no_shape, lemma_families_have_no_shape};
use crate::model::FuncModel;
use crate::primitives::{MemoryImmediate, Operator, Type};
use crate::resources::ModuleModel;
use crate::rules::{shape_typing, step, typed};
use crate::shapes::{shape, Guard, Shape};
use crate::typing_laws::{
    access_obstacle, address_type, atomic_obstacle, first_of, goes_on, lane_obstacle,
    lemma_retyped, needs, unless, value_obstacle, vector_obstacle,
};

verus! {

/// The exponent of the greatest alignment of an access to `bytes` bytes.
spec fn natural(bytes: nat) -> u8 {
    if bytes >= 16 {
        4
    } else if bytes >= 8 {
        3
    } else if bytes >= 4 {
        2
    } else if bytes >= 2 {
        1
    } else {
        0
    }
}

proof fn lemma_by_shape(
    state: FuncModel,
    features: WasmFeatures,
    module: ModuleModel,
    operator: Operator,
)
    requires
        !state.end_function,
        !(shape(operator) is Other),
    ensures
        step(state, features, module, operator) == typed(
            state,
            shape_typing(features, module, shape(operator)),
        ),
{
    lemma_control_has_no_shape(state, features, module, operator);
    lemma_families_have_no_shape(state, features, module, operator);
}

/// The type on which an operator computes with two numbers: a sum, a product, a
/// bitwise combination, a shift, a minimum, and so on.
pub open spec fn arithmetic(operator: Operator) -> Option<Type> {
    match operator {
        Operator::I32Add
        | Operator::I32Sub
        | Operator::I32Mul
        | Operator::I32DivS
        | Operator::I32DivU
        | Operator::I32RemS
        | Operator::I32RemU
        | Operator::I32And
        | Operator::I32Or
        | Operator::I32Xor
        | Operator::I32Shl
        | Operator::I32ShrS
        | Operator::I32ShrU
        | Operator::I32Rotl
        | Operator::I32Rotr => Some(Type::I32),
        Operator::I64Add
        | Operator::I64Sub
        | Operator::I64Mul
        | Operator::I64DivS
        | Operator::I64DivU
        | Operator::I64RemS
        | Operator::I64RemU
        | Operator::I64And
        | Operator::I64Or
        | Operator::I64Xor
        | Operator::I64Shl
        | Operator::I64ShrS
        | Operator::I64ShrU
        | Operator::I64Rotl
        | Operator::I64Rotr => Some(Type::I64),
        Operator::F32Add
        | Operator::F32Sub
        | Operator::F32Mul
        | Operator::F32Div
        | Operator::F32Min
        | Operator::F32Max
        | Operator::F32Copysign => Some(Type::F32),
        Operator::F64Add
        | Operator::F64Sub
        | Operator::F64Mul
        | Operator::F64Div
        | Operator::F64Min
        | Operator::F64Max
        | Operator::F64Copysign => Some(Type::F64),
        _ => None,
    }
}

/// The type on which an operator computes with one number, within the type: a
/// count of bits, a sign extension, a rounding, a root, and so on.
pub open spec fn function(operator: Operator) -> Option<Type> {
    match operator {
        Operator::I32Clz
        | Operator::I32Ctz
        | Operator::I32Popcnt
        | Operator::I32Extend16S
        | Operator::I32Extend8S => Some(Type::I32),
        Operator::I64Clz
        | Operator::I64Ctz
        | Operator::I64Popcnt
        | Operator::I64Extend32S
        | Operator::I64Extend16S
        | Operator::I64Extend8S => Some(Type::I64),
        Operator::F32Abs
        | Operator::F32Neg
        | Operator::F32Ceil
        | Operator::F32Floor
        | Operator::F32Trunc
        | Operator::F32Nearest
        | Operator::F32Sqrt => Some(Type::F32),
        Operator::F64Abs
        | Operator::F64Neg
        | Operator::F64Ceil
        | Operator::F64Floor
        | Operator::F64Trunc
        | Operator::F64Nearest
        | Operator::F64Sqrt => Some(Type::F64),
        _ => None,
    }
}

/// The type of the two numbers that an operator compares.
pub open spec fn comparison(operator: Operator) -> Option<Type> {
    match operator {
        Operator::I32Eq
        | Operator::I32Ne
        | Operator::I32LtS
        | Operator::I32LtU
        | Operator::I32GtS
        | Operator::I32GtU
        | Operator::I32LeS
        | Operator::I32LeU
        | Operator::I32GeS
        | Operator::I32GeU => Some(Type::I32),
        Operator::I64Eq
        | Operator::I64Ne
        | Operator::I64LtS
        | Operator::I64LtU
        | Operator::I64GtS
        | Operator::I64GtU
        | Operator::I64LeS
        | Operator::I64LeU
        | Operator::I64GeS
        | Operator::I64GeU => Some(Type::I64),
        Operator::F32Eq
        | Operator::F32Ne
        | Operator::F32Lt
        | Operator::F32Gt
        | Operator::F32Le
        | Operator::F32Ge => Some(Type::F32),
        Operator::F64Eq
        | Operator::F64Ne
        | Operator::F64Lt
        | Operator::F64Gt
        | Operator::F64Le
        | Operator::F64Ge => Some(Type::F64),
        _ => None,
    }
}

/// The type of the number that an operator compares with zero.
pub open spec fn zero_test(operator: Operator) -> Option<Type> {
    match operator {
        Operator::I32Eqz => Some(Type::I32),
        Operator::I64Eqz => Some(Type::I64),
        _ => None,
    }
}

/// The types from which and to which an operator converts a number.
pub open spec fn conversion(operator: Operator) -> Option<(Type, Type)> {
    match operator {
        Operator::I32WrapI64 => Some((Type::I64, Type::I32)),
        Operator::I32TruncF32S
        | Operator::I32TruncF32U
        | Operator::I32ReinterpretF32
        | Operator::I32TruncSatF32S
        | Operator::I32TruncSatF32U => Some((Type::F32, Type::I32)),
        Operator::I32TruncF64S
        | Operator::I32TruncF64U
        | Operator::I32TruncSatF64S
        | Operator::I32TruncSatF64U => Some((Type::F64, Type::I32)),
        Operator::I64ExtendI32S
        | Operator::I64ExtendI32U => Some((Type::I32, Type::I64)),
        Operator::I64TruncF32S
        | Operator::I64TruncF32U
        | Operator::I64TruncSatF32S
        | Operator::I64TruncSatF32U => Some((Type::F32, Type::I64)),
        Operator::I64TruncF64S
        | Operator::I64TruncF64U
        | Operator::I64ReinterpretF64
        | Operator::I64TruncSatF64S
        | Operator::I64TruncSatF64U => Some((Type::F64, Type::I64)),
        Operator::F32ConvertI32S
        | Operator::F32ConvertI32U
        | Operator::F32ReinterpretI32 => Some((Type::I32, Type::F32)),
        Operator::F32ConvertI64S
        | Operator::F32ConvertI64U => Some((Type::I64, Type::F32)),
        Operator::F32DemoteF64 => Some((Type::F64, Type::F32)),
        Operator::F64ConvertI32S
        | Operator::F64ConvertI32U => Some((Type::I32, Type::F64)),
        Operator::F64ConvertI64S
        | Operator::F64ConvertI64U
        | Operator::F64ReinterpretI64 => Some((Type::I64, Type::F64)),
        Operator::F64PromoteF32 => Some((Type::F32, Type::F64)),
        _ => None,
    }
}

/// The type of the value that an operator holds itself.
pub open spec fn literal(operator: Operator) -> Option<Type> {
    match operator {
        Operator::I32Const { .. } => Some(Type::I32),
        Operator::I64Const { .. } => Some(Type::I64),
        Operator::F32Const { .. } => Some(Type::F32),
        Operator::F64Const { .. } => Some(Type::F64),
        Operator::V128Const { .. } => Some(Type::V128),
        _ => None,
    }
}

/// The immediate, the number of bytes read, and the type of the value, of an
/// operator that reads a memory.
pub open spec fn loading(operator: Operator) -> Option<(MemoryImmediate, nat, Type)> {
    match operator {
        Operator::I32Load { memarg } => Some((memarg, 4, Type::I32)),
        Operator::I64Load { memarg } => Some((memarg, 8, Type::I64)),
        Operator::F32Load { memarg } => Some((memarg, 4, Type::F32)),
        Operator::F64Load { memarg } => Some((memarg, 8, Type::F64)),
        Operator::I32Load8S { memarg }
        | Operator::I32Load8U { memarg } => Some((memarg, 1, Type::I32)),
        Operator::I32Load16S { memarg }
        | Operator::I32Load16U { memarg } => Some((memarg, 2, Type::I32)),
        Operator::I64Load8S { memarg }
        | Operator::I64Load8U { memarg } => Some((memarg, 1, Type::I64)),
        Operator::I64Load16S { memarg }
        | Operator::I64Load16U { memarg } => Some((memarg, 2, Type::I64)),
        Operator::I64Load32S { memarg }
        | Operator::I64Load32U { memarg } => Some((memarg, 4, Type::I64)),
        Operator::V128Load { memarg } => Some((memarg, 16, Type::V128)),
        Operator::V8x16LoadSplat { memarg } => Some((memarg, 1, Type::V128)),
        Operator::V16x8LoadSplat { memarg } => Some((memarg, 2, Type::V128)),
        Operator::V32x4LoadSplat { memarg } => Some((memarg, 4, Type::V128)),
        Operator::V64x2LoadSplat { memarg }
        | Operator::I16x8Load8x8S { memarg }
        | Operator::I16x8Load8x8U { memarg }
        | Operator::I32x4Load16x4S { memarg }
        | Operator::I32x4Load16x4U { memarg }
        | Operator::I64x2Load32x2S { memarg }
        | Operator::I64x2Load32x2U { memarg } => Some((memarg, 8, Type::V128)),
        _ => None,
    }
}

/// The immediate, the number of bytes written, and the type of the value, of an
/// operator that writes a memory.
pub open spec fn storing(operator: Operator) -> Option<(MemoryImmediate, nat, Type)> {
    match operator {
        Operator::I32Store { memarg } => Some((memarg, 4, Type::I32)),
        Operator::I64Store { memarg } => Some((memarg, 8, Type::I64)),
        Operator::F32Store { memarg } => Some((memarg, 4, Type::F32)),
        Operator::F64Store { memarg } => Some((memarg, 8, Type::F64)),
        Operator::I32Store8 { memarg } => Some((memarg, 1, Type::I32)),
        Operator::I32Store16 { memarg } => Some((memarg, 2, Type::I32)),
        Operator::I64Store8 { memarg } => Some((memarg, 1, Type::I64)),
        Operator::I64Store16 { memarg } => Some((memarg, 2, Type::I64)),
        Operator::I64Store32 { memarg } => Some((memarg, 4, Type::I64)),
        Operator::V128Store { memarg } => Some((memarg, 16, Type::V128)),
        _ => None,
    }
}

/// The type of the value that an operator reads atomically.
pub open spec fn atomic_load(operator: Operator) -> Option<Type> {
    match operator {
        Operator::I32AtomicLoad { .. }
        | Operator::I32AtomicLoad16U { .. }
        | Operator::I32AtomicLoad8U { .. } => Some(Type::I32),
        Operator::I64AtomicLoad { .. }
        | Operator::I64AtomicLoad32U { .. }
        | Operator::I64AtomicLoad16U { .. }
        | Operator::I64AtomicLoad8U { .. } => Some(Type::I64),
        _ => None,
    }
}

/// The type of the value that an operator writes atomically.
pub open spec fn atomic_store(operator: Operator) -> Option<Type> {
    match operator {
        Operator::I32AtomicStore { .. }
        | Operator::I32AtomicStore16 { .. }
        | Operator::I32AtomicStore8 { .. } => Some(Type::I32),
        Operator::I64AtomicStore { .. }
        | Operator::I64AtomicStore32 { .. }
        | Operator::I64AtomicStore16 { .. }
        | Operator::I64AtomicStore8 { .. } => Some(Type::I64),
        _ => None,
    }
}

/// The type of the value that an operator combines with memory atomically.
pub open spec fn atomic_update(operator: Operator) -> Option<Type> {
    match operator {
        Operator::I32AtomicRmwAdd { .. }
        | Operator::I32AtomicRmwSub { .. }
        | Operator::I32AtomicRmwAnd { .. }
        | Operator::I32AtomicRmwOr { .. }
        | Operator::I32AtomicRmwXor { .. }
        | Operator::I32AtomicRmw16AddU { .. }
        | Operator::I32AtomicRmw16SubU { .. }
        | Operator::I32AtomicRmw16AndU { .. }
        | Operator::I32AtomicRmw16OrU { .. }
        | Operator::I32AtomicRmw16XorU { .. }
        | Operator::I32AtomicRmw8AddU { .. }
        | Operator::I32AtomicRmw8SubU { .. }
        | Operator::I32AtomicRmw8AndU { .. }
        | Operator::I32AtomicRmw8OrU { .. }
        | Operator::I32AtomicRmw8XorU { .. }
        | Operator::I32AtomicRmwXchg { .. }
        | Operator::I32AtomicRmw16XchgU { .. }
        | Operator::I32AtomicRmw8XchgU { .. } => Some(Type::I32),
        Operator::I64AtomicRmwAdd { .. }
        | Operator::I64AtomicRmwSub { .. }
        | Operator::I64AtomicRmwAnd { .. }
        | Operator::I64AtomicRmwOr { .. }
        | Operator::I64AtomicRmwXor { .. }
        | Operator::I64AtomicRmw32AddU { .. }
        | Operator::I64AtomicRmw32SubU { .. }
        | Operator::I64AtomicRmw32AndU { .. }
        | Operator::I64AtomicRmw32OrU { .. }
        | Operator::I64AtomicRmw32XorU { .. }
        | Operator::I64AtomicRmw16AddU { .. }
        | Operator::I64AtomicRmw16SubU { .. }
        | Operator::I64AtomicRmw16AndU { .. }
        | Operator::I64AtomicRmw16OrU { .. }
        | Operator::I64AtomicRmw16XorU { .. }
        | Operator::I64AtomicRmw8AddU { .. }
        | Operator::I64AtomicRmw8SubU { .. }
        | Operator::I64AtomicRmw8AndU { .. }
        | Operator::I64AtomicRmw8OrU { .. }
        | Operator::I64AtomicRmw8XorU { .. }
        | Operator::I64AtomicRmwXchg { .. }
        | Operator::I64AtomicRmw32XchgU { .. }
        | Operator::I64AtomicRmw16XchgU { .. }
        | Operator::I64AtomicRmw8XchgU { .. } => Some(Type::I64),
        _ => None,
    }
}

/// The type of the values with which an operator replaces memory atomically if it
/// is as expected.
pub open spec fn atomic_compare(operator: Operator) -> Option<Type> {
    match operator {
        Operator::I32AtomicRmwCmpxchg { .. }
        | Operator::I32AtomicRmw16CmpxchgU { .. }
        | Operator::I32AtomicRmw8CmpxchgU { .. } => Some(Type::I32),
        Operator::I64AtomicRmwCmpxchg { .. }
        | Operator::I64AtomicRmw32CmpxchgU { .. }
        | Operator::I64AtomicRmw16CmpxchgU { .. }
        | Operator::I64AtomicRmw8CmpxchgU { .. } => Some(Type::I64),
        _ => None,
    }
}

/// The type of the value that an operator waits to change.
pub open spec fn atomic_wait(operator: Operator) -> Option<Type> {
    match operator {
        Operator::MemoryAtomicWait32 { .. } => Some(Type::I32),
        Operator::MemoryAtomicWait64 { .. } => Some(Type::I64),
        _ => None,
    }
}

/// The type of the number that an operator puts in all lanes of a vector.
pub open spec fn splat(operator: Operator) -> Option<Type> {
    match operator {
        Operator::I8x16Splat
        | Operator::I16x8Splat
        | Operator::I32x4Splat => Some(Type::I32),
        Operator::I64x2Splat => Some(Type::I64),
        Operator::F32x4Splat => Some(Type::F32),
        Operator::F64x2Splat => Some(Type::F64),
        _ => None,
    }
}

/// The lane that an operator takes from a vector, the number of lanes, and the type
/// of the number.
pub open spec fn lane_read(operator: Operator) -> Option<(u8, u8, Type)> {
    match operator {
        Operator::I8x16ExtractLaneS { lane }
        | Operator::I8x16ExtractLaneU { lane } => Some((lane, 16, Type::I32)),
        Operator::I16x8ExtractLaneS { lane }
        | Operator::I16x8ExtractLaneU { lane } => Some((lane, 8, Type::I32)),
        Operator::I32x4ExtractLane { lane } => Some((lane, 4, Type::I32)),
        Operator::I64x2ExtractLane { lane } => Some((lane, 2, Type::I64)),
        Operator::F32x4ExtractLane { lane } => Some((lane, 4, Type::F32)),
        Operator::F64x2ExtractLane { lane } => Some((lane, 2, Type::F64)),
        _ => None,
    }
}

/// The lane that an operator replaces in a vector, the number of lanes, and the
/// type of the number.
pub open spec fn lane_write(operator: Operator) -> Option<(u8, u8, Type)> {
    match operator {
        Operator::I8x16ReplaceLane { lane } => Some((lane, 16, Type::I32)),
        Operator::I16x8ReplaceLane { lane } => Some((lane, 8, Type::I32)),
        Operator::I32x4ReplaceLane { lane } => Some((lane, 4, Type::I32)),
        Operator::I64x2ReplaceLane { lane } => Some((lane, 2, Type::I64)),
        Operator::F32x4ReplaceLane { lane } => Some((lane, 4, Type::F32)),
        Operator::F64x2ReplaceLane { lane } => Some((lane, 2, Type::F64)),
        _ => None,
    }
}

/// Whether an operator shifts the lanes of a vector.
pub open spec fn is_vector_shift(operator: Operator) -> bool {
    match operator {
        Operator::I8x16Shl
        | Operator::I8x16ShrS
        | Operator::I8x16ShrU
        | Operator::I16x8Shl
        | Operator::I16x8ShrS
        | Operator::I16x8ShrU
        | Operator::I32x4Shl
        | Operator::I32x4ShrS
        | Operator::I32x4ShrU
        | Operator::I64x2Shl
        | Operator::I64x2ShrS
        | Operator::I64x2ShrU => true,
        _ => false,
    }
}

/// Whether an operator sums a vector up in an `i32`.
pub open spec fn is_vector_test(operator: Operator) -> bool {
    match operator {
        Operator::I8x16AnyTrue
        | Operator::I8x16AllTrue
        | Operator::I8x16Bitmask
        | Operator::I16x8AnyTrue
        | Operator::I16x8AllTrue
        | Operator::I16x8Bitmask
        | Operator::I32x4AnyTrue
        | Operator::I32x4AllTrue
        | Operator::I32x4Bitmask => true,
        _ => false,
    }
}

/// Whether the lanes are floats, of an operator that combines two vectors.
pub open spec fn vector_binary(operator: Operator) -> Option<bool> {
    match operator {
        Operator::F32x4Eq
        | Operator::F32x4Ne
        | Operator::F32x4Lt
        | Operator::F32x4Gt
        | Operator::F32x4Le
        | Operator::F32x4Ge
        | Operator::F64x2Eq
        | Operator::F64x2Ne
        | Operator::F64x2Lt
        | Operator::F64x2Gt
        | Operator::F64x2Le
        | Operator::F64x2Ge
        | Operator::F32x4Add
        | Operator::F32x4Sub
        | Operator::F32x4Mul
        | Operator::F32x4Div
        | Operator::F32x4Min
        | Operator::F32x4Max
        | Operator::F64x2Add
        | Operator::F64x2Sub
        | Operator::F64x2Mul
        | Operator::F64x2Div
        | Operator::F64x2Min
        | Operator::F64x2Max => Some(true),
        Operator::I8x16Eq
        | Operator::I8x16Ne
        | Operator::I8x16LtS
        | Operator::I8x16LtU
        | Operator::I8x16GtS
        | Operator::I8x16GtU
        | Operator::I8x16LeS
        | Operator::I8x16LeU
        | Operator::I8x16GeS
        | Operator::I8x16GeU
        | Operator::I16x8Eq
        | Operator::I16x8Ne
        | Operator::I16x8LtS
        | Operator::I16x8LtU
        | Operator::I16x8GtS
        | Operator::I16x8GtU
        | Operator::I16x8LeS
        | Operator::I16x8LeU
        | Operator::I16x8GeS
        | Operator::I16x8GeU
        | Operator::I32x4Eq
        | Operator::I32x4Ne
        | Operator::I32x4LtS
        | Operator::I32x4LtU
        | Operator::I32x4GtS
        | Operator::I32x4GtU
        | Operator::I32x4LeS
        | Operator::I32x4LeU
        | Operator::I32x4GeS
        | Operator::I32x4GeU
        | Operator::V128And
        | Operator::V128AndNot
        | Operator::V128Or
        | Operator::V128Xor
        | Operator::I8x16Add
        | Operator::I8x16AddSaturateS
        | Operator::I8x16AddSaturateU
        | Operator::I8x16Sub
        | Operator::I8x16SubSaturateS
        | Operator::I8x16SubSaturateU
        | Operator::I8x16MinS
        | Operator::I8x16MinU
        | Operator::I8x16MaxS
        | Operator::I8x16MaxU
        | Operator::I16x8Add
        | Operator::I16x8AddSaturateS
        | Operator::I16x8AddSaturateU
        | Operator::I16x8Sub
        | Operator::I16x8SubSaturateS
        | Operator::I16x8SubSaturateU
        | Operator::I16x8Mul
        | Operator::I16x8MinS
        | Operator::I16x8MinU
        | Operator::I16x8MaxS
        | Operator::I16x8MaxU
        | Operator::I32x4Add
        | Operator::I32x4Sub
        | Operator::I32x4Mul
        | Operator::I32x4MinS
        | Operator::I32x4MinU
        | Operator::I32x4MaxS
        | Operator::I32x4MaxU
        | Operator::I64x2Add
        | Operator::I64x2Sub
        | Operator::I64x2Mul
        | Operator::I8x16RoundingAverageU
        | Operator::I16x8RoundingAverageU
        | Operator::I8x16NarrowI16x8S
        | Operator::I8x16NarrowI16x8U
        | Operator::I16x8NarrowI32x4S
        | Operator::I16x8NarrowI32x4U
        | Operator::V8x16Swizzle => Some(false),
        _ => None,
    }
}

/// Whether the lanes of the result are floats, of an operator from a vector to a
/// vector.
pub open spec fn vector_unary(operator: Operator) -> Option<bool> {
    match operator {
        Operator::F32x4Abs
        | Operator::F32x4Neg
        | Operator::F32x4Sqrt
        | Operator::F64x2Abs
        | Operator::F64x2Neg
        | Operator::F64x2Sqrt
        | Operator::F32x4ConvertI32x4S
        | Operator::F32x4ConvertI32x4U => Some(true),
        Operator::V128Not
        | Operator::I8x16Abs
        | Operator::I8x16Neg
        | Operator::I16x8Abs
        | Operator::I16x8Neg
        | Operator::I32x4Abs
        | Operator::I32x4Neg
        | Operator::I64x2Neg
        | Operator::I32x4TruncSatF32x4S
        | Operator::I32x4TruncSatF32x4U
        | Operator::I16x8WidenLowI8x16S
        | Operator::I16x8WidenHighI8x16S
        | Operator::I16x8WidenLowI8x16U
        | Operator::I16x8WidenHighI8x16U
        | Operator::I32x4WidenLowI16x8S
        | Operator::I32x4WidenHighI16x8S
        | Operator::I32x4WidenLowI16x8U
        | Operator::I32x4WidenHighI16x8U => Some(false),
        _ => None,
    }
}

#[verifier::rlimit(30)]
proof fn lemma_arithmetic(operator: Operator, ty: Type)
    requires
        arithmetic(operator) == Some(ty),
    ensures
        shape(operator) == Shape::Binary((if ty is F32 || ty is F64 {
            Guard::Float
        } else {
            Guard::Always
        }), ty, ty, ty),
{
}

/// An operator that computes with two numbers takes two of its type and leaves one
/// of that type.
pub proof fn law_arithmetic(
    state: FuncModel,
    features: WasmFeatures,
    module: ModuleModel,
    operator: Operator,
    ty: Type,
)
    requires
        goes_on(state),
        arithmetic(operator) == Some(ty),
    ensures
        unless(
            value_obstacle(features, ty),
            state,
            step(state, features, module, operator),
            seq![ty, ty],
            seq![ty],
        ),
{
    lemma_arithmetic(operator, ty);
    lemma_by_shape(state, features, module, operator);
    lemma_retyped(state, seq![ty, ty], seq![ty]);
}

#[verifier::rlimit(30)]
proof fn lemma_function(operator: Operator, ty: Type)
    requires
        function(operator) == Some(ty),
    ensures
        shape(operator) == Shape::Unary((if ty is F32 || ty is F64 {
            Guard::Float
        } else {
            Guard::Always
        }), ty, ty),
{
}

/// An operator that computes with one number takes and leaves one of its type.
pub proof fn law_function(
    state: FuncModel,
    features: WasmFeatures,
    module: ModuleModel,
    operator: Operator,
    ty: Type,
)
    requires
        goes_on(state),
        function(operator) == Some(ty),
    ensures
        unless(
            value_obstacle(features, ty),
            state,
            step(state, features, module, operator),
            seq![ty],
            seq![ty],
        ),
{
    lemma_function(operator, ty);
    lemma_by_shape(state, features, module, operator);
    lemma_retyped(state, seq![ty], seq![ty]);
}

#[verifier::rlimit(30)]
proof fn lemma_comparison(operator: Operator, ty: Type)
    requires
        comparison(operator) == Some(ty),
    ensures
        shape(operator) == Shape::Binary((if ty is F32 || ty is F64 {
            Guard::Float
        } else {
            Guard::Always
        }), ty, ty, Type::I32),
{
}

/// A comparison takes two numbers of its type and leaves an `i32`.
pub proof fn law_comparison(
    state: FuncModel,
    features: WasmFeatures,
    module: ModuleModel,
    operator: Operator,
    ty: Type,
)
    requires
        goes_on(state),
        comparison(operator) == Some(ty),
    ensures
        unless(
            value_obstacle(features, ty),
            state,
            step(state, features, module, operator),
            seq![ty, ty],
            seq![Type::I32],
        ),
{
    lemma_comparison(operator, ty);
    lemma_by_shape(state, features, module, operator);
    lemma_retyped(state, seq![ty, ty], seq![Type::I32]);
}

#[verifier::rlimit(30)]
proof fn lemma_zero_test(operator: Operator, ty: Type)
    requires
        zero_test(operator) == Some(ty),
    ensures
        shape(operator) == Shape::Unary(Guard::Always, ty, Type::I32),
{
}

/// A comparison with zero takes a number of its type and leaves an `i32`.
pub proof fn law_zero_test(
    state: FuncModel,
    features: WasmFeatures,
    module: ModuleModel,
    operator: Operator,
    ty: Type,
)
    requires
        goes_on(state),
        zero_test(operator) == Some(ty),
    ensures
        unless(
            None,
            state,
            step(state, features, module, operator),
            seq![ty],
            seq![Type::I32],
        ),
{
    lemma_zero_test(operator, ty);
    lemma_by_shape(state, features, module, operator);
    lemma_retyped(state, seq![ty], seq![Type::I32]);
}

#[verifier::rlimit(30)]
proof fn lemma_conversion(operator: Operator, from: Type, ty: Type)
    requires
        conversion(operator) == Some((from, ty)),
    ensures
        shape(operator) == Shape::Unary((if ty is F32 || ty is F64 {
            Guard::Float
        } else {
            Guard::Always
        }), from, ty),
{
}

/// A conversion takes a number of the one type and leaves one of the other. It is
/// the result that makes it one on floats.
pub proof fn law_conversion(
    state: FuncModel,
    features: WasmFeatures,
    module: ModuleModel,
    operator: Operator,
    from: Type,
    ty: Type,
)
    requires
        goes_on(state),
        conversion(operator) == Some((from, ty)),
    ensures
        unless(
            value_obstacle(features, ty),
            state,
            step(state, features, module, operator),
            seq![from],
            seq![ty],
        ),
{
    lemma_conversion(operator, from, ty);
    lemma_by_shape(state, features, module, operator);
    lemma_retyped(state, seq![from], seq![ty]);
}

#[verifier::rlimit(30)]
proof fn lemma_literal(operator: Operator, ty: Type)
    requires
        literal(operator) == Some(ty),
    ensures
        shape(operator) == Shape::Constant((if ty is F32 || ty is F64 {
            Guard::Float
        } else if ty is V128 {
            Guard::Vector
        } else {
            Guard::Always
        }), ty),
{
}

/// A literal takes nothing and leaves a value of its type.
pub proof fn law_literal(
    state: FuncModel,
    features: WasmFeatures,
    module: ModuleModel,
    operator: Operator,
    ty: Type,
)
    requires
        goes_on(state),
        literal(operator) == Some(ty),
    ensures
        unless(
            value_obstacle(features, ty),
            state,
            step(state, features, module, operator),
            seq![],
            seq![ty],
        ),
{
    lemma_literal(operator, ty);
    lemma_by_shape(state, features, module, operator);
    lemma_retyped(state, seq![], seq![ty]);
}

#[verifier::rlimit(30)]
proof fn lemma_loading(operator: Operator, memarg: MemoryImmediate, bytes: nat, ty: Type)
    requires
        loading(operator) == Some((memarg, bytes, ty)),
    ensures
        shape(operator) == Shape::Load((if ty is F32 || ty is F64 {
            Guard::Float
        } else if ty is V128 {
            Guard::Vector
        } else {
            Guard::Always
        }), memarg, natural(bytes), ty),
        bytes == 1 || bytes == 2 || bytes == 4 || bytes == 8 || bytes == 16,
{
}

/// A load takes an address into the memory that it names and leaves a value of its
/// type.
pub proof fn law_loading(
    state: FuncModel,
    features: WasmFeatures,
    module: ModuleModel,
    operator: Operator,
    memarg: MemoryImmediate,
    bytes: nat,
    ty: Type,
)
    requires
        goes_on(state),
        loading(operator) == Some((memarg, bytes, ty)),
    ensures
        unless(
            first_of(
                value_obstacle(features, ty),
                access_obstacle(features, module, memarg, bytes),
            ),
            state,
            step(state, features, module, operator),
            seq![address_type(module.memories[memarg.memory])],
            seq![ty],
        ),
{
    lemma_loading(operator, memarg, bytes, ty);
    lemma_by_shape(state, features, module, operator);
    lemma_retyped(state, seq![address_type(module.memories[memarg.memory])], seq![ty]);
}

#[verifier::rlimit(30)]
proof fn lemma_storing(operator: Operator, memarg: MemoryImmediate, bytes: nat, ty: Type)
    requires
        storing(operator) == Some((memarg, bytes, ty)),
    ensures
        shape(operator) == Shape::Store((if ty is F32 || ty is F64 {
            Guard::Float
        } else if ty is V128 {
            Guard::Vector
        } else {
            Guard::Always
        }), memarg, natural(bytes), ty),
        bytes == 1 || bytes == 2 || bytes == 4 || bytes == 8 || bytes == 16,
{
}

/// A store takes an address into the memory that it names and a value of its type,
/// and leaves nothing.
pub proof fn law_storing(
    state: FuncModel,
    features: WasmFeatures,
    module: ModuleModel,
    operator: Operator,
    memarg: MemoryImmediate,
    bytes: nat,
    ty: Type,
)
    requires
        goes_on(state),
        storing(operator) == Some((memarg, bytes, ty)),
    ensures
        unless(
            first_of(
                value_obstacle(features, ty),
                access_obstacle(features, module, memarg, bytes),
            ),
            state,
            step(state, features, module, operator),
            seq![address_type(module.memories[memarg.memory]), ty],
            seq![],
        ),
{
    lemma_storing(operator, memarg, bytes, ty);
    lemma_by_shape(state, features, module, operator);
    lemma_retyped(state, seq![address_type(module.memories[memarg.memory]), ty], seq![]);
}

#[verifier::rlimit(30)]
proof fn lemma_atomic_load(operator: Operator, ty: Type)
    requires
        atomic_load(operator) == Some(ty),
    ensures
        shape(operator) == Shape::AtomicLoad(ty),
{
}

/// An atomic load takes an address into the first memory and leaves a value of its
/// type.
pub proof fn law_atomic_load(
    state: FuncModel,
    features: WasmFeatures,
    module: ModuleModel,
    operator: Operator,
    ty: Type,
)
    requires
        goes_on(state),
        atomic_load(operator) == Some(ty),
    ensures
        unless(
            atomic_obstacle(features, module),
            state,
            step(state, features, module, operator),
            seq![address_type(module.memories[0])],
            seq![ty],
        ),
{
    lemma_atomic_load(operator, ty);
    lemma_by_shape(state, features, module, operator);
    lemma_retyped(state, seq![address_type(module.memories[0])], seq![ty]);
}

#[verifier::rlimit(30)]
proof fn lemma_atomic_store(operator: Operator, ty: Type)
    requires
        atomic_store(operator) == Some(ty),
    ensures
        shape(operator) == Shape::AtomicStore(ty),
{
}

/// An atomic store takes an address into the first memory and a value of its type,
/// and leaves nothing.
pub proof fn law_atomic_store(
    state: FuncModel,
    features: WasmFeatures,
    module: ModuleModel,
    operator: Operator,
    ty: Type,
)
    requires
        goes_on(state),
        atomic_store(operator) == Some(ty),
    ensures
        unless(
            atomic_obstacle(features, module),
            state,
            step(state, features, module, operator),
            seq![address_type(module.memories[0]), ty],
            seq![],
        ),
{
    lemma_atomic_store(operator, ty);
    lemma_by_shape(state, features, module, operator);
    lemma_retyped(state, seq![address_type(module.memories[0]), ty], seq![]);
}

#[verifier::rlimit(30)]
proof fn lemma_atomic_update(operator: Operator, ty: Type)
    requires
        atomic_update(operator) == Some(ty),
    ensures
        shape(operator) == Shape::AtomicExchange(ty),
{
}

/// An atomic update takes an address into the first memory and a value of its type,
/// and leaves the value that was there.
pub proof fn law_atomic_update(
    state: FuncModel,
    features: WasmFeatures,
    module: ModuleModel,
    operator: Operator,
    ty: Type,
)
    requires
        goes_on(state),
        atomic_update(operator) == Some(ty),
    ensures
        unless(
            atomic_obstacle(features, module),
            state,
            step(state, features, module, operator),
            seq![address_type(module.memories[0]), ty],
            seq![ty],
        ),
{
    lemma_atomic_update(operator, ty);
    lemma_by_shape(state, features, module, operator);
    lemma_retyped(state, seq![address_type(module.memories[0]), ty], seq![ty]);
}

#[verifier::rlimit(30)]
proof fn lemma_atomic_compare(operator: Operator, ty: Type)
    requires
        atomic_compare(operator) == Some(ty),
    ensures
        shape(operator) == Shape::AtomicTernary(ty, ty, ty),
{
}

/// An atomic replacement takes an address into the first memory, the value that is
/// expected there and its replacement, and leaves the value that was there.
pub proof fn law_atomic_compare(
    state: FuncModel,
    features: WasmFeatures,
    module: ModuleModel,
    operator: Operator,
    ty: Type,
)
    requires
        goes_on(state),
        atomic_compare(operator) == Some(ty),
    ensures
        unless(
            atomic_obstacle(features, module),
            state,
            step(state, features, module, operator),
            seq![address_type(module.memories[0]), ty, ty],
            seq![ty],
        ),
{
    lemma_atomic_compare(operator, ty);
    lemma_by_shape(state, features, module, operator);
    lemma_retyped(state, seq![address_type(module.memories[0]), ty, ty], seq![ty]);
}

#[verifier::rlimit(30)]
proof fn lemma_atomic_wait(operator: Operator, ty: Type)
    requires
        atomic_wait(operator) == Some(ty),
    ensures
        shape(operator) == Shape::AtomicTernary(ty, Type::I64, Type::I32),
{
}

/// A wait takes an address into the first memory, the value that is expected there
/// and a timeout, and leaves an `i32`.
pub proof fn law_atomic_wait(
    state: FuncModel,
    features: WasmFeatures,
    module: ModuleModel,
    operator: Operator,
    ty: Type,
)
    requires
        goes_on(state),
        atomic_wait(operator) == Some(ty),
    ensures
        unless(
            atomic_obstacle(features, module),
            state,
            step(state, features, module, operator),
            seq![address_type(module.memories[0]), ty, Type::I64],
            seq![Type::I32],
        ),
{
    lemma_atomic_wait(operator, ty);
    lemma_by_shape(state, features, module, operator);
    lemma_retyped(state, seq![address_type(module.memories[0]), ty, Type::I64], seq![Type::I32]);
}

#[verifier::rlimit(30)]
proof fn lemma_atomic_notify(operator: Operator)
    requires
        operator is MemoryAtomicNotify,
    ensures
        shape(operator) == Shape::AtomicExchange(Type::I32),
{
}

/// A wake-up takes an address into the first memory and a count, and leaves a count.
pub proof fn law_atomic_notify(
    state: FuncModel,
    features: WasmFeatures,
    module: ModuleModel,
    operator: Operator,
)
    requires
        goes_on(state),
        operator is MemoryAtomicNotify,
    ensures
        unless(
            atomic_obstacle(features, module),
            state,
            step(state, features, module, operator),
            seq![address_type(module.memories[0]), Type::I32],
            seq![Type::I32],
        ),
{
    lemma_atomic_notify(operator);
    lemma_by_shape(state, features, module, operator);
    lemma_retyped(state, seq![address_type(module.memories[0]), Type::I32], seq![Type::I32]);
}

#[verifier::rlimit(30)]
proof fn lemma_splat(operator: Operator, ty: Type)
    requires
        splat(operator) == Some(ty),
    ensures
        shape(operator) == Shape::Unary((if ty is F32 || ty is F64 {
            Guard::FloatVector
        } else {
            Guard::Vector
        }), ty, Type::V128),
{
}

/// A splat takes a number and leaves a vector.
pub proof fn law_splat(
    state: FuncModel,
    features: WasmFeatures,
    module: ModuleModel,
    operator: Operator,
    ty: Type,
)
    requires
        goes_on(state),
        splat(operator) == Some(ty),
    ensures
        unless(
            lane_obstacle(features, ty is F32 || ty is F64),
            state,
            step(state, features, module, operator),
            seq![ty],
            seq![Type::V128],
        ),
{
    lemma_splat(operator, ty);
    lemma_by_shape(state, features, module, operator);
    lemma_retyped(state, seq![ty], seq![Type::V128]);
}

#[verifier::rlimit(30)]
proof fn lemma_lane_read(operator: Operator, lane: u8, lanes: u8, ty: Type)
    requires
        lane_read(operator) == Some((lane, lanes, ty)),
    ensures
        shape(operator) == Shape::Extract((if ty is F32 || ty is F64 {
            Guard::FloatVector
        } else {
            Guard::Vector
        }), lane, lanes, ty),
{
}

/// A lane is taken from a vector if the vector has it; a number is left.
pub proof fn law_lane_read(
    state: FuncModel,
    features: WasmFeatures,
    module: ModuleModel,
    operator: Operator,
    lane: u8,
    lanes: u8,
    ty: Type,
)
    requires
        goes_on(state),
        lane_read(operator) == Some((lane, lanes, ty)),
    ensures
        unless(
            first_of(
                lane_obstacle(features, ty is F32 || ty is F64),
                needs(lane < lanes, "SIMD index out of bounds"@),
            ),
            state,
            step(state, features, module, operator),
            seq![Type::V128],
            seq![ty],
        ),
{
    lemma_lane_read(operator, lane, lanes, ty);
    lemma_by_shape(state, features, module, operator);
    lemma_retyped(state, seq![Type::V128], seq![ty]);
}

#[verifier::rlimit(30)]
proof fn lemma_lane_write(operator: Operator, lane: u8, lanes: u8, ty: Type)
    requires
        lane_write(operator) == Some((lane, lanes, ty)),
    ensures
        shape(operator) == Shape::Replace((if ty is F32 || ty is F64 {
            Guard::FloatVector
        } else {
            Guard::Vector
        }), lane, lanes, ty),
{
}

/// A lane of a vector is replaced by a number if the vector has it; a vector is
/// left.
pub proof fn law_lane_write(
    state: FuncModel,
    features: WasmFeatures,
    module: ModuleModel,
    operator: Operator,
    lane: u8,
    lanes: u8,
    ty: Type,
)
    requires
        goes_on(state),
        lane_write(operator) == Some((lane, lanes, ty)),
    ensures
        unless(
            first_of(
                lane_obstacle(features, ty is F32 || ty is F64),
                needs(lane < lanes, "SIMD index out of bounds"@),
            ),
            state,
            step(state, features, module, operator),
            seq![Type::V128, ty],
            seq![Type::V128],
        ),
{
    lemma_lane_write(operator, lane, lanes, ty);
    lemma_by_shape(state, features, module, operator);
    lemma_retyped(state, seq![Type::V128, ty], seq![Type::V128]);
}

#[verifier::rlimit(30)]
proof fn lemma_vector_shift(operator: Operator)
    requires
        is_vector_shift(operator),
    ensures
        shape(operator) == Shape::Binary(Guard::Vector, Type::V128, Type::I32, Type::V128),
{
}

/// A shift of a vector takes the vector and an `i32`, and leaves a vector.
pub proof fn law_vector_shift(
    state: FuncModel,
    features: WasmFeatures,
    module: ModuleModel,
    operator: Operator,
)
    requires
        goes_on(state),
        is_vector_shift(operator),
    ensures
        unless(
            vector_obstacle(features),
            state,
            step(state, features, module, operator),
            seq![Type::V128, Type::I32],
            seq![Type::V128],
        ),
{
    lemma_vector_shift(operator);
    lemma_by_shape(state, features, module, operator);
    lemma_retyped(state, seq![Type::V128, Type::I32], seq![Type::V128]);
}

#[verifier::rlimit(30)]
proof fn lemma_vector_test(operator: Operator)
    requires
        is_vector_test(operator),
    ensures
        shape(operator) == Shape::Unary(Guard::Vector, Type::V128, Type::I32),
{
}

/// A test of a vector takes the vector and leaves an `i32`.
pub proof fn law_vector_test(
    state: FuncModel,
    features: WasmFeatures,
    module: ModuleModel,
    operator: Operator,
)
    requires
        goes_on(state),
        is_vector_test(operator),
    ensures
        unless(
            vector_obstacle(features),
            state,
            step(state, features, module, operator),
            seq![Type::V128],
            seq![Type::I32],
        ),
{
    lemma_vector_test(operator);
    lemma_by_shape(state, features, module, operator);
    lemma_retyped(state, seq![Type::V128], seq![Type::I32]);
}

#[verifier::rlimit(30)]
proof fn lemma_vector_binary(operator: Operator, floats: bool)
    requires
        vector_binary(operator) == Some(floats),
    ensures
        shape(operator) == Shape::Binary((if floats {
            Guard::FloatVector
        } else {
            Guard::Vector
        }), Type::V128, Type::V128, Type::V128),
{
}

/// A combination of two vectors is a vector.
pub proof fn law_vector_binary(
    state: FuncModel,
    features: WasmFeatures,
    module: ModuleModel,
    operator: Operator,
    floats: bool,
)
    requires
        goes_on(state),
        vector_binary(operator) == Some(floats),
    ensures
        unless(
            lane_obstacle(features, floats),
            state,
            step(state, features, module, operator),
            seq![Type::V128, Type::V128],
            seq![Type::V128],
        ),
{
    lemma_vector_binary(operator, floats);
    lemma_by_shape(state, features, module, operator);
    lemma_retyped(state, seq![Type::V128, Type::V128], seq![Type::V128]);
}

#[verifier::rlimit(30)]
proof fn lemma_vector_unary(operator: Operator, floats: bool)
    requires
        vector_unary(operator) == Some(floats),
    ensures
        shape(operator) == Shape::Unary((if floats {
            Guard::FloatVector
        } else {
            Guard::Vector
        }), Type::V128, Type::V128),
{
}

/// What is computed from a vector is a vector.
pub proof fn law_vector_unary(
    state: FuncModel,
    features: WasmFeatures,
    module: ModuleModel,
    operator: Operator,
    floats: bool,
)
    requires
        goes_on(state),
        vector_unary(operator) == Some(floats),
    ensures
        unless(
            lane_obstacle(features, floats),
            state,
            step(state, features, module, operator),
            seq![Type::V128],
            seq![Type::V128],
        ),
{
    lemma_vector_unary(operator, floats);
    lemma_by_shape(state, features, module, operator);
    lemma_retyped(state, seq![Type::V128], seq![Type::V128]);
}

#[verifier::rlimit(30)]
proof fn lemma_bitselect(operator: Operator)
    requires
        operator is V128Bitselect,
    ensures
        shape(operator) == Shape::Ternary(Guard::Vector, Type::V128, Type::V128, Type::V128, Type::V128),
{
}

/// A choice of bits takes two vectors and a mask, and leaves a vector.
pub proof fn law_bitselect(
    state: FuncModel,
    features: WasmFeatures,
    module: ModuleModel,
    operator: Operator,
)
    requires
        goes_on(state),
        operator is V128Bitselect,
    ensures
        unless(
            vector_obstacle(features),
            state,
            step(state, features, module, operator),
            seq![Type::V128, Type::V128, Type::V128],
            seq![Type::V128],
        ),
{
    lemma_bitselect(operator);
    lemma_by_shape(state, features, module, operator);
    lemma_retyped(state, seq![Type::V128, Type::V128, Type::V128], seq![Type::V128]);
}

} // verus!
