//! The operators that differ in their types alone, sorted by what they take and
//! leave.

use vstd::prelude::*;

use crate::primitives::{MemoryImmediate, Operator, SIMDLaneIndex, Type};

verus! {

/// Which features an operator of fixed types depends on.
#[derive(Debug, Copy, Clone)]
pub enum Guard {
    Always,
    Float,
    Vector,
    FloatVector,
}

/// The operators by what they take and leave.
#[derive(Debug, Copy, Clone)]
pub enum Shape {
    /// From nothing to a result.
    Constant(Guard, Type),
    /// From an operand to a result.
    Unary(Guard, Type, Type),
    /// From two operands to a result.
    Binary(Guard, Type, Type, Type),
    /// From three operands to a result.
    Ternary(Guard, Type, Type, Type, Type),
    /// From a vector to one of its lanes, with the number of lanes.
    Extract(Guard, SIMDLaneIndex, u8, Type),
    /// From a vector and a value for a lane to a vector.
    Replace(Guard, SIMDLaneIndex, u8, Type),
    /// From an address to the value there, with the natural alignment.
    Load(Guard, MemoryImmediate, u8, Type),
    /// From an address and a value to nothing.
    Store(Guard, MemoryImmediate, u8, Type),
    AtomicLoad(Type),
    AtomicStore(Type),
    /// From an address and a value to a value of the same type.
    AtomicExchange(Type),
    /// From an address and two values to a result.
    AtomicTernary(Type, Type, Type),
    /// None of these.
    Other,
}

/// The shape of an operator.
pub open spec fn shape(operator: Operator) -> Shape {
    match operator {
        Operator::I32Load { memarg } => Shape::Load(Guard::Always, memarg, 2, Type::I32),
        Operator::I64Load { memarg } => Shape::Load(Guard::Always, memarg, 3, Type::I64),
        Operator::F32Load { memarg } => Shape::Load(Guard::Float, memarg, 2, Type::F32),
        Operator::F64Load { memarg } => Shape::Load(Guard::Float, memarg, 3, Type::F64),
        Operator::I32Load8S { memarg }
        | Operator::I32Load8U { memarg } => Shape::Load(Guard::Always, memarg, 0, Type::I32),
        Operator::I32Load16S { memarg }
        | Operator::I32Load16U { memarg } => Shape::Load(Guard::Always, memarg, 1, Type::I32),
        Operator::I64Load8S { memarg }
        | Operator::I64Load8U { memarg } => Shape::Load(Guard::Always, memarg, 0, Type::I64),
        Operator::I64Load16S { memarg }
        | Operator::I64Load16U { memarg } => Shape::Load(Guard::Always, memarg, 1, Type::I64),
        Operator::I64Load32S { memarg }
        | Operator::I64Load32U { memarg } => Shape::Load(Guard::Always, memarg, 2, Type::I64),
        Operator::I32Store { memarg } => Shape::Store(Guard::Always, memarg, 2, Type::I32),
        Operator::I64Store { memarg } => Shape::Store(Guard::Always, memarg, 3, Type::I64),
        Operator::F32Store { memarg } => Shape::Store(Guard::Float, memarg, 2, Type::F32),
        Operator::F64Store { memarg } => Shape::Store(Guard::Float, memarg, 3, Type::F64),
        Operator::I32Store8 { memarg } => Shape::Store(Guard::Always, memarg, 0, Type::I32),
        Operator::I32Store16 { memarg } => Shape::Store(Guard::Always, memarg, 1, Type::I32),
        Operator::I64Store8 { memarg } => Shape::Store(Guard::Always, memarg, 0, Type::I64),
        Operator::I64Store16 { memarg } => Shape::Store(Guard::Always, memarg, 1, Type::I64),
        Operator::I64Store32 { memarg } => Shape::Store(Guard::Always, memarg, 2, Type::I64),
        Operator::I32Const { .. } => Shape::Constant(Guard::Always, Type::I32),
        Operator::I64Const { .. } => Shape::Constant(Guard::Always, Type::I64),
        Operator::F32Const { .. } => Shape::Constant(Guard::Float, Type::F32),
        Operator::F64Const { .. } => Shape::Constant(Guard::Float, Type::F64),
        Operator::I32Eqz
        | Operator::I32Clz
        | Operator::I32Ctz
        | Operator::I32Popcnt
        | Operator::I32Extend16S
        | Operator::I32Extend8S => Shape::Unary(Guard::Always, Type::I32, Type::I32),
        Operator::I32Eq
        | Operator::I32Ne
        | Operator::I32LtS
        | Operator::I32LtU
        | Operator::I32GtS
        | Operator::I32GtU
        | Operator::I32LeS
        | Operator::I32LeU
        | Operator::I32GeS
        | Operator::I32GeU
        | Operator::I32Add
        | Operator::I32Sub
        | Operator::I32Mul
        | Operator::I32DivS
        | Operator::I32DivU
        | Operator::I32RemS
        | Operator::I32RemU
        | Operator::I32And
        | Operator::I32Or
        | Operator::I32Xor
        | Operator::I32Shl
        | Operator::I32ShrS
        | Operator::I32ShrU
        | Operator::I32Rotl
        | Operator::I32Rotr => Shape::Binary(Guard::Always, Type::I32, Type::I32, Type::I32),
        Operator::I64Eqz
        | Operator::I32WrapI64 => Shape::Unary(Guard::Always, Type::I64, Type::I32),
        Operator::I64Eq
        | Operator::I64Ne
        | Operator::I64LtS
        | Operator::I64LtU
        | Operator::I64GtS
        | Operator::I64GtU
        | Operator::I64LeS
        | Operator::I64LeU
        | Operator::I64GeS
        | Operator::I64GeU => Shape::Binary(Guard::Always, Type::I64, Type::I64, Type::I32),
        Operator::F32Eq
        | Operator::F32Ne
        | Operator::F32Lt
        | Operator::F32Gt
        | Operator::F32Le
        | Operator::F32Ge => Shape::Binary(Guard::Float, Type::F32, Type::F32, Type::I32),
        Operator::F64Eq
        | Operator::F64Ne
        | Operator::F64Lt
        | Operator::F64Gt
        | Operator::F64Le
        | Operator::F64Ge => Shape::Binary(Guard::Float, Type::F64, Type::F64, Type::I32),
        Operator::I64Clz
        | Operator::I64Ctz
        | Operator::I64Popcnt
        | Operator::I64Extend32S
        | Operator::I64Extend16S
        | Operator::I64Extend8S => Shape::Unary(Guard::Always, Type::I64, Type::I64),
        Operator::I64Add
        | Operator::I64Sub
        | Operator::I64Mul
        | Operator::I64DivS
        | Operator::I64DivU
        | Operator::I64RemS
        | Operator::I64RemU
        | Operator::I64And
        | Operator::I64Or
        | Operator::I64Xor
        | Operator::I64Shl
        | Operator::I64ShrS
        | Operator::I64ShrU
        | Operator::I64Rotl
        | Operator::I64Rotr => Shape::Binary(Guard::Always, Type::I64, Type::I64, Type::I64),
        Operator::F32Abs
        | Operator::F32Neg
        | Operator::F32Ceil
        | Operator::F32Floor
        | Operator::F32Trunc
        | Operator::F32Nearest
        | Operator::F32Sqrt => Shape::Unary(Guard::Float, Type::F32, Type::F32),
        Operator::F32Add
        | Operator::F32Sub
        | Operator::F32Mul
        | Operator::F32Div
        | Operator::F32Min
        | Operator::F32Max
        | Operator::F32Copysign => Shape::Binary(Guard::Float, Type::F32, Type::F32, Type::F32),
        Operator::F64Abs
        | Operator::F64Neg
        | Operator::F64Ceil
        | Operator::F64Floor
        | Operator::F64Trunc
        | Operator::F64Nearest
        | Operator::F64Sqrt => Shape::Unary(Guard::Float, Type::F64, Type::F64),
        Operator::F64Add
        | Operator::F64Sub
        | Operator::F64Mul
        | Operator::F64Div
        | Operator::F64Min
        | Operator::F64Max
        | Operator::F64Copysign => Shape::Binary(Guard::Float, Type::F64, Type::F64, Type::F64),
        Operator::I32TruncF32S
        | Operator::I32TruncF32U
        | Operator::I32ReinterpretF32
        | Operator::I32TruncSatF32S
        | Operator::I32TruncSatF32U => Shape::Unary(Guard::Always, Type::F32, Type::I32),
        Operator::I32TruncF64S
        | Operator::I32TruncF64U
        | Operator::I32TruncSatF64S
        | Operator::I32TruncSatF64U => Shape::Unary(Guard::Always, Type::F64, Type::I32),
        Operator::I64ExtendI32S
        | Operator::I64ExtendI32U => Shape::Unary(Guard::Always, Type::I32, Type::I64),
        Operator::I64TruncF32S
        | Operator::I64TruncF32U
        | Operator::I64TruncSatF32S
        | Operator::I64TruncSatF32U => Shape::Unary(Guard::Always, Type::F32, Type::I64),
        Operator::I64TruncF64S
        | Operator::I64TruncF64U
        | Operator::I64ReinterpretF64
        | Operator::I64TruncSatF64S
        | Operator::I64TruncSatF64U => Shape::Unary(Guard::Always, Type::F64, Type::I64),
        Operator::F32ConvertI32S
        | Operator::F32ConvertI32U
        | Operator::F32ReinterpretI32 => Shape::Unary(Guard::Float, Type::I32, Type::F32),
        Operator::F32ConvertI64S
        | Operator::F32ConvertI64U => Shape::Unary(Guard::Float, Type::I64, Type::F32),
        Operator::F32DemoteF64 => Shape::Unary(Guard::Float, Type::F64, Type::F32),
        Operator::F64ConvertI32S
        | Operator::F64ConvertI32U => Shape::Unary(Guard::Float, Type::I32, Type::F64),
        Operator::F64ConvertI64S
        | Operator::F64ConvertI64U
        | Operator::F64ReinterpretI64 => Shape::Unary(Guard::Float, Type::I64, Type::F64),
        Operator::F64PromoteF32 => Shape::Unary(Guard::Float, Type::F32, Type::F64),
        Operator::I32AtomicLoad { .. }
        | Operator::I32AtomicLoad16U { .. }
        | Operator::I32AtomicLoad8U { .. } => Shape::AtomicLoad(Type::I32),
        Operator::I64AtomicLoad { .. }
        | Operator::I64AtomicLoad32U { .. }
        | Operator::I64AtomicLoad16U { .. }
        | Operator::I64AtomicLoad8U { .. } => Shape::AtomicLoad(Type::I64),
        Operator::I32AtomicStore { .. }
        | Operator::I32AtomicStore16 { .. }
        | Operator::I32AtomicStore8 { .. } => Shape::AtomicStore(Type::I32),
        Operator::I64AtomicStore { .. }
        | Operator::I64AtomicStore32 { .. }
        | Operator::I64AtomicStore16 { .. }
        | Operator::I64AtomicStore8 { .. } => Shape::AtomicStore(Type::I64),
        Operator::I32AtomicRmwAdd { .. }
        | Operator::I32AtomicRmwSub { .. }
        | Operator::I32AtomicRmwAnd { .. }
        | Operator::I32AtomicRmwOr { .. }
        | Operator::I32AtomicRmwXor { .. }
        | Operator::I32AtomicRmw16AddU { .. }
        | Operator::I32AtomicRmw16SubU { .. }
        | Operator::I32AtomicRmw16AndU { .. }
        | Operator::I32AtomicRmw16OrU { .. }
        | Operator::I32AtomicRmw16XorU { .. }
        | Operator::I32AtomicRmw8AddU { .. }
        | Operator::I32AtomicRmw8SubU { .. }
        | Operator::I32AtomicRmw8AndU { .. }
        | Operator::I32AtomicRmw8OrU { .. }
        | Operator::I32AtomicRmw8XorU { .. }
        | Operator::I32AtomicRmwXchg { .. }
        | Operator::I32AtomicRmw16XchgU { .. }
        | Operator::I32AtomicRmw8XchgU { .. }
        | Operator::MemoryAtomicNotify { .. } => Shape::AtomicExchange(Type::I32),
        Operator::I64AtomicRmwAdd { .. }
        | Operator::I64AtomicRmwSub { .. }
        | Operator::I64AtomicRmwAnd { .. }
        | Operator::I64AtomicRmwOr { .. }
        | Operator::I64AtomicRmwXor { .. }
        | Operator::I64AtomicRmw32AddU { .. }
        | Operator::I64AtomicRmw32SubU { .. }
        | Operator::I64AtomicRmw32AndU { .. }
        | Operator::I64AtomicRmw32OrU { .. }
        | Operator::I64AtomicRmw32XorU { .. }
        | Operator::I64AtomicRmw16AddU { .. }
        | Operator::I64AtomicRmw16SubU { .. }
        | Operator::I64AtomicRmw16AndU { .. }
        | Operator::I64AtomicRmw16OrU { .. }
        | Operator::I64AtomicRmw16XorU { .. }
        | Operator::I64AtomicRmw8AddU { .. }
        | Operator::I64AtomicRmw8SubU { .. }
        | Operator::I64AtomicRmw8AndU { .. }
        | Operator::I64AtomicRmw8OrU { .. }
        | Operator::I64AtomicRmw8XorU { .. }
        | Operator::I64AtomicRmwXchg { .. }
        | Operator::I64AtomicRmw32XchgU { .. }
        | Operator::I64AtomicRmw16XchgU { .. }
        | Operator::I64AtomicRmw8XchgU { .. } => Shape::AtomicExchange(Type::I64),
        Operator::I32AtomicRmwCmpxchg { .. }
        | Operator::I32AtomicRmw16CmpxchgU { .. }
        | Operator::I32AtomicRmw8CmpxchgU { .. } => Shape::AtomicTernary(Type::I32, Type::I32, Type::I32),
        Operator::I64AtomicRmwCmpxchg { .. }
        | Operator::I64AtomicRmw32CmpxchgU { .. }
        | Operator::I64AtomicRmw16CmpxchgU { .. }
        | Operator::I64AtomicRmw8CmpxchgU { .. } => Shape::AtomicTernary(Type::I64, Type::I64, Type::I64),
        Operator::MemoryAtomicWait32 { .. } => Shape::AtomicTernary(Type::I32, Type::I64, Type::I32),
        Operator::MemoryAtomicWait64 { .. } => Shape::AtomicTernary(Type::I64, Type::I64, Type::I32),
        Operator::V128Load { memarg } => Shape::Load(Guard::Vector, memarg, 4, Type::V128),
        Operator::V128Store { memarg } => Shape::Store(Guard::Vector, memarg, 4, Type::V128),
        Operator::V128Const { .. } => Shape::Constant(Guard::Vector, Type::V128),
        Operator::I8x16Splat
        | Operator::I16x8Splat
        | Operator::I32x4Splat => Shape::Unary(Guard::Vector, Type::I32, Type::V128),
        Operator::I64x2Splat => Shape::Unary(Guard::Vector, Type::I64, Type::V128),
        Operator::F32x4Splat => Shape::Unary(Guard::FloatVector, Type::F32, Type::V128),
        Operator::F64x2Splat => Shape::Unary(Guard::FloatVector, Type::F64, Type::V128),
        Operator::I8x16ExtractLaneS { lane }
        | Operator::I8x16ExtractLaneU { lane } => Shape::Extract(Guard::Vector, lane, 16, Type::I32),
        Operator::I16x8ExtractLaneS { lane }
        | Operator::I16x8ExtractLaneU { lane } => Shape::Extract(Guard::Vector, lane, 8, Type::I32),
        Operator::I32x4ExtractLane { lane } => Shape::Extract(Guard::Vector, lane, 4, Type::I32),
        Operator::I8x16ReplaceLane { lane } => Shape::Replace(Guard::Vector, lane, 16, Type::I32),
        Operator::I16x8ReplaceLane { lane } => Shape::Replace(Guard::Vector, lane, 8, Type::I32),
        Operator::I32x4ReplaceLane { lane } => Shape::Replace(Guard::Vector, lane, 4, Type::I32),
        Operator::I64x2ExtractLane { lane } => Shape::Extract(Guard::Vector, lane, 2, Type::I64),
        Operator::I64x2ReplaceLane { lane } => Shape::Replace(Guard::Vector, lane, 2, Type::I64),
        Operator::F32x4ExtractLane { lane } => Shape::Extract(Guard::FloatVector, lane, 4, Type::F32),
        Operator::F32x4ReplaceLane { lane } => Shape::Replace(Guard::FloatVector, lane, 4, Type::F32),
        Operator::F64x2ExtractLane { lane } => Shape::Extract(Guard::FloatVector, lane, 2, Type::F64),
        Operator::F64x2ReplaceLane { lane } => Shape::Replace(Guard::FloatVector, lane, 2, Type::F64),
        Operator::F32x4Eq
        | Operator::F32x4Ne
        | Operator::F32x4Lt
        | Operator::F32x4Gt
        | Operator::F32x4Le
        | Operator::F32x4Ge
        | Operator::F64x2Eq
        | Operator::F64x2Ne
        | Operator::F64x2Lt
        | Operator::F64x2Gt
        | Operator::F64x2Le
        | Operator::F64x2Ge
        | Operator::F32x4Add
        | Operator::F32x4Sub
        | Operator::F32x4Mul
        | Operator::F32x4Div
        | Operator::F32x4Min
        | Operator::F32x4Max
        | Operator::F64x2Add
        | Operator::F64x2Sub
        | Operator::F64x2Mul
        | Operator::F64x2Div
        | Operator::F64x2Min
        | Operator::F64x2Max => Shape::Binary(Guard::FloatVector, Type::V128, Type::V128, Type::V128),
        Operator::I8x16Eq
        | Operator::I8x16Ne
        | Operator::I8x16LtS
        | Operator::I8x16LtU
        | Operator::I8x16GtS
        | Operator::I8x16GtU
        | Operator::I8x16LeS
        | Operator::I8x16LeU
        | Operator::I8x16GeS
        | Operator::I8x16GeU
        | Operator::I16x8Eq
        | Operator::I16x8Ne
        | Operator::I16x8LtS
        | Operator::I16x8LtU
        | Operator::I16x8GtS
        | Operator::I16x8GtU
        | Operator::I16x8LeS
        | Operator::I16x8LeU
        | Operator::I16x8GeS
        | Operator::I16x8GeU
        | Operator::I32x4Eq
        | Operator::I32x4Ne
        | Operator::I32x4LtS
        | Operator::I32x4LtU
        | Operator::I32x4GtS
        | Operator::I32x4GtU
        | Operator::I32x4LeS
        | Operator::I32x4LeU
        | Operator::I32x4GeS
        | Operator::I32x4GeU
        | Operator::V128And
        | Operator::V128AndNot
        | Operator::V128Or
        | Operator::V128Xor
        | Operator::I8x16Add
        | Operator::I8x16AddSaturateS
        | Operator::I8x16AddSaturateU
        | Operator::I8x16Sub
        | Operator::I8x16SubSaturateS
        | Operator::I8x16SubSaturateU
        | Operator::I8x16MinS
        | Operator::I8x16MinU
        | Operator::I8x16MaxS
        | Operator::I8x16MaxU
        | Operator::I16x8Add
        | Operator::I16x8AddSaturateS
        | Operator::I16x8AddSaturateU
        | Operator::I16x8Sub
        | Operator::I16x8SubSaturateS
        | Operator::I16x8SubSaturateU
        | Operator::I16x8Mul
        | Operator::I16x8MinS
        | Operator::I16x8MinU
        | Operator::I16x8MaxS
        | Operator::I16x8MaxU
        | Operator::I32x4Add
        | Operator::I32x4Sub
        | Operator::I32x4Mul
        | Operator::I32x4MinS
        | Operator::I32x4MinU
        | Operator::I32x4MaxS
        | Operator::I32x4MaxU
        | Operator::I64x2Add
        | Operator::I64x2Sub
        | Operator::I64x2Mul
        | Operator::I8x16RoundingAverageU
        | Operator::I16x8RoundingAverageU
        | Operator::I8x16NarrowI16x8S
        | Operator::I8x16NarrowI16x8U
        | Operator::I16x8NarrowI32x4S
        | Operator::I16x8NarrowI32x4U
        | Operator::V8x16Swizzle => Shape::Binary(Guard::Vector, Type::V128, Type::V128, Type::V128),
        Operator::F32x4Abs
        | Operator::F32x4Neg
        | Operator::F32x4Sqrt
        | Operator::F64x2Abs
        | Operator::F64x2Neg
        | Operator::F64x2Sqrt
        | Operator::F32x4ConvertI32x4S
        | Operator::F32x4ConvertI32x4U => Shape::Unary(Guard::FloatVector, Type::V128, Type::V128),
        Operator::V128Not
        | Operator::I8x16Abs
        | Operator::I8x16Neg
        | Operator::I16x8Abs
        | Operator::I16x8Neg
        | Operator::I32x4Abs
        | Operator::I32x4Neg
        | Operator::I64x2Neg
        | Operator::I32x4TruncSatF32x4S
        | Operator::I32x4TruncSatF32x4U
        | Operator::I16x8WidenLowI8x16S
        | Operator::I16x8WidenHighI8x16S
        | Operator::I16x8WidenLowI8x16U
        | Operator::I16x8WidenHighI8x16U
        | Operator::I32x4WidenLowI16x8S
        | Operator::I32x4WidenHighI16x8S
        | Operator::I32x4WidenLowI16x8U
        | Operator::I32x4WidenHighI16x8U => Shape::Unary(Guard::Vector, Type::V128, Type::V128),
        Operator::V128Bitselect => Shape::Ternary(Guard::Vector, Type::V128, Type::V128, Type::V128, Type::V128),
        Operator::I8x16AnyTrue
        | Operator::I8x16AllTrue
        | Operator::I8x16Bitmask
        | Operator::I16x8AnyTrue
        | Operator::I16x8AllTrue
        | Operator::I16x8Bitmask
        | Operator::I32x4AnyTrue
        | Operator::I32x4AllTrue
        | Operator::I32x4Bitmask => Shape::Unary(Guard::Vector, Type::V128, Type::I32),
        Operator::I8x16Shl
        | Operator::I8x16ShrS
        | Operator::I8x16ShrU
        | Operator::I16x8Shl
        | Operator::I16x8ShrS
        | Operator::I16x8ShrU
        | Operator::I32x4Shl
        | Operator::I32x4ShrS
        | Operator::I32x4ShrU
        | Operator::I64x2Shl
        | Operator::I64x2ShrS
        | Operator::I64x2ShrU => Shape::Binary(Guard::Vector, Type::V128, Type::I32, Type::V128),
        Operator::V8x16LoadSplat { memarg } => Shape::Load(Guard::Vector, memarg, 0, Type::V128),
        Operator::V16x8LoadSplat { memarg } => Shape::Load(Guard::Vector, memarg, 1, Type::V128),
        Operator::V32x4LoadSplat { memarg } => Shape::Load(Guard::Vector, memarg, 2, Type::V128),
        Operator::V64x2LoadSplat { memarg }
        | Operator::I16x8Load8x8S { memarg }
        | Operator::I16x8Load8x8U { memarg }
        | Operator::I32x4Load16x4S { memarg }
        | Operator::I32x4Load16x4U { memarg }
        | Operator::I64x2Load32x2S { memarg }
        | Operator::I64x2Load32x2U { memarg } => Shape::Load(Guard::Vector, memarg, 3, Type::V128),
        _ => Shape::Other,
    }
}

/// Finds the shape of an operator.
pub fn shape_of(operator: &Operator) -> (r: Shape)
    ensures
        r == shape(*operator),
{
    match operator {
        Operator::I32Load { memarg } => Shape::Load(Guard::Always, *memarg, 2, Type::I32),
        Operator::I64Load { memarg } => Shape::Load(Guard::Always, *memarg, 3, Type::I64),
        Operator::F32Load { memarg } => Shape::Load(Guard::Float, *memarg, 2, Type::F32),
        Operator::F64Load { memarg } => Shape::Load(Guard::Float, *memarg, 3, Type::F64),
        Operator::I32Load8S { memarg }
        | Operator::I32Load8U { memarg } => Shape::Load(Guard::Always, *memarg, 0, Type::I32),
        Operator::I32Load16S { memarg }
        | Operator::I32Load16U { memarg } => Shape::Load(Guard::Always, *memarg, 1, Type::I32),
        Operator::I64Load8S { memarg }
        | Operator::I64Load8U { memarg } => Shape::Load(Guard::Always, *memarg, 0, Type::I64),
        Operator::I64Load16S { memarg }
        | Operator::I64Load16U { memarg } => Shape::Load(Guard::Always, *memarg, 1, Type::I64),
        Operator::I64Load32S { memarg }
        | Operator::I64Load32U { memarg } => Shape::Load(Guard::Always, *memarg, 2, Type::I64),
        Operator::I32Store { memarg } => Shape::Store(Guard::Always, *memarg, 2, Type::I32),
        Operator::I64Store { memarg } => Shape::Store(Guard::Always, *memarg, 3, Type::I64),
        Operator::F32Store { memarg } => Shape::Store(Guard::Float, *memarg, 2, Type::F32),
        Operator::F64Store { memarg } => Shape::Store(Guard::Float, *memarg, 3, Type::F64),
        Operator::I32Store8 { memarg } => Shape::Store(Guard::Always, *memarg, 0, Type::I32),
        Operator::I32Store16 { memarg } => Shape::Store(Guard::Always, *memarg, 1, Type::I32),
        Operator::I64Store8 { memarg } => Shape::Store(Guard::Always, *memarg, 0, Type::I64),
        Operator::I64Store16 { memarg } => Shape::Store(Guard::Always, *memarg, 1, Type::I64),
        Operator::I64Store32 { memarg } => Shape::Store(Guard::Always, *memarg, 2, Type::I64),
        Operator::I32Const { .. } => Shape::Constant(Guard::Always, Type::I32),
        Operator::I64Const { .. } => Shape::Constant(Guard::Always, Type::I64),
        Operator::F32Const { .. } => Shape::Constant(Guard::Float, Type::F32),
        Operator::F64Const { .. } => Shape::Constant(Guard::Float, Type::F64),
        Operator::I32Eqz
        | Operator::I32Clz
        | Operator::I32Ctz
        | Operator::I32Popcnt
        | Operator::I32Extend16S
        | Operator::I32Extend8S => Shape::Unary(Guard::Always, Type::I32, Type::I32),
        Operator::I32Eq
        | Operator::I32Ne
        | Operator::I32LtS
        | Operator::I32LtU
        | Operator::I32GtS
        | Operator::I32GtU
        | Operator::I32LeS
        | Operator::I32LeU
        | Operator::I32GeS
        | Operator::I32GeU
        | Operator::I32Add
        | Operator::I32Sub
        | Operator::I32Mul
        | Operator::I32DivS
        | Operator::I32DivU
        | Operator::I32RemS
        | Operator::I32RemU
        | Operator::I32And
        | Operator::I32Or
        | Operator::I32Xor
        | Operator::I32Shl
        | Operator::I32ShrS
        | Operator::I32ShrU
        | Operator::I32Rotl
        | Operator::I32Rotr => Shape::Binary(Guard::Always, Type::I32, Type::I32, Type::I32),
        Operator::I64Eqz
        | Operator::I32WrapI64 => Shape::Unary(Guard::Always, Type::I64, Type::I32),
        Operator::I64Eq
        | Operator::I64Ne
        | Operator::I64LtS
        | Operator::I64LtU
        | Operator::I64GtS
        | Operator::I64GtU
        | Operator::I64LeS
        | Operator::I64LeU
        | Operator::I64GeS
        | Operator::I64GeU => Shape::Binary(Guard::Always, Type::I64, Type::I64, Type::I32),
        Operator::F32Eq
        | Operator::F32Ne
        | Operator::F32Lt
        | Operator::F32Gt
        | Operator::F32Le
        | Operator::F32Ge => Shape::Binary(Guard::Float, Type::F32, Type::F32, Type::I32),
        Operator::F64Eq
        | Operator::F64Ne
        | Operator::F64Lt
        | Operator::F64Gt
        | Operator::F64Le
        | Operator::F64Ge => Shape::Binary(Guard::Float, Type::F64, Type::F64, Type::I32),
        Operator::I64Clz
        | Operator::I64Ctz
        | Operator::I64Popcnt
        | Operator::I64Extend32S
        | Operator::I64Extend16S
        | Operator::I64Extend8S => Shape::Unary(Guard::Always, Type::I64, Type::I64),
        Operator::I64Add
        | Operator::I64Sub
        | Operator::I64Mul
        | Operator::I64DivS
        | Operator::I64DivU
        | Operator::I64RemS
        | Operator::I64RemU
        | Operator::I64And
        | Operator::I64Or
        | Operator::I64Xor
        | Operator::I64Shl
        | Operator::I64ShrS
        | Operator::I64ShrU
        | Operator::I64Rotl
        | Operator::I64Rotr => Shape::Binary(Guard::Always, Type::I64, Type::I64, Type::I64),
        Operator::F32Abs
        | Operator::F32Neg
        | Operator::F32Ceil
        | Operator::F32Floor
        | Operator::F32Trunc
        | Operator::F32Nearest
        | Operator::F32Sqrt => Shape::Unary(Guard::Float, Type::F32, Type::F32),
        Operator::F32Add
        | Operator::F32Sub
        | Operator::F32Mul
        | Operator::F32Div
        | Operator::F32Min
        | Operator::F32Max
        | Operator::F32Copysign => Shape::Binary(Guard::Float, Type::F32, Type::F32, Type::F32),
        Operator::F64Abs
        | Operator::F64Neg
        | Operator::F64Ceil
        | Operator::F64Floor
        | Operator::F64Trunc
        | Operator::F64Nearest
        | Operator::F64Sqrt => Shape::Unary(Guard::Float, Type::F64, Type::F64),
        Operator::F64Add
        | Operator::F64Sub
        | Operator::F64Mul
        | Operator::F64Div
        | Operator::F64Min
        | Operator::F64Max
        | Operator::F64Copysign => Shape::Binary(Guard::Float, Type::F64, Type::F64, Type::F64),
        Operator::I32TruncF32S
        | Operator::I32TruncF32U
        | Operator::I32ReinterpretF32
        | Operator::I32TruncSatF32S
        | Operator::I32TruncSatF32U => Shape::Unary(Guard::Always, Type::F32, Type::I32),
        Operator::I32TruncF64S
        | Operator::I32TruncF64U
        | Operator::I32TruncSatF64S
        | Operator::I32TruncSatF64U => Shape::Unary(Guard::Always, Type::F64, Type::I32),
        Operator::I64ExtendI32S
        | Operator::I64ExtendI32U => Shape::Unary(Guard::Always, Type::I32, Type::I64),
        Operator::I64TruncF32S
        | Operator::I64TruncF32U
        | Operator::I64TruncSatF32S
        | Operator::I64TruncSatF32U => Shape::Unary(Guard::Always, Type::F32, Type::I64),
        Operator::I64TruncF64S
        | Operator::I64TruncF64U
        | Operator::I64ReinterpretF64
        | Operator::I64TruncSatF64S
        | Operator::I64TruncSatF64U => Shape::Unary(Guard::Always, Type::F64, Type::I64),
        Operator::F32ConvertI32S
        | Operator::F32ConvertI32U
        | Operator::F32ReinterpretI32 => Shape::Unary(Guard::Float, Type::I32, Type::F32),
        Operator::F32ConvertI64S
        | Operator::F32ConvertI64U => Shape::Unary(Guard::Float, Type::I64, Type::F32),
        Operator::F32DemoteF64 => Shape::Unary(Guard::Float, Type::F64, Type::F32),
        Operator::F64ConvertI32S
        | Operator::F64ConvertI32U => Shape::Unary(Guard::Float, Type::I32, Type::F64),
        Operator::F64ConvertI64S
        | Operator::F64ConvertI64U
        | Operator::F64ReinterpretI64 => Shape::Unary(Guard::Float, Type::I64, Type::F64),
        Operator::F64PromoteF32 => Shape::Unary(Guard::Float, Type::F32, Type::F64),
        Operator::I32AtomicLoad { .. }
        | Operator::I32AtomicLoad16U { .. }
        | Operator::I32AtomicLoad8U { .. } => Shape::AtomicLoad(Type::I32),
        Operator::I64AtomicLoad { .. }
        | Operator::I64AtomicLoad32U { .. }
        | Operator::I64AtomicLoad16U { .. }
        | Operator::I64AtomicLoad8U { .. } => Shape::AtomicLoad(Type::I64),
        Operator::I32AtomicStore { .. }
        | Operator::I32AtomicStore16 { .. }
        | Operator::I32AtomicStore8 { .. } => Shape::AtomicStore(Type::I32),
        Operator::I64AtomicStore { .. }
        | Operator::I64AtomicStore32 { .. }
        | Operator::I64AtomicStore16 { .. }
        | Operator::I64AtomicStore8 { .. } => Shape::AtomicStore(Type::I64),
        Operator::I32AtomicRmwAdd { .. }
        | Operator::I32AtomicRmwSub { .. }
        | Operator::I32AtomicRmwAnd { .. }
        | Operator::I32AtomicRmwOr { .. }
        | Operator::I32AtomicRmwXor { .. }
        | Operator::I32AtomicRmw16AddU { .. }
        | Operator::I32AtomicRmw16SubU { .. }
        | Operator::I32AtomicRmw16AndU { .. }
        | Operator::I32AtomicRmw16OrU { .. }
        | Operator::I32AtomicRmw16XorU { .. }
        | Operator::I32AtomicRmw8AddU { .. }
        | Operator::I32AtomicRmw8SubU { .. }
        | Operator::I32AtomicRmw8AndU { .. }
        | Operator::I32AtomicRmw8OrU { .. }
        | Operator::I32AtomicRmw8XorU { .. }
        | Operator::I32AtomicRmwXchg { .. }
        | Operator::I32AtomicRmw16XchgU { .. }
        | Operator::I32AtomicRmw8XchgU { .. }
        | Operator::MemoryAtomicNotify { .. } => Shape::AtomicExchange(Type::I32),
        Operator::I64AtomicRmwAdd { .. }
        | Operator::I64AtomicRmwSub { .. }
        | Operator::I64AtomicRmwAnd { .. }
        | Operator::I64AtomicRmwOr { .. }
        | Operator::I64AtomicRmwXor { .. }
        | Operator::I64AtomicRmw32AddU { .. }
        | Operator::I64AtomicRmw32SubU { .. }
        | Operator::I64AtomicRmw32AndU { .. }
        | Operator::I64AtomicRmw32OrU { .. }
        | Operator::I64AtomicRmw32XorU { .. }
        | Operator::I64AtomicRmw16AddU { .. }
        | Operator::I64AtomicRmw16SubU { .. }
        | Operator::I64AtomicRmw16AndU { .. }
        | Operator::I64AtomicRmw16OrU { .. }
        | Operator::I64AtomicRmw16XorU { .. }
        | Operator::I64AtomicRmw8AddU { .. }
        | Operator::I64AtomicRmw8SubU { .. }
        | Operator::I64AtomicRmw8AndU { .. }
        | Operator::I64AtomicRmw8OrU { .. }
        | Operator::I64AtomicRmw8XorU { .. }
        | Operator::I64AtomicRmwXchg { .. }
        | Operator::I64AtomicRmw32XchgU { .. }
        | Operator::I64AtomicRmw16XchgU { .. }
        | Operator::I64AtomicRmw8XchgU { .. } => Shape::AtomicExchange(Type::I64),
        Operator::I32AtomicRmwCmpxchg { .. }
        | Operator::I32AtomicRmw16CmpxchgU { .. }
        | Operator::I32AtomicRmw8CmpxchgU { .. } => Shape::AtomicTernary(Type::I32, Type::I32, Type::I32),
        Operator::I64AtomicRmwCmpxchg { .. }
        | Operator::I64AtomicRmw32CmpxchgU { .. }
        | Operator::I64AtomicRmw16CmpxchgU { .. }
        | Operator::I64AtomicRmw8CmpxchgU { .. } => Shape::AtomicTernary(Type::I64, Type::I64, Type::I64),
        Operator::MemoryAtomicWait32 { .. } => Shape::AtomicTernary(Type::I32, Type::I64, Type::I32),
        Operator::MemoryAtomicWait64 { .. } => Shape::AtomicTernary(Type::I64, Type::I64, Type::I32),
        Operator::V128Load { memarg } => Shape::Load(Guard::Vector, *memarg, 4, Type::V128),
        Operator::V128Store { memarg } => Shape::Store(Guard::Vector, *memarg, 4, Type::V128),
        Operator::V128Const { .. } => Shape::Constant(Guard::Vector, Type::V128),
        Operator::I8x16Splat
        | Operator::I16x8Splat
        | Operator::I32x4Splat => Shape::Unary(Guard::Vector, Type::I32, Type::V128),
        Operator::I64x2Splat => Shape::Unary(Guard::Vector, Type::I64, Type::V128),
        Operator::F32x4Splat => Shape::Unary(Guard::FloatVector, Type::F32, Type::V128),
        Operator::F64x2Splat => Shape::Unary(Guard::FloatVector, Type::F64, Type::V128),
        Operator::I8x16ExtractLaneS { lane }
        | Operator::I8x16ExtractLaneU { lane } => Shape::Extract(Guard::Vector, *lane, 16, Type::I32),
        Operator::I16x8ExtractLaneS { lane }
        | Operator::I16x8ExtractLaneU { lane } => Shape::Extract(Guard::Vector, *lane, 8, Type::I32),
        Operator::I32x4ExtractLane { lane } => Shape::Extract(Guard::Vector, *lane, 4, Type::I32),
        Operator::I8x16ReplaceLane { lane } => Shape::Replace(Guard::Vector, *lane, 16, Type::I32),
        Operator::I16x8ReplaceLane { lane } => Shape::Replace(Guard::Vector, *lane, 8, Type::I32),
        Operator::I32x4ReplaceLane { lane } => Shape::Replace(Guard::Vector, *lane, 4, Type::I32),
        Operator::I64x2ExtractLane { lane } => Shape::Extract(Guard::Vector, *lane, 2, Type::I64),
        Operator::I64x2ReplaceLane { lane } => Shape::Replace(Guard::Vector, *lane, 2, Type::I64),
        Operator::F32x4ExtractLane { lane } => Shape::Extract(Guard::FloatVector, *lane, 4, Type::F32),
        Operator::F32x4ReplaceLane { lane } => Shape::Replace(Guard::FloatVector, *lane, 4, Type::F32),
        Operator::F64x2ExtractLane { lane } => Shape::Extract(Guard::FloatVector, *lane, 2, Type::F64),
        Operator::F64x2ReplaceLane { lane } => Shape::Replace(Guard::FloatVector, *lane, 2, Type::F64),
        Operator::F32x4Eq
        | Operator::F32x4Ne
        | Operator::F32x4Lt
        | Operator::F32x4Gt
        | Operator::F32x4Le
        | Operator::F32x4Ge
        | Operator::F64x2Eq
        | Operator::F64x2Ne
        | Operator::F64x2Lt
        | Operator::F64x2Gt
        | Operator::F64x2Le
        | Operator::F64x2Ge
        | Operator::F32x4Add
        | Operator::F32x4Sub
        | Operator::F32x4Mul
        | Operator::F32x4Div
        | Operator::F32x4Min
        | Operator::F32x4Max
        | Operator::F64x2Add
        | Operator::F64x2Sub
        | Operator::F64x2Mul
        | Operator::F64x2Div
        | Operator::F64x2Min
        | Operator::F64x2Max => Shape::Binary(Guard::FloatVector, Type::V128, Type::V128, Type::V128),
        Operator::I8x16Eq
        | Operator::I8x16Ne
        | Operator::I8x16LtS
        | Operator::I8x16LtU
        | Operator::I8x16GtS
        | Operator::I8x16GtU
        | Operator::I8x16LeS
        | Operator::I8x16LeU
        | Operator::I8x16GeS
        | Operator::I8x16GeU
        | Operator::I16x8Eq
        | Operator::I16x8Ne
        | Operator::I16x8LtS
        | Operator::I16x8LtU
        | Operator::I16x8GtS
        | Operator::I16x8GtU
        | Operator::I16x8LeS
        | Operator::I16x8LeU
        | Operator::I16x8GeS
        | Operator::I16x8GeU
        | Operator::I32x4Eq
        | Operator::I32x4Ne
        | Operator::I32x4LtS
        | Operator::I32x4LtU
        | Operator::I32x4GtS
        | Operator::I32x4GtU
        | Operator::I32x4LeS
        | Operator::I32x4LeU
        | Operator::I32x4GeS
        | Operator::I32x4GeU
        | Operator::V128And
        | Operator::V128AndNot
        | Operator::V128Or
        | Operator::V128Xor
        | Operator::I8x16Add
        | Operator::I8x16AddSaturateS
        | Operator::I8x16AddSaturateU
        | Operator::I8x16Sub
        | Operator::I8x16SubSaturateS
        | Operator::I8x16SubSaturateU
        | Operator::I8x16MinS
        | Operator::I8x16MinU
        | Operator::I8x16MaxS
        | Operator::I8x16MaxU
        | Operator::I16x8Add
        | Operator::I16x8AddSaturateS
        | Operator::I16x8AddSaturateU
        | Operator::I16x8Sub
        | Operator::I16x8SubSaturateS
        | Operator::I16x8SubSaturateU
        | Operator::I16x8Mul
        | Operator::I16x8MinS
        | Operator::I16x8MinU
        | Operator::I16x8MaxS
        | Operator::I16x8MaxU
        | Operator::I32x4Add
        | Operator::I32x4Sub
        | Operator::I32x4Mul
        | Operator::I32x4MinS
        | Operator::I32x4MinU
        | Operator::I32x4MaxS
        | Operator::I32x4MaxU
        | Operator::I64x2Add
        | Operator::I64x2Sub
        | Operator::I64x2Mul
        | Operator::I8x16RoundingAverageU
        | Operator::I16x8RoundingAverageU
        | Operator::I8x16NarrowI16x8S
        | Operator::I8x16NarrowI16x8U
        | Operator::I16x8NarrowI32x4S
        | Operator::I16x8NarrowI32x4U
        | Operator::V8x16Swizzle => Shape::Binary(Guard::Vector, Type::V128, Type::V128, Type::V128),
        Operator::F32x4Abs
        | Operator::F32x4Neg
        | Operator::F32x4Sqrt
        | Operator::F64x2Abs
        | Operator::F64x2Neg
        | Operator::F64x2Sqrt
        | Operator::F32x4ConvertI32x4S
        | Operator::F32x4ConvertI32x4U => Shape::Unary(Guard::FloatVector, Type::V128, Type::V128),
        Operator::V128Not
        | Operator::I8x16Abs
        | Operator::I8x16Neg
        | Operator::I16x8Abs
        | Operator::I16x8Neg
        | Operator::I32x4Abs
        | Operator::I32x4Neg
        | Operator::I64x2Neg
        | Operator::I32x4TruncSatF32x4S
        | Operator::I32x4TruncSatF32x4U
        | Operator::I16x8WidenLowI8x16S
        | Operator::I16x8WidenHighI8x16S
        | Operator::I16x8WidenLowI8x16U
        | Operator::I16x8WidenHighI8x16U
        | Operator::I32x4WidenLowI16x8S
        | Operator::I32x4WidenHighI16x8S
        | Operator::I32x4WidenLowI16x8U
        | Operator::I32x4WidenHighI16x8U => Shape::Unary(Guard::Vector, Type::V128, Type::V128),
        Operator::V128Bitselect => Shape::Ternary(Guard::Vector, Type::V128, Type::V128, Type::V128, Type::V128),
        Operator::I8x16AnyTrue
        | Operator::I8x16AllTrue
        | Operator::I8x16Bitmask
        | Operator::I16x8AnyTrue
        | Operator::I16x8AllTrue
        | Operator::I16x8Bitmask
        | Operator::I32x4AnyTrue
        | Operator::I32x4AllTrue
        | Operator::I32x4Bitmask => Shape::Unary(Guard::Vector, Type::V128, Type::I32),
        Operator::I8x16Shl
        | Operator::I8x16ShrS
        | Operator::I8x16ShrU
        | Operator::I16x8Shl
        | Operator::I16x8ShrS
        | Operator::I16x8ShrU
        | Operator::I32x4Shl
        | Operator::I32x4ShrS
        | Operator::I32x4ShrU
        | Operator::I64x2Shl
        | Operator::I64x2ShrS
        | Operator::I64x2ShrU => Shape::Binary(Guard::Vector, Type::V128, Type::I32, Type::V128),
        Operator::V8x16LoadSplat { memarg } => Shape::Load(Guard::Vector, *memarg, 0, Type::V128),
        Operator::V16x8LoadSplat { memarg } => Shape::Load(Guard::Vector, *memarg, 1, Type::V128),
        Operator::V32x4LoadSplat { memarg } => Shape::Load(Guard::Vector, *memarg, 2, Type::V128),
        Operator::V64x2LoadSplat { memarg }
        | Operator::I16x8Load8x8S { memarg }
        | Operator::I16x8Load8x8U { memarg }
        | Operator::I32x4Load16x4S { memarg }
        | Operator::I32x4Load16x4U { memarg }
        | Operator::I64x2Load32x2S { memarg }
        | Operator::I64x2Load32x2U { memarg } => Shape::Load(Guard::Vector, *memarg, 3, Type::V128),
        _ => Shape::Other,
    }
}

} // verus!
