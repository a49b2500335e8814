//! The vocabulary of WebAssembly function bodies: value types, immediates and
//! the operators themselves.

use vstd::prelude::*;

use crate::error::BinaryReaderError;

verus! {

/// A type as it occurs in the binary format.
#[derive(Debug, Copy, Clone, PartialEq, Eq, Structural)]
pub enum Type {
    I32,
    I64,
    F32,
    F64,
    V128,
    FuncRef,
    ExternRef,
    /// The marker of a function type; no value has this type.
    Func,
    /// The type of a block without parameters and results.
    EmptyBlockType,
}

/// The type of a block: a single type, or the index of a function type.
#[derive(Debug, Copy, Clone)]
pub enum TypeOrFuncType {
    Type(Type),
    FuncType(u32),
}

/// What a block was opened with.
#[derive(Debug, Copy, Clone, PartialEq, Eq, Structural)]
pub enum BlockType {
    Block,
    Loop,
    If,
}

/// The immediate of an operator that accesses memory.
#[derive(Debug, Copy, Clone)]
pub struct MemoryImmediate {
    /// The exponent of the alignment.
    pub align: u8,
    /// A fixed offset that is added to the address.
    pub offset: u64,
    /// The index of the memory.
    pub memory: u32,
}

/// The index of a lane of a vector.
pub type SIMDLaneIndex = u8;

/// The bits of a 32-bit float.
#[derive(Debug, Copy, Clone)]
pub struct Ieee32(pub u32);

/// The bits of a 64-bit float.
#[derive(Debug, Copy, Clone)]
pub struct Ieee64(pub u64);

/// The bytes of a 128-bit vector.
#[derive(Debug, Copy, Clone)]
pub struct V128(pub [u8; 16]);

/// The type of a table.
#[derive(Debug, Copy, Clone)]
pub struct TableType {
    pub element_type: Type,
}

/// The type of a linear memory.
#[derive(Debug, Copy, Clone)]
pub enum MemoryType {
    /// A memory with 32-bit addresses.
    M32,
    /// A memory with 64-bit addresses.
    M64,
}

impl MemoryType {
    pub open spec fn spec_index_type(&self) -> Type {
        match self {
            MemoryType::M32 => Type::I32,
            MemoryType::M64 => Type::I64,
        }
    }

    /// The type of an address into the memory.
    #[verifier::when_used_as_spec(spec_index_type)]
    pub fn index_type(&self) -> (ty: Type)
        ensures
            ty == self.index_type(),
            *self is M32 ==> ty == Type::I32,
            *self is M64 ==> ty == Type::I64,
    {
        match self {
            MemoryType::M32 => Type::I32,
            MemoryType::M64 => Type::I64,
        }
    }
}

/// The type of a global.
#[derive(Debug, Copy, Clone)]
pub struct GlobalType {
    pub content_type: Type,
    pub mutable: bool,
}

/// The jump table of a `br_table` operator.
///
/// The entries come in the order in which they are read, the default target
/// last. An entry is a relative depth, with a mark on the default, or the
/// error that reading it ended in.
#[derive(Debug, Clone)]
pub struct BrTable {
    pub entries: Vec<Result<(u32, bool), BinaryReaderError>>,
}

/// An operator of a function body, with its immediates.
#[derive(Debug, Clone)]
#[allow(inconsistent_fields)]
pub enum Operator {
    Unreachable,
    Nop,
    Block { ty: TypeOrFuncType },
    Loop { ty: TypeOrFuncType },
    If { ty: TypeOrFuncType },
    Else,
    End,
    Br { relative_depth: u32 },
    BrIf { relative_depth: u32 },
    BrTable { table: BrTable },
    Return,
    Call { function_index: u32 },
    ReturnCall { function_index: u32 },
    CallIndirect { index: u32, table_index: u32 },
    ReturnCallIndirect { index: u32, table_index: u32 },
    Drop,
    Select,
    TypedSelect { ty: Type },
    LocalGet { local_index: u32 },
    LocalSet { local_index: u32 },
    LocalTee { local_index: u32 },
    GlobalGet { global_index: u32 },
    GlobalSet { global_index: u32 },
    I32Load { memarg: MemoryImmediate },
    I64Load { memarg: MemoryImmediate },
    F32Load { memarg: MemoryImmediate },
    F64Load { memarg: MemoryImmediate },
    I32Load8S { memarg: MemoryImmediate },
    I32Load8U { memarg: MemoryImmediate },
    I32Load16S { memarg: MemoryImmediate },
    I32Load16U { memarg: MemoryImmediate },
    I64Load8S { memarg: MemoryImmediate },
    I64Load8U { memarg: MemoryImmediate },
    I64Load16S { memarg: MemoryImmediate },
    I64Load16U { memarg: MemoryImmediate },
    I64Load32S { memarg: MemoryImmediate },
    I64Load32U { memarg: MemoryImmediate },
    I32Store { memarg: MemoryImmediate },
    I64Store { memarg: MemoryImmediate },
    F32Store { memarg: MemoryImmediate },
    F64Store { memarg: MemoryImmediate },
    I32Store8 { memarg: MemoryImmediate },
    I32Store16 { memarg: MemoryImmediate },
    I64Store8 { memarg: MemoryImmediate },
    I64Store16 { memarg: MemoryImmediate },
    I64Store32 { memarg: MemoryImmediate },
    MemorySize { mem: u32, mem_byte: u8 },
    MemoryGrow { mem: u32, mem_byte: u8 },
    I32Const { value: i32 },
    I64Const { value: i64 },
    F32Const { value: Ieee32 },
    F64Const { value: Ieee64 },
    I32Eqz,
    I32Eq,
    I32Ne,
    I32LtS,
    I32LtU,
    I32GtS,
    I32GtU,
    I32LeS,
    I32LeU,
    I32GeS,
    I32GeU,
    I64Eqz,
    I64Eq,
    I64Ne,
    I64LtS,
    I64LtU,
    I64GtS,
    I64GtU,
    I64LeS,
    I64LeU,
    I64GeS,
    I64GeU,
    F32Eq,
    F32Ne,
    F32Lt,
    F32Gt,
    F32Le,
    F32Ge,
    F64Eq,
    F64Ne,
    F64Lt,
    F64Gt,
    F64Le,
    F64Ge,
    I32Clz,
    I32Ctz,
    I32Popcnt,
    I32Add,
    I32Sub,
    I32Mul,
    I32DivS,
    I32DivU,
    I32RemS,
    I32RemU,
    I32And,
    I32Or,
    I32Xor,
    I32Shl,
    I32ShrS,
    I32ShrU,
    I32Rotl,
    I32Rotr,
    I64Clz,
    I64Ctz,
    I64Popcnt,
    I64Add,
    I64Sub,
    I64Mul,
    I64DivS,
    I64DivU,
    I64RemS,
    I64RemU,
    I64And,
    I64Or,
    I64Xor,
    I64Shl,
    I64ShrS,
    I64ShrU,
    I64Rotl,
    I64Rotr,
    F32Abs,
    F32Neg,
    F32Ceil,
    F32Floor,
    F32Trunc,
    F32Nearest,
    F32Sqrt,
    F32Add,
    F32Sub,
    F32Mul,
    F32Div,
    F32Min,
    F32Max,
    F32Copysign,
    F64Abs,
    F64Neg,
    F64Ceil,
    F64Floor,
    F64Trunc,
    F64Nearest,
    F64Sqrt,
    F64Add,
    F64Sub,
    F64Mul,
    F64Div,
    F64Min,
    F64Max,
    F64Copysign,
    I32WrapI64,
    I32TruncF32S,
    I32TruncF32U,
    I32TruncF64S,
    I32TruncF64U,
    I64ExtendI32S,
    I64ExtendI32U,
    I64TruncF32S,
    I64TruncF32U,
    I64TruncF64S,
    I64TruncF64U,
    F32ConvertI32S,
    F32ConvertI32U,
    F32ConvertI64S,
    F32ConvertI64U,
    F32DemoteF64,
    F64ConvertI32S,
    F64ConvertI32U,
    F64ConvertI64S,
    F64ConvertI64U,
    F64PromoteF32,
    I32ReinterpretF32,
    I64ReinterpretF64,
    F32ReinterpretI32,
    F64ReinterpretI64,
    I32TruncSatF32S,
    I32TruncSatF32U,
    I32TruncSatF64S,
    I32TruncSatF64U,
    I64TruncSatF32S,
    I64TruncSatF32U,
    I64TruncSatF64S,
    I64TruncSatF64U,
    I32Extend16S,
    I32Extend8S,
    I64Extend32S,
    I64Extend16S,
    I64Extend8S,
    I32AtomicLoad { memarg: MemoryImmediate },
    I32AtomicLoad16U { memarg: MemoryImmediate },
    I32AtomicLoad8U { memarg: MemoryImmediate },
    I64AtomicLoad { memarg: MemoryImmediate },
    I64AtomicLoad32U { memarg: MemoryImmediate },
    I64AtomicLoad16U { memarg: MemoryImmediate },
    I64AtomicLoad8U { memarg: MemoryImmediate },
    I32AtomicStore { memarg: MemoryImmediate },
    I32AtomicStore16 { memarg: MemoryImmediate },
    I32AtomicStore8 { memarg: MemoryImmediate },
    I64AtomicStore { memarg: MemoryImmediate },
    I64AtomicStore32 { memarg: MemoryImmediate },
    I64AtomicStore16 { memarg: MemoryImmediate },
    I64AtomicStore8 { memarg: MemoryImmediate },
    I32AtomicRmwAdd { memarg: MemoryImmediate },
    I32AtomicRmwSub { memarg: MemoryImmediate },
    I32AtomicRmwAnd { memarg: MemoryImmediate },
    I32AtomicRmwOr { memarg: MemoryImmediate },
    I32AtomicRmwXor { memarg: MemoryImmediate },
    I32AtomicRmw16AddU { memarg: MemoryImmediate },
    I32AtomicRmw16SubU { memarg: MemoryImmediate },
    I32AtomicRmw16AndU { memarg: MemoryImmediate },
    I32AtomicRmw16OrU { memarg: MemoryImmediate },
    I32AtomicRmw16XorU { memarg: MemoryImmediate },
    I32AtomicRmw8AddU { memarg: MemoryImmediate },
    I32AtomicRmw8SubU { memarg: MemoryImmediate },
    I32AtomicRmw8AndU { memarg: MemoryImmediate },
    I32AtomicRmw8OrU { memarg: MemoryImmediate },
    I32AtomicRmw8XorU { memarg: MemoryImmediate },
    I64AtomicRmwAdd { memarg: MemoryImmediate },
    I64AtomicRmwSub { memarg: MemoryImmediate },
    I64AtomicRmwAnd { memarg: MemoryImmediate },
    I64AtomicRmwOr { memarg: MemoryImmediate },
    I64AtomicRmwXor { memarg: MemoryImmediate },
    I64AtomicRmw32AddU { memarg: MemoryImmediate },
    I64AtomicRmw32SubU { memarg: MemoryImmediate },
    I64AtomicRmw32AndU { memarg: MemoryImmediate },
    I64AtomicRmw32OrU { memarg: MemoryImmediate },
    I64AtomicRmw32XorU { memarg: MemoryImmediate },
    I64AtomicRmw16AddU { memarg: MemoryImmediate },
    I64AtomicRmw16SubU { memarg: MemoryImmediate },
    I64AtomicRmw16AndU { memarg: MemoryImmediate },
    I64AtomicRmw16OrU { memarg: MemoryImmediate },
    I64AtomicRmw16XorU { memarg: MemoryImmediate },
    I64AtomicRmw8AddU { memarg: MemoryImmediate },
    I64AtomicRmw8SubU { memarg: MemoryImmediate },
    I64AtomicRmw8AndU { memarg: MemoryImmediate },
    I64AtomicRmw8OrU { memarg: MemoryImmediate },
    I64AtomicRmw8XorU { memarg: MemoryImmediate },
    I32AtomicRmwXchg { memarg: MemoryImmediate },
    I32AtomicRmw16XchgU { memarg: MemoryImmediate },
    I32AtomicRmw8XchgU { memarg: MemoryImmediate },
    I32AtomicRmwCmpxchg { memarg: MemoryImmediate },
    I32AtomicRmw16CmpxchgU { memarg: MemoryImmediate },
    I32AtomicRmw8CmpxchgU { memarg: MemoryImmediate },
    I64AtomicRmwXchg { memarg: MemoryImmediate },
    I64AtomicRmw32XchgU { memarg: MemoryImmediate },
    I64AtomicRmw16XchgU { memarg: MemoryImmediate },
    I64AtomicRmw8XchgU { memarg: MemoryImmediate },
    I64AtomicRmwCmpxchg { memarg: MemoryImmediate },
    I64AtomicRmw32CmpxchgU { memarg: MemoryImmediate },
    I64AtomicRmw16CmpxchgU { memarg: MemoryImmediate },
    I64AtomicRmw8CmpxchgU { memarg: MemoryImmediate },
    MemoryAtomicNotify { memarg: MemoryImmediate },
    MemoryAtomicWait32 { memarg: MemoryImmediate },
    MemoryAtomicWait64 { memarg: MemoryImmediate },
    AtomicFence { flags: u8 },
    RefNull { ty: Type },
    RefIsNull,
    RefFunc { function_index: u32 },
    V128Load { memarg: MemoryImmediate },
    V128Store { memarg: MemoryImmediate },
    V128Const { value: V128 },
    I8x16Splat,
    I16x8Splat,
    I32x4Splat,
    I64x2Splat,
    F32x4Splat,
    F64x2Splat,
    I8x16ExtractLaneS { lane: SIMDLaneIndex },
    I8x16ExtractLaneU { lane: SIMDLaneIndex },
    I16x8ExtractLaneS { lane: SIMDLaneIndex },
    I16x8ExtractLaneU { lane: SIMDLaneIndex },
    I32x4ExtractLane { lane: SIMDLaneIndex },
    I8x16ReplaceLane { lane: SIMDLaneIndex },
    I16x8ReplaceLane { lane: SIMDLaneIndex },
    I32x4ReplaceLane { lane: SIMDLaneIndex },
    I64x2ExtractLane { lane: SIMDLaneIndex },
    I64x2ReplaceLane { lane: SIMDLaneIndex },
    F32x4ExtractLane { lane: SIMDLaneIndex },
    F32x4ReplaceLane { lane: SIMDLaneIndex },
    F64x2ExtractLane { lane: SIMDLaneIndex },
    F64x2ReplaceLane { lane: SIMDLaneIndex },
    F32x4Eq,
    F32x4Ne,
    F32x4Lt,
    F32x4Gt,
    F32x4Le,
    F32x4Ge,
    F64x2Eq,
    F64x2Ne,
    F64x2Lt,
    F64x2Gt,
    F64x2Le,
    F64x2Ge,
    F32x4Add,
    F32x4Sub,
    F32x4Mul,
    F32x4Div,
    F32x4Min,
    F32x4Max,
    F64x2Add,
    F64x2Sub,
    F64x2Mul,
    F64x2Div,
    F64x2Min,
    F64x2Max,
    I8x16Eq,
    I8x16Ne,
    I8x16LtS,
    I8x16LtU,
    I8x16GtS,
    I8x16GtU,
    I8x16LeS,
    I8x16LeU,
    I8x16GeS,
    I8x16GeU,
    I16x8Eq,
    I16x8Ne,
    I16x8LtS,
    I16x8LtU,
    I16x8GtS,
    I16x8GtU,
    I16x8LeS,
    I16x8LeU,
    I16x8GeS,
    I16x8GeU,
    I32x4Eq,
    I32x4Ne,
    I32x4LtS,
    I32x4LtU,
    I32x4GtS,
    I32x4GtU,
    I32x4LeS,
    I32x4LeU,
    I32x4GeS,
    I32x4GeU,
    V128And,
    V128AndNot,
    V128Or,
    V128Xor,
    I8x16Add,
    I8x16AddSaturateS,
    I8x16AddSaturateU,
    I8x16Sub,
    I8x16SubSaturateS,
    I8x16SubSaturateU,
    I8x16MinS,
    I8x16MinU,
    I8x16MaxS,
    I8x16MaxU,
    I16x8Add,
    I16x8AddSaturateS,
    I16x8AddSaturateU,
    I16x8Sub,
    I16x8SubSaturateS,
    I16x8SubSaturateU,
    I16x8Mul,
    I16x8MinS,
    I16x8MinU,
    I16x8MaxS,
    I16x8MaxU,
    I32x4Add,
    I32x4Sub,
    I32x4Mul,
    I32x4MinS,
    I32x4MinU,
    I32x4MaxS,
    I32x4MaxU,
    I64x2Add,
    I64x2Sub,
    I64x2Mul,
    I8x16RoundingAverageU,
    I16x8RoundingAverageU,
    I8x16NarrowI16x8S,
    I8x16NarrowI16x8U,
    I16x8NarrowI32x4S,
    I16x8NarrowI32x4U,
    F32x4Abs,
    F32x4Neg,
    F32x4Sqrt,
    F64x2Abs,
    F64x2Neg,
    F64x2Sqrt,
    F32x4ConvertI32x4S,
    F32x4ConvertI32x4U,
    V128Not,
    I8x16Abs,
    I8x16Neg,
    I16x8Abs,
    I16x8Neg,
    I32x4Abs,
    I32x4Neg,
    I64x2Neg,
    I32x4TruncSatF32x4S,
    I32x4TruncSatF32x4U,
    I16x8WidenLowI8x16S,
    I16x8WidenHighI8x16S,
    I16x8WidenLowI8x16U,
    I16x8WidenHighI8x16U,
    I32x4WidenLowI16x8S,
    I32x4WidenHighI16x8S,
    I32x4WidenLowI16x8U,
    I32x4WidenHighI16x8U,
    V128Bitselect,
    I8x16AnyTrue,
    I8x16AllTrue,
    I8x16Bitmask,
    I16x8AnyTrue,
    I16x8AllTrue,
    I16x8Bitmask,
    I32x4AnyTrue,
    I32x4AllTrue,
    I32x4Bitmask,
    I8x16Shl,
    I8x16ShrS,
    I8x16ShrU,
    I16x8Shl,
    I16x8ShrS,
    I16x8ShrU,
    I32x4Shl,
    I32x4ShrS,
    I32x4ShrU,
    I64x2Shl,
    I64x2ShrS,
    I64x2ShrU,
    V8x16Swizzle,
    V8x16Shuffle { lanes: [SIMDLaneIndex; 16] },
    V8x16LoadSplat { memarg: MemoryImmediate },
    V16x8LoadSplat { memarg: MemoryImmediate },
    V32x4LoadSplat { memarg: MemoryImmediate },
    V64x2LoadSplat { memarg: MemoryImmediate },
    I16x8Load8x8S { memarg: MemoryImmediate },
    I16x8Load8x8U { memarg: MemoryImmediate },
    I32x4Load16x4S { memarg: MemoryImmediate },
    I32x4Load16x4U { memarg: MemoryImmediate },
    I64x2Load32x2S { memarg: MemoryImmediate },
    I64x2Load32x2U { memarg: MemoryImmediate },
    MemoryInit { mem: u32, segment: u32 },
    DataDrop { segment: u32 },
    MemoryCopy { src: u32, dst: u32 },
    MemoryFill { mem: u32 },
    TableInit { segment: u32, table: u32 },
    ElemDrop { segment: u32 },
    TableCopy { src_table: u32, dst_table: u32 },
    TableGet { table: u32 },
    TableSet { table: u32 },
    TableGrow { table: u32 },
    TableSize { table: u32 },
    TableFill { table: u32 },
}

} // verus!
