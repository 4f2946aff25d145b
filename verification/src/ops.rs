use vstd::prelude::*;

verus! {

/// A WebAssembly value type. Float-typed instruction immediates are kept as
/// raw bit patterns; the pass never computes with float values.
#[derive(Clone, Copy, PartialEq, Eq, Structural, Debug, PartialOrd, Ord)]
pub enum ValType {
    I32,
    I64,
    F32,
    F64,
}

/// A constant operand. `F32` and `F64` carry the bit pattern of the value.
#[derive(Clone, Copy, PartialEq, Eq, Structural, Debug)]
pub enum Val {
    I32(i32),
    I64(i64),
    F32(u32),
    F64(u64),
}

impl Val {
    pub open spec fn spec_ty(self) -> ValType {
        match self {
            Val::I32(_) => ValType::I32,
            Val::I64(_) => ValType::I64,
            Val::F32(_) => ValType::F32,
            Val::F64(_) => ValType::F64,
        }
    }

    pub fn ty(&self) -> (t: ValType)
        ensures
            t == self.spec_ty(),
    {
        match self {
            Val::I32(_) => ValType::I32,
            Val::I64(_) => ValType::I64,
            Val::F32(_) => ValType::F32,
            Val::F64(_) => ValType::F64,
        }
    }
}

/// The static immediate of a memory access: alignment hint and byte offset.
#[derive(Clone, Copy, PartialEq, Eq, Structural, Debug)]
pub struct Memarg {
    pub alignment: u32,
    pub offset: u32,
}

/// Ordered parameter types and ordered result types of a function.
#[derive(Clone, PartialEq, Eq, Debug)]
pub struct FunctionType {
    pub params: Vec<ValType>,
    pub results: Vec<ValType>,
}

impl FunctionType {
    pub fn new(params: Vec<ValType>, results: Vec<ValType>) -> (ft: FunctionType)
        ensures
            ft.params == params,
            ft.results == results,
    {
        FunctionType { params, results }
    }
}

/// A unary numeric opcode: one input, one result.
#[derive(Clone, Copy, PartialEq, Eq, Structural, Debug)]
pub enum UnOp {
    I32Eqz,
    I64Eqz,
    I32Clz,
    I32Ctz,
    I32Popcnt,
    I64Clz,
    I64Ctz,
    I64Popcnt,
    F32Abs,
    F32Neg,
    F32Ceil,
    F32Floor,
    F32Trunc,
    F32Nearest,
    F32Sqrt,
    F64Abs,
    F64Neg,
    F64Ceil,
    F64Floor,
    F64Trunc,
    F64Nearest,
    F64Sqrt,
    I32WrapI64,
    I32TruncSF32,
    I32TruncUF32,
    I32TruncSF64,
    I32TruncUF64,
    I64ExtendSI32,
    I64ExtendUI32,
    I64TruncSF32,
    I64TruncUF32,
    I64TruncSF64,
    I64TruncUF64,
    F32ConvertSI32,
    F32ConvertUI32,
    F32ConvertSI64,
    F32ConvertUI64,
    F32DemoteF64,
    F64ConvertSI32,
    F64ConvertUI32,
    F64ConvertSI64,
    F64ConvertUI64,
    F64PromoteF32,
    I32ReinterpretF32,
    I64ReinterpretF64,
    F32ReinterpretI32,
    F64ReinterpretI64,
}

/// A binary numeric opcode: two inputs, one result.
#[derive(Clone, Copy, PartialEq, Eq, Structural, Debug)]
pub enum BinOp {
    I32Eq,
    I32Ne,
    I32LtS,
    I32LtU,
    I32GtS,
    I32GtU,
    I32LeS,
    I32LeU,
    I32GeS,
    I32GeU,
    I64Eq,
    I64Ne,
    I64LtS,
    I64LtU,
    I64GtS,
    I64GtU,
    I64LeS,
    I64LeU,
    I64GeS,
    I64GeU,
    F32Eq,
    F32Ne,
    F32Lt,
    F32Gt,
    F32Le,
    F32Ge,
    F64Eq,
    F64Ne,
    F64Lt,
    F64Gt,
    F64Le,
    F64Ge,
    I32Add,
    I32Sub,
    I32Mul,
    I32DivS,
    I32DivU,
    I32RemS,
    I32RemU,
    I32And,
    I32Or,
    I32Xor,
    I32Shl,
    I32ShrS,
    I32ShrU,
    I32Rotl,
    I32Rotr,
    I64Add,
    I64Sub,
    I64Mul,
    I64DivS,
    I64DivU,
    I64RemS,
    I64RemU,
    I64And,
    I64Or,
    I64Xor,
    I64Shl,
    I64ShrS,
    I64ShrU,
    I64Rotl,
    I64Rotr,
    F32Add,
    F32Sub,
    F32Mul,
    F32Div,
    F32Min,
    F32Max,
    F32Copysign,
    F64Add,
    F64Sub,
    F64Mul,
    F64Div,
    F64Min,
    F64Max,
    F64Copysign,
}

/// A memory load opcode: pops an `i32` address, pushes the loaded value.
#[derive(Clone, Copy, PartialEq, Eq, Structural, Debug)]
pub enum LoadOp {
    I32Load,
    I32Load8S,
    I32Load8U,
    I32Load16S,
    I32Load16U,
    I64Load,
    I64Load8S,
    I64Load8U,
    I64Load16S,
    I64Load16U,
    I64Load32S,
    I64Load32U,
    F32Load,
    F64Load,
}

/// A memory store opcode: pops an `i32` address and a value.
#[derive(Clone, Copy, PartialEq, Eq, Structural, Debug)]
pub enum StoreOp {
    I32Store,
    I32Store8,
    I32Store16,
    I64Store,
    I64Store8,
    I64Store16,
    I64Store32,
    F32Store,
    F64Store,
}

pub open spec fn spec_unop_tys(op: UnOp) -> (ValType, ValType) {
    match op {
        UnOp::I32Eqz => (ValType::I32, ValType::I32),
        UnOp::I64Eqz => (ValType::I64, ValType::I32),
        UnOp::I32Clz => (ValType::I32, ValType::I32),
        UnOp::I32Ctz => (ValType::I32, ValType::I32),
        UnOp::I32Popcnt => (ValType::I32, ValType::I32),
        UnOp::I64Clz => (ValType::I64, ValType::I64),
        UnOp::I64Ctz => (ValType::I64, ValType::I64),
        UnOp::I64Popcnt => (ValType::I64, ValType::I64),
        UnOp::F32Abs => (ValType::F32, ValType::F32),
        UnOp::F32Neg => (ValType::F32, ValType::F32),
        UnOp::F32Ceil => (ValType::F32, ValType::F32),
        UnOp::F32Floor => (ValType::F32, ValType::F32),
        UnOp::F32Trunc => (ValType::F32, ValType::F32),
        UnOp::F32Nearest => (ValType::F32, ValType::F32),
        UnOp::F32Sqrt => (ValType::F32, ValType::F32),
        UnOp::F64Abs => (ValType::F64, ValType::F64),
        UnOp::F64Neg => (ValType::F64, ValType::F64),
        UnOp::F64Ceil => (ValType::F64, ValType::F64),
        UnOp::F64Floor => (ValType::F64, ValType::F64),
        UnOp::F64Trunc => (ValType::F64, ValType::F64),
        UnOp::F64Nearest => (ValType::F64, ValType::F64),
        UnOp::F64Sqrt => (ValType::F64, ValType::F64),
        UnOp::I32WrapI64 => (ValType::I64, ValType::I32),
        UnOp::I32TruncSF32 => (ValType::F32, ValType::I32),
        UnOp::I32TruncUF32 => (ValType::F32, ValType::I32),
        UnOp::I32TruncSF64 => (ValType::F64, ValType::I32),
        UnOp::I32TruncUF64 => (ValType::F64, ValType::I32),
        UnOp::I64ExtendSI32 => (ValType::I32, ValType::I64),
        UnOp::I64ExtendUI32 => (ValType::I32, ValType::I64),
        UnOp::I64TruncSF32 => (ValType::F32, ValType::I64),
        UnOp::I64TruncUF32 => (ValType::F32, ValType::I64),
        UnOp::I64TruncSF64 => (ValType::F64, ValType::I64),
        UnOp::I64TruncUF64 => (ValType::F64, ValType::I64),
        UnOp::F32ConvertSI32 => (ValType::I32, ValType::F32),
        UnOp::F32ConvertUI32 => (ValType::I32, ValType::F32),
        UnOp::F32ConvertSI64 => (ValType::I64, ValType::F32),
        UnOp::F32ConvertUI64 => (ValType::I64, ValType::F32),
        UnOp::F32DemoteF64 => (ValType::F64, ValType::F32),
        UnOp::F64ConvertSI32 => (ValType::I32, ValType::F64),
        UnOp::F64ConvertUI32 => (ValType::I32, ValType::F64),
        UnOp::F64ConvertSI64 => (ValType::I64, ValType::F64),
        UnOp::F64ConvertUI64 => (ValType::I64, ValType::F64),
        UnOp::F64PromoteF32 => (ValType::F32, ValType::F64),
        UnOp::I32ReinterpretF32 => (ValType::F32, ValType::I32),
        UnOp::I64ReinterpretF64 => (ValType::F64, ValType::I64),
        UnOp::F32ReinterpretI32 => (ValType::I32, ValType::F32),
        UnOp::F64ReinterpretI64 => (ValType::I64, ValType::F64),
    }
}

pub fn unop_tys(op: UnOp) -> (r: (ValType, ValType))
    ensures
        r == spec_unop_tys(op),
{
    match op {
        UnOp::I32Eqz => (ValType::I32, ValType::I32),
        UnOp::I64Eqz => (ValType::I64, ValType::I32),
        UnOp::I32Clz => (ValType::I32, ValType::I32),
        UnOp::I32Ctz => (ValType::I32, ValType::I32),
        UnOp::I32Popcnt => (ValType::I32, ValType::I32),
        UnOp::I64Clz => (ValType::I64, ValType::I64),
        UnOp::I64Ctz => (ValType::I64, ValType::I64),
        UnOp::I64Popcnt => (ValType::I64, ValType::I64),
        UnOp::F32Abs => (ValType::F32, ValType::F32),
        UnOp::F32Neg => (ValType::F32, ValType::F32),
        UnOp::F32Ceil => (ValType::F32, ValType::F32),
        UnOp::F32Floor => (ValType::F32, ValType::F32),
        UnOp::F32Trunc => (ValType::F32, ValType::F32),
        UnOp::F32Nearest => (ValType::F32, ValType::F32),
        UnOp::F32Sqrt => (ValType::F32, ValType::F32),
        UnOp::F64Abs => (ValType::F64, ValType::F64),
        UnOp::F64Neg => (ValType::F64, ValType::F64),
        UnOp::F64Ceil => (ValType::F64, ValType::F64),
        UnOp::F64Floor => (ValType::F64, ValType::F64),
        UnOp::F64Trunc => (ValType::F64, ValType::F64),
        UnOp::F64Nearest => (ValType::F64, ValType::F64),
        UnOp::F64Sqrt => (ValType::F64, ValType::F64),
        UnOp::I32WrapI64 => (ValType::I64, ValType::I32),
        UnOp::I32TruncSF32 => (ValType::F32, ValType::I32),
        UnOp::I32TruncUF32 => (ValType::F32, ValType::I32),
        UnOp::I32TruncSF64 => (ValType::F64, ValType::I32),
        UnOp::I32TruncUF64 => (ValType::F64, ValType::I32),
        UnOp::I64ExtendSI32 => (ValType::I32, ValType::I64),
        UnOp::I64ExtendUI32 => (ValType::I32, ValType::I64),
        UnOp::I64TruncSF32 => (ValType::F32, ValType::I64),
        UnOp::I64TruncUF32 => (ValType::F32, ValType::I64),
        UnOp::I64TruncSF64 => (ValType::F64, ValType::I64),
        UnOp::I64TruncUF64 => (ValType::F64, ValType::I64),
        UnOp::F32ConvertSI32 => (ValType::I32, ValType::F32),
        UnOp::F32ConvertUI32 => (ValType::I32, ValType::F32),
        UnOp::F32ConvertSI64 => (ValType::I64, ValType::F32),
        UnOp::F32ConvertUI64 => (ValType::I64, ValType::F32),
        UnOp::F32DemoteF64 => (ValType::F64, ValType::F32),
        UnOp::F64ConvertSI32 => (ValType::I32, ValType::F64),
        UnOp::F64ConvertUI32 => (ValType::I32, ValType::F64),
        UnOp::F64ConvertSI64 => (ValType::I64, ValType::F64),
        UnOp::F64ConvertUI64 => (ValType::I64, ValType::F64),
        UnOp::F64PromoteF32 => (ValType::F32, ValType::F64),
        UnOp::I32ReinterpretF32 => (ValType::F32, ValType::I32),
        UnOp::I64ReinterpretF64 => (ValType::F64, ValType::I64),
        UnOp::F32ReinterpretI32 => (ValType::I32, ValType::F32),
        UnOp::F64ReinterpretI64 => (ValType::I64, ValType::F64),
    }
}

pub open spec fn spec_binop_tys(op: BinOp) -> (ValType, ValType, ValType) {
    match op {
        BinOp::I32Eq => (ValType::I32, ValType::I32, ValType::I32),
        BinOp::I32Ne => (ValType::I32, ValType::I32, ValType::I32),
        BinOp::I32LtS => (ValType::I32, ValType::I32, ValType::I32),
        BinOp::I32LtU => (ValType::I32, ValType::I32, ValType::I32),
        BinOp::I32GtS => (ValType::I32, ValType::I32, ValType::I32),
        BinOp::I32GtU => (ValType::I32, ValType::I32, ValType::I32),
        BinOp::I32LeS => (ValType::I32, ValType::I32, ValType::I32),
        BinOp::I32LeU => (ValType::I32, ValType::I32, ValType::I32),
        BinOp::I32GeS => (ValType::I32, ValType::I32, ValType::I32),
        BinOp::I32GeU => (ValType::I32, ValType::I32, ValType::I32),
        BinOp::I64Eq => (ValType::I64, ValType::I64, ValType::I32),
        BinOp::I64Ne => (ValType::I64, ValType::I64, ValType::I32),
        BinOp::I64LtS => (ValType::I64, ValType::I64, ValType::I32),
        BinOp::I64LtU => (ValType::I64, ValType::I64, ValType::I32),
        BinOp::I64GtS => (ValType::I64, ValType::I64, ValType::I32),
        BinOp::I64GtU => (ValType::I64, ValType::I64, ValType::I32),
        BinOp::I64LeS => (ValType::I64, ValType::I64, ValType::I32),
        BinOp::I64LeU => (ValType::I64, ValType::I64, ValType::I32),
        BinOp::I64GeS => (ValType::I64, ValType::I64, ValType::I32),
        BinOp::I64GeU => (ValType::I64, ValType::I64, ValType::I32),
        BinOp::F32Eq => (ValType::F32, ValType::F32, ValType::I32),
        BinOp::F32Ne => (ValType::F32, ValType::F32, ValType::I32),
        BinOp::F32Lt => (ValType::F32, ValType::F32, ValType::I32),
        BinOp::F32Gt => (ValType::F32, ValType::F32, ValType::I32),
        BinOp::F32Le => (ValType::F32, ValType::F32, ValType::I32),
        BinOp::F32Ge => (ValType::F32, ValType::F32, ValType::I32),
        BinOp::F64Eq => (ValType::F64, ValType::F64, ValType::I32),
        BinOp::F64Ne => (ValType::F64, ValType::F64, ValType::I32),
        BinOp::F64Lt => (ValType::F64, ValType::F64, ValType::I32),
        BinOp::F64Gt => (ValType::F64, ValType::F64, ValType::I32),
        BinOp::F64Le => (ValType::F64, ValType::F64, ValType::I32),
        BinOp::F64Ge => (ValType::F64, ValType::F64, ValType::I32),
        BinOp::I32Add => (ValType::I32, ValType::I32, ValType::I32),
        BinOp::I32Sub => (ValType::I32, ValType::I32, ValType::I32),
        BinOp::I32Mul => (ValType::I32, ValType::I32, ValType::I32),
        BinOp::I32DivS => (ValType::I32, ValType::I32, ValType::I32),
        BinOp::I32DivU => (ValType::I32, ValType::I32, ValType::I32),
        BinOp::I32RemS => (ValType::I32, ValType::I32, ValType::I32),
        BinOp::I32RemU => (ValType::I32, ValType::I32, ValType::I32),
        BinOp::I32And => (ValType::I32, ValType::I32, ValType::I32),
        BinOp::I32Or => (ValType::I32, ValType::I32, ValType::I32),
        BinOp::I32Xor => (ValType::I32, ValType::I32, ValType::I32),
        BinOp::I32Shl => (ValType::I32, ValType::I32, ValType::I32),
        BinOp::I32ShrS => (ValType::I32, ValType::I32, ValType::I32),
        BinOp::I32ShrU => (ValType::I32, ValType::I32, ValType::I32),
        BinOp::I32Rotl => (ValType::I32, ValType::I32, ValType::I32),
        BinOp::I32Rotr => (ValType::I32, ValType::I32, ValType::I32),
        BinOp::I64Add => (ValType::I64, ValType::I64, ValType::I64),
        BinOp::I64Sub => (ValType::I64, ValType::I64, ValType::I64),
        BinOp::I64Mul => (ValType::I64, ValType::I64, ValType::I64),
        BinOp::I64DivS => (ValType::I64, ValType::I64, ValType::I64),
        BinOp::I64DivU => (ValType::I64, ValType::I64, ValType::I64),
        BinOp::I64RemS => (ValType::I64, ValType::I64, ValType::I64),
        BinOp::I64RemU => (ValType::I64, ValType::I64, ValType::I64),
        BinOp::I64And => (ValType::I64, ValType::I64, ValType::I64),
        BinOp::I64Or => (ValType::I64, ValType::I64, ValType::I64),
        BinOp::I64Xor => (ValType::I64, ValType::I64, ValType::I64),
        BinOp::I64Shl => (ValType::I64, ValType::I64, ValType::I64),
        BinOp::I64ShrS => (ValType::I64, ValType::I64, ValType::I64),
        BinOp::I64ShrU => (ValType::I64, ValType::I64, ValType::I64),
        BinOp::I64Rotl => (ValType::I64, ValType::I64, ValType::I64),
        BinOp::I64Rotr => (ValType::I64, ValType::I64, ValType::I64),
        BinOp::F32Add => (ValType::F32, ValType::F32, ValType::F32),
        BinOp::F32Sub => (ValType::F32, ValType::F32, ValType::F32),
        BinOp::F32Mul => (ValType::F32, ValType::F32, ValType::F32),
        BinOp::F32Div => (ValType::F32, ValType::F32, ValType::F32),
        BinOp::F32Min => (ValType::F32, ValType::F32, ValType::F32),
        BinOp::F32Max => (ValType::F32, ValType::F32, ValType::F32),
        BinOp::F32Copysign => (ValType::F32, ValType::F32, ValType::F32),
        BinOp::F64Add => (ValType::F64, ValType::F64, ValType::F64),
        BinOp::F64Sub => (ValType::F64, ValType::F64, ValType::F64),
        BinOp::F64Mul => (ValType::F64, ValType::F64, ValType::F64),
        BinOp::F64Div => (ValType::F64, ValType::F64, ValType::F64),
        BinOp::F64Min => (ValType::F64, ValType::F64, ValType::F64),
        BinOp::F64Max => (ValType::F64, ValType::F64, ValType::F64),
        BinOp::F64Copysign => (ValType::F64, ValType::F64, ValType::F64),
    }
}

pub fn binop_tys(op: BinOp) -> (r: (ValType, ValType, ValType))
    ensures
        r == spec_binop_tys(op),
{
    match op {
        BinOp::I32Eq => (ValType::I32, ValType::I32, ValType::I32),
        BinOp::I32Ne => (ValType::I32, ValType::I32, ValType::I32),
        BinOp::I32LtS => (ValType::I32, ValType::I32, ValType::I32),
        BinOp::I32LtU => (ValType::I32, ValType::I32, ValType::I32),
        BinOp::I32GtS => (ValType::I32, ValType::I32, ValType::I32),
        BinOp::I32GtU => (ValType::I32, ValType::I32, ValType::I32),
        BinOp::I32LeS => (ValType::I32, ValType::I32, ValType::I32),
        BinOp::I32LeU => (ValType::I32, ValType::I32, ValType::I32),
        BinOp::I32GeS => (ValType::I32, ValType::I32, ValType::I32),
        BinOp::I32GeU => (ValType::I32, ValType::I32, ValType::I32),
        BinOp::I64Eq => (ValType::I64, ValType::I64, ValType::I32),
        BinOp::I64Ne => (ValType::I64, ValType::I64, ValType::I32),
        BinOp::I64LtS => (ValType::I64, ValType::I64, ValType::I32),
        BinOp::I64LtU => (ValType::I64, ValType::I64, ValType::I32),
        BinOp::I64GtS => (ValType::I64, ValType::I64, ValType::I32),
        BinOp::I64GtU => (ValType::I64, ValType::I64, ValType::I32),
        BinOp::I64LeS => (ValType::I64, ValType::I64, ValType::I32),
        BinOp::I64LeU => (ValType::I64, ValType::I64, ValType::I32),
        BinOp::I64GeS => (ValType::I64, ValType::I64, ValType::I32),
        BinOp::I64GeU => (ValType::I64, ValType::I64, ValType::I32),
        BinOp::F32Eq => (ValType::F32, ValType::F32, ValType::I32),
        BinOp::F32Ne => (ValType::F32, ValType::F32, ValType::I32),
        BinOp::F32Lt => (ValType::F32, ValType::F32, ValType::I32),
        BinOp::F32Gt => (ValType::F32, ValType::F32, ValType::I32),
        BinOp::F32Le => (ValType::F32, ValType::F32, ValType::I32),
        BinOp::F32Ge => (ValType::F32, ValType::F32, ValType::I32),
        BinOp::F64Eq => (ValType::F64, ValType::F64, ValType::I32),
        BinOp::F64Ne => (ValType::F64, ValType::F64, ValType::I32),
        BinOp::F64Lt => (ValType::F64, ValType::F64, ValType::I32),
        BinOp::F64Gt => (ValType::F64, ValType::F64, ValType::I32),
        BinOp::F64Le => (ValType::F64, ValType::F64, ValType::I32),
        BinOp::F64Ge => (ValType::F64, ValType::F64, ValType::I32),
        BinOp::I32Add => (ValType::I32, ValType::I32, ValType::I32),
        BinOp::I32Sub => (ValType::I32, ValType::I32, ValType::I32),
        BinOp::I32Mul => (ValType::I32, ValType::I32, ValType::I32),
        BinOp::I32DivS => (ValType::I32, ValType::I32, ValType::I32),
        BinOp::I32DivU => (ValType::I32, ValType::I32, ValType::I32),
        BinOp::I32RemS => (ValType::I32, ValType::I32, ValType::I32),
        BinOp::I32RemU => (ValType::I32, ValType::I32, ValType::I32),
        BinOp::I32And => (ValType::I32, ValType::I32, ValType::I32),
        BinOp::I32Or => (ValType::I32, ValType::I32, ValType::I32),
        BinOp::I32Xor => (ValType::I32, ValType::I32, ValType::I32),
        BinOp::I32Shl => (ValType::I32, ValType::I32, ValType::I32),
        BinOp::I32ShrS => (ValType::I32, ValType::I32, ValType::I32),
        BinOp::I32ShrU => (ValType::I32, ValType::I32, ValType::I32),
        BinOp::I32Rotl => (ValType::I32, ValType::I32, ValType::I32),
        BinOp::I32Rotr => (ValType::I32, ValType::I32, ValType::I32),
        BinOp::I64Add => (ValType::I64, ValType::I64, ValType::I64),
        BinOp::I64Sub => (ValType::I64, ValType::I64, ValType::I64),
        BinOp::I64Mul => (ValType::I64, ValType::I64, ValType::I64),
        BinOp::I64DivS => (ValType::I64, ValType::I64, ValType::I64),
        BinOp::I64DivU => (ValType::I64, ValType::I64, ValType::I64),
        BinOp::I64RemS => (ValType::I64, ValType::I64, ValType::I64),
        BinOp::I64RemU => (ValType::I64, ValType::I64, ValType::I64),
        BinOp::I64And => (ValType::I64, ValType::I64, ValType::I64),
        BinOp::I64Or => (ValType::I64, ValType::I64, ValType::I64),
        BinOp::I64Xor => (ValType::I64, ValType::I64, ValType::I64),
        BinOp::I64Shl => (ValType::I64, ValType::I64, ValType::I64),
        BinOp::I64ShrS => (ValType::I64, ValType::I64, ValType::I64),
        BinOp::I64ShrU => (ValType::I64, ValType::I64, ValType::I64),
        BinOp::I64Rotl => (ValType::I64, ValType::I64, ValType::I64),
        BinOp::I64Rotr => (ValType::I64, ValType::I64, ValType::I64),
        BinOp::F32Add => (ValType::F32, ValType::F32, ValType::F32),
        BinOp::F32Sub => (ValType::F32, ValType::F32, ValType::F32),
        BinOp::F32Mul => (ValType::F32, ValType::F32, ValType::F32),
        BinOp::F32Div => (ValType::F32, ValType::F32, ValType::F32),
        BinOp::F32Min => (ValType::F32, ValType::F32, ValType::F32),
        BinOp::F32Max => (ValType::F32, ValType::F32, ValType::F32),
        BinOp::F32Copysign => (ValType::F32, ValType::F32, ValType::F32),
        BinOp::F64Add => (ValType::F64, ValType::F64, ValType::F64),
        BinOp::F64Sub => (ValType::F64, ValType::F64, ValType::F64),
        BinOp::F64Mul => (ValType::F64, ValType::F64, ValType::F64),
        BinOp::F64Div => (ValType::F64, ValType::F64, ValType::F64),
        BinOp::F64Min => (ValType::F64, ValType::F64, ValType::F64),
        BinOp::F64Max => (ValType::F64, ValType::F64, ValType::F64),
        BinOp::F64Copysign => (ValType::F64, ValType::F64, ValType::F64),
    }
}

pub open spec fn spec_load_ty(op: LoadOp) -> ValType {
    match op {
        LoadOp::I32Load => ValType::I32,
        LoadOp::I32Load8S => ValType::I32,
        LoadOp::I32Load8U => ValType::I32,
        LoadOp::I32Load16S => ValType::I32,
        LoadOp::I32Load16U => ValType::I32,
        LoadOp::I64Load => ValType::I64,
        LoadOp::I64Load8S => ValType::I64,
        LoadOp::I64Load8U => ValType::I64,
        LoadOp::I64Load16S => ValType::I64,
        LoadOp::I64Load16U => ValType::I64,
        LoadOp::I64Load32S => ValType::I64,
        LoadOp::I64Load32U => ValType::I64,
        LoadOp::F32Load => ValType::F32,
        LoadOp::F64Load => ValType::F64,
    }
}

pub fn load_ty(op: LoadOp) -> (r: ValType)
    ensures
        r == spec_load_ty(op),
{
    match op {
        LoadOp::I32Load => ValType::I32,
        LoadOp::I32Load8S => ValType::I32,
        LoadOp::I32Load8U => ValType::I32,
        LoadOp::I32Load16S => ValType::I32,
        LoadOp::I32Load16U => ValType::I32,
        LoadOp::I64Load => ValType::I64,
        LoadOp::I64Load8S => ValType::I64,
        LoadOp::I64Load8U => ValType::I64,
        LoadOp::I64Load16S => ValType::I64,
        LoadOp::I64Load16U => ValType::I64,
        LoadOp::I64Load32S => ValType::I64,
        LoadOp::I64Load32U => ValType::I64,
        LoadOp::F32Load => ValType::F32,
        LoadOp::F64Load => ValType::F64,
    }
}

pub open spec fn spec_store_ty(op: StoreOp) -> ValType {
    match op {
        StoreOp::I32Store => ValType::I32,
        StoreOp::I32Store8 => ValType::I32,
        StoreOp::I32Store16 => ValType::I32,
        StoreOp::I64Store => ValType::I64,
        StoreOp::I64Store8 => ValType::I64,
        StoreOp::I64Store16 => ValType::I64,
        StoreOp::I64Store32 => ValType::I64,
        StoreOp::F32Store => ValType::F32,
        StoreOp::F64Store => ValType::F64,
    }
}

pub fn store_ty(op: StoreOp) -> (r: ValType)
    ensures
        r == spec_store_ty(op),
{
    match op {
        StoreOp::I32Store => ValType::I32,
        StoreOp::I32Store8 => ValType::I32,
        StoreOp::I32Store16 => ValType::I32,
        StoreOp::I64Store => ValType::I64,
        StoreOp::I64Store8 => ValType::I64,
        StoreOp::I64Store16 => ValType::I64,
        StoreOp::I64Store32 => ValType::I64,
        StoreOp::F32Store => ValType::F32,
        StoreOp::F64Store => ValType::F64,
    }
}

/// A WebAssembly instruction, grouped as the pass reads it: the numeric
/// opcodes carry their group (const, unary, binary, load, store) directly.
#[derive(Clone, PartialEq, Debug)]
pub enum Instr {
    Unreachable,
    Nop,
    Block(Option<ValType>),
    Loop(Option<ValType>),
    If(Option<ValType>),
    Else,
    End,
    Br(u32),
    BrIf(u32),
    BrTable(Vec<u32>, u32),
    Return,
    Call(u32),
    CallIndirect(FunctionType, u32),
    Drop,
    Select,
    GetLocal(u32),
    SetLocal(u32),
    TeeLocal(u32),
    GetGlobal(u32),
    SetGlobal(u32),
    CurrentMemory(u32),
    GrowMemory(u32),
    Const(Val),
    Unary(UnOp),
    Binary(BinOp),
    Load(LoadOp, Memarg),
    Store(StoreOp, Memarg),
}

/// The discriminant of an instruction: the variant plus, for the numeric
/// groups, the concrete opcode and for constants the operand type, with all
/// other immediates erased. Hooks are keyed by this value.
#[derive(Clone, Copy, PartialEq, Eq, Structural, Debug)]
pub enum InstrKind {
    Unreachable,
    Nop,
    Block,
    Loop,
    If,
    Else,
    End,
    Br,
    BrIf,
    BrTable,
    Return,
    Call,
    CallIndirect,
    Drop,
    Select,
    GetLocal,
    SetLocal,
    TeeLocal,
    GetGlobal,
    SetGlobal,
    CurrentMemory,
    GrowMemory,
    Const(ValType),
    Unary(UnOp),
    Binary(BinOp),
    Load(LoadOp),
    Store(StoreOp),
}

pub open spec fn spec_kind_of(i: Instr) -> InstrKind {
    match i {
        Instr::Unreachable => InstrKind::Unreachable,
        Instr::Nop => InstrKind::Nop,
        Instr::Block(_) => InstrKind::Block,
        Instr::Loop(_) => InstrKind::Loop,
        Instr::If(_) => InstrKind::If,
        Instr::Else => InstrKind::Else,
        Instr::End => InstrKind::End,
        Instr::Br(_) => InstrKind::Br,
        Instr::BrIf(_) => InstrKind::BrIf,
        Instr::BrTable(_, _) => InstrKind::BrTable,
        Instr::Return => InstrKind::Return,
        Instr::Call(_) => InstrKind::Call,
        Instr::CallIndirect(_, _) => InstrKind::CallIndirect,
        Instr::Drop => InstrKind::Drop,
        Instr::Select => InstrKind::Select,
        Instr::GetLocal(_) => InstrKind::GetLocal,
        Instr::SetLocal(_) => InstrKind::SetLocal,
        Instr::TeeLocal(_) => InstrKind::TeeLocal,
        Instr::GetGlobal(_) => InstrKind::GetGlobal,
        Instr::SetGlobal(_) => InstrKind::SetGlobal,
        Instr::CurrentMemory(_) => InstrKind::CurrentMemory,
        Instr::GrowMemory(_) => InstrKind::GrowMemory,
        Instr::Const(v) => InstrKind::Const(v.spec_ty()),
        Instr::Unary(op) => InstrKind::Unary(op),
        Instr::Binary(op) => InstrKind::Binary(op),
        Instr::Load(op, _) => InstrKind::Load(op),
        Instr::Store(op, _) => InstrKind::Store(op),
    }
}

pub fn kind_of(i: &Instr) -> (k: InstrKind)
    ensures
        k == spec_kind_of(*i),
{
    match i {
        Instr::Unreachable => InstrKind::Unreachable,
        Instr::Nop => InstrKind::Nop,
        Instr::Block(_) => InstrKind::Block,
        Instr::Loop(_) => InstrKind::Loop,
        Instr::If(_) => InstrKind::If,
        Instr::Else => InstrKind::Else,
        Instr::End => InstrKind::End,
        Instr::Br(_) => InstrKind::Br,
        Instr::BrIf(_) => InstrKind::BrIf,
        Instr::BrTable(_, _) => InstrKind::BrTable,
        Instr::Return => InstrKind::Return,
        Instr::Call(_) => InstrKind::Call,
        Instr::CallIndirect(_, _) => InstrKind::CallIndirect,
        Instr::Drop => InstrKind::Drop,
        Instr::Select => InstrKind::Select,
        Instr::GetLocal(_) => InstrKind::GetLocal,
        Instr::SetLocal(_) => InstrKind::SetLocal,
        Instr::TeeLocal(_) => InstrKind::TeeLocal,
        Instr::GetGlobal(_) => InstrKind::GetGlobal,
        Instr::SetGlobal(_) => InstrKind::SetGlobal,
        Instr::CurrentMemory(_) => InstrKind::CurrentMemory,
        Instr::GrowMemory(_) => InstrKind::GrowMemory,
        Instr::Const(v) => InstrKind::Const(v.ty()),
        Instr::Unary(op) => InstrKind::Unary(*op),
        Instr::Binary(op) => InstrKind::Binary(*op),
        Instr::Load(op, _) => InstrKind::Load(*op),
        Instr::Store(op, _) => InstrKind::Store(*op),
    }
}

/// The mnemonic of an instruction kind, as text: the name every hook of
/// this kind is imported under, before any type-suffix mangling.
pub open spec fn spec_kind_name(k: InstrKind) -> Seq<char> {
    match k {
        InstrKind::Unreachable => "unreachable"@,
        InstrKind::Nop => "nop"@,
        InstrKind::Block => "begin_block"@,
        InstrKind::Loop => "begin_loop"@,
        InstrKind::If => "if_"@,
        InstrKind::Else => "begin_else"@,
        InstrKind::End => "end"@,
        InstrKind::Br => "br"@,
        InstrKind::BrIf => "br_if"@,
        InstrKind::BrTable => "br_table"@,
        InstrKind::Return => "return"@,
        InstrKind::Call => "call"@,
        InstrKind::CallIndirect => "call_indirect"@,
        InstrKind::Drop => "drop"@,
        InstrKind::Select => "select"@,
        InstrKind::GetLocal => "get_local"@,
        InstrKind::SetLocal => "set_local"@,
        InstrKind::TeeLocal => "tee_local"@,
        InstrKind::GetGlobal => "get_global"@,
        InstrKind::SetGlobal => "set_global"@,
        InstrKind::CurrentMemory => "current_memory"@,
        InstrKind::GrowMemory => "grow_memory"@,
        InstrKind::Const(ValType::I32) => "i32.const"@,
        InstrKind::Const(ValType::I64) => "i64.const"@,
        InstrKind::Const(ValType::F32) => "f32.const"@,
        InstrKind::Const(ValType::F64) => "f64.const"@,
        InstrKind::Unary(UnOp::I32Eqz) => "i32.eqz"@,
        InstrKind::Unary(UnOp::I64Eqz) => "i64.eqz"@,
        InstrKind::Unary(UnOp::I32Clz) => "i32.clz"@,
        InstrKind::Unary(UnOp::I32Ctz) => "i32.ctz"@,
        InstrKind::Unary(UnOp::I32Popcnt) => "i32.popcnt"@,
        InstrKind::Unary(UnOp::I64Clz) => "i64.clz"@,
        InstrKind::Unary(UnOp::I64Ctz) => "i64.ctz"@,
        InstrKind::Unary(UnOp::I64Popcnt) => "i64.popcnt"@,
        InstrKind::Unary(UnOp::F32Abs) => "f32.abs"@,
        InstrKind::Unary(UnOp::F32Neg) => "f32.neg"@,
        InstrKind::Unary(UnOp::F32Ceil) => "f32.ceil"@,
        InstrKind::Unary(UnOp::F32Floor) => "f32.floor"@,
        InstrKind::Unary(UnOp::F32Trunc) => "f32.trunc"@,
        InstrKind::Unary(UnOp::F32Nearest) => "f32.nearest"@,
        InstrKind::Unary(UnOp::F32Sqrt) => "f32.sqrt"@,
        InstrKind::Unary(UnOp::F64Abs) => "f64.abs"@,
        InstrKind::Unary(UnOp::F64Neg) => "f64.neg"@,
        InstrKind::Unary(UnOp::F64Ceil) => "f64.ceil"@,
        InstrKind::Unary(UnOp::F64Floor) => "f64.floor"@,
        InstrKind::Unary(UnOp::F64Trunc) => "f64.trunc"@,
        InstrKind::Unary(UnOp::F64Nearest) => "f64.nearest"@,
        InstrKind::Unary(UnOp::F64Sqrt) => "f64.sqrt"@,
        InstrKind::Unary(UnOp::I32WrapI64) => "i32.wrap/i64"@,
        InstrKind::Unary(UnOp::I32TruncSF32) => "i32.trunc_s/f32"@,
        InstrKind::Unary(UnOp::I32TruncUF32) => "i32.trunc_u/f32"@,
        InstrKind::Unary(UnOp::I32TruncSF64) => "i32.trunc_s/f64"@,
        InstrKind::Unary(UnOp::I32TruncUF64) => "i32.trunc_u/f64"@,
        InstrKind::Unary(UnOp::I64ExtendSI32) => "i64.extend_s/i32"@,
        InstrKind::Unary(UnOp::I64ExtendUI32) => "i64.extend_u/i32"@,
        InstrKind::Unary(UnOp::I64TruncSF32) => "i64.trunc_s/f32"@,
        InstrKind::Unary(UnOp::I64TruncUF32) => "i64.trunc_u/f32"@,
        InstrKind::Unary(UnOp::I64TruncSF64) => "i64.trunc_s/f64"@,
        InstrKind::Unary(UnOp::I64TruncUF64) => "i64.trunc_u/f64"@,
        InstrKind::Unary(UnOp::F32ConvertSI32) => "f32.convert_s/i32"@,
        InstrKind::Unary(UnOp::F32ConvertUI32) => "f32.convert_u/i32"@,
        InstrKind::Unary(UnOp::F32ConvertSI64) => "f32.convert_s/i64"@,
        InstrKind::Unary(UnOp::F32ConvertUI64) => "f32.convert_u/i64"@,
        InstrKind::Unary(UnOp::F32DemoteF64) => "f32.demote/f64"@,
        InstrKind::Unary(UnOp::F64ConvertSI32) => "f64.convert_s/i32"@,
        InstrKind::Unary(UnOp::F64ConvertUI32) => "f64.convert_u/i32"@,
        InstrKind::Unary(UnOp::F64ConvertSI64) => "f64.convert_s/i64"@,
        InstrKind::Unary(UnOp::F64ConvertUI64) => "f64.convert_u/i64"@,
        InstrKind::Unary(UnOp::F64PromoteF32) => "f64.promote/f32"@,
        InstrKind::Unary(UnOp::I32ReinterpretF32) => "i32.reinterpret/f32"@,
        InstrKind::Unary(UnOp::I64ReinterpretF64) => "i64.reinterpret/f64"@,
        InstrKind::Unary(UnOp::F32ReinterpretI32) => "f32.reinterpret/i32"@,
        InstrKind::Unary(UnOp::F64ReinterpretI64) => "f64.reinterpret/i64"@,
        InstrKind::Binary(BinOp::I32Eq) => "i32.eq"@,
        InstrKind::Binary(BinOp::I32Ne) => "i32.ne"@,
        InstrKind::Binary(BinOp::I32LtS) => "i32.lt_s"@,
        InstrKind::Binary(BinOp::I32LtU) => "i32.lt_u"@,
        InstrKind::Binary(BinOp::I32GtS) => "i32.gt_s"@,
        InstrKind::Binary(BinOp::I32GtU) => "i32.gt_u"@,
        InstrKind::Binary(BinOp::I32LeS) => "i32.le_s"@,
        InstrKind::Binary(BinOp::I32LeU) => "i32.le_u"@,
        InstrKind::Binary(BinOp::I32GeS) => "i32.ge_s"@,
        InstrKind::Binary(BinOp::I32GeU) => "i32.ge_u"@,
        InstrKind::Binary(BinOp::I64Eq) => "i64.eq"@,
        InstrKind::Binary(BinOp::I64Ne) => "i64.ne"@,
        InstrKind::Binary(BinOp::I64LtS) => "i64.lt_s"@,
        InstrKind::Binary(BinOp::I64LtU) => "i64.lt_u"@,
        InstrKind::Binary(BinOp::I64GtS) => "i64.gt_s"@,
        InstrKind::Binary(BinOp::I64GtU) => "i64.gt_u"@,
        InstrKind::Binary(BinOp::I64LeS) => "i64.le_s"@,
        InstrKind::Binary(BinOp::I64LeU) => "i64.le_u"@,
        InstrKind::Binary(BinOp::I64GeS) => "i64.ge_s"@,
        InstrKind::Binary(BinOp::I64GeU) => "i64.ge_u"@,
        InstrKind::Binary(BinOp::F32Eq) => "f32.eq"@,
        InstrKind::Binary(BinOp::F32Ne) => "f32.ne"@,
        InstrKind::Binary(BinOp::F32Lt) => "f32.lt"@,
        InstrKind::Binary(BinOp::F32Gt) => "f32.gt"@,
        InstrKind::Binary(BinOp::F32Le) => "f32.le"@,
        InstrKind::Binary(BinOp::F32Ge) => "f32.ge"@,
        InstrKind::Binary(BinOp::F64Eq) => "f64.eq"@,
        InstrKind::Binary(BinOp::F64Ne) => "f64.ne"@,
        InstrKind::Binary(BinOp::F64Lt) => "f64.lt"@,
        InstrKind::Binary(BinOp::F64Gt) => "f64.gt"@,
        InstrKind::Binary(BinOp::F64Le) => "f64.le"@,
        InstrKind::Binary(BinOp::F64Ge) => "f64.ge"@,
        InstrKind::Binary(BinOp::I32Add) => "i32.add"@,
        InstrKind::Binary(BinOp::I32Sub) => "i32.sub"@,
        InstrKind::Binary(BinOp::I32Mul) => "i32.mul"@,
        InstrKind::Binary(BinOp::I32DivS) => "i32.div_s"@,
        InstrKind::Binary(BinOp::I32DivU) => "i32.div_u"@,
        InstrKind::Binary(BinOp::I32RemS) => "i32.rem_s"@,
        InstrKind::Binary(BinOp::I32RemU) => "i32.rem_u"@,
        InstrKind::Binary(BinOp::I32And) => "i32.and"@,
        InstrKind::Binary(BinOp::I32Or) => "i32.or"@,
        InstrKind::Binary(BinOp::I32Xor) => "i32.xor"@,
        InstrKind::Binary(BinOp::I32Shl) => "i32.shl"@,
        InstrKind::Binary(BinOp::I32ShrS) => "i32.shr_s"@,
        InstrKind::Binary(BinOp::I32ShrU) => "i32.shr_u"@,
        InstrKind::Binary(BinOp::I32Rotl) => "i32.rotl"@,
        InstrKind::Binary(BinOp::I32Rotr) => "i32.rotr"@,
        InstrKind::Binary(BinOp::I64Add) => "i64.add"@,
        InstrKind::Binary(BinOp::I64Sub) => "i64.sub"@,
        InstrKind::Binary(BinOp::I64Mul) => "i64.mul"@,
        InstrKind::Binary(BinOp::I64DivS) => "i64.div_s"@,
        InstrKind::Binary(BinOp::I64DivU) => "i64.div_u"@,
        InstrKind::Binary(BinOp::I64RemS) => "i64.rem_s"@,
        InstrKind::Binary(BinOp::I64RemU) => "i64.rem_u"@,
        InstrKind::Binary(BinOp::I64And) => "i64.and"@,
        InstrKind::Binary(BinOp::I64Or) => "i64.or"@,
        InstrKind::Binary(BinOp::I64Xor) => "i64.xor"@,
        InstrKind::Binary(BinOp::I64Shl) => "i64.shl"@,
        InstrKind::Binary(BinOp::I64ShrS) => "i64.shr_s"@,
        InstrKind::Binary(BinOp::I64ShrU) => "i64.shr_u"@,
        InstrKind::Binary(BinOp::I64Rotl) => "i64.rotl"@,
        InstrKind::Binary(BinOp::I64Rotr) => "i64.rotr"@,
        InstrKind::Binary(BinOp::F32Add) => "f32.add"@,
        InstrKind::Binary(BinOp::F32Sub) => "f32.sub"@,
        InstrKind::Binary(BinOp::F32Mul) => "f32.mul"@,
        InstrKind::Binary(BinOp::F32Div) => "f32.div"@,
        InstrKind::Binary(BinOp::F32Min) => "f32.min"@,
        InstrKind::Binary(BinOp::F32Max) => "f32.max"@,
        InstrKind::Binary(BinOp::F32Copysign) => "f32.copysign"@,
        InstrKind::Binary(BinOp::F64Add) => "f64.add"@,
        InstrKind::Binary(BinOp::F64Sub) => "f64.sub"@,
        InstrKind::Binary(BinOp::F64Mul) => "f64.mul"@,
        InstrKind::Binary(BinOp::F64Div) => "f64.div"@,
        InstrKind::Binary(BinOp::F64Min) => "f64.min"@,
        InstrKind::Binary(BinOp::F64Max) => "f64.max"@,
        InstrKind::Binary(BinOp::F64Copysign) => "f64.copysign"@,
        InstrKind::Load(LoadOp::I32Load) => "i32.load"@,
        InstrKind::Load(LoadOp::I32Load8S) => "i32.load8_s"@,
        InstrKind::Load(LoadOp::I32Load8U) => "i32.load8_u"@,
        InstrKind::Load(LoadOp::I32Load16S) => "i32.load16_s"@,
        InstrKind::Load(LoadOp::I32Load16U) => "i32.load16_u"@,
        InstrKind::Load(LoadOp::I64Load) => "i64.load"@,
        InstrKind::Load(LoadOp::I64Load8S) => "i64.load8_s"@,
        InstrKind::Load(LoadOp::I64Load8U) => "i64.load8_u"@,
        InstrKind::Load(LoadOp::I64Load16S) => "i64.load16_s"@,
        InstrKind::Load(LoadOp::I64Load16U) => "i64.load16_u"@,
        InstrKind::Load(LoadOp::I64Load32S) => "i64.load32_s"@,
        InstrKind::Load(LoadOp::I64Load32U) => "i64.load32_u"@,
        InstrKind::Load(LoadOp::F32Load) => "f32.load"@,
        InstrKind::Load(LoadOp::F64Load) => "f64.load"@,
        InstrKind::Store(StoreOp::I32Store) => "i32.store"@,
        InstrKind::Store(StoreOp::I32Store8) => "i32.store8"@,
        InstrKind::Store(StoreOp::I32Store16) => "i32.store16"@,
        InstrKind::Store(StoreOp::I64Store) => "i64.store"@,
        InstrKind::Store(StoreOp::I64Store8) => "i64.store8"@,
        InstrKind::Store(StoreOp::I64Store16) => "i64.store16"@,
        InstrKind::Store(StoreOp::I64Store32) => "i64.store32"@,
        InstrKind::Store(StoreOp::F32Store) => "f32.store"@,
        InstrKind::Store(StoreOp::F64Store) => "f64.store"@,
    }
}

/// The mnemonic of an instruction kind; hooks of this kind are imported
/// under this name.
pub fn kind_name(k: InstrKind) -> (r: &'static str)
    ensures
        r@ == spec_kind_name(k),
{
    match k {
        InstrKind::Unreachable => "unreachable",
        InstrKind::Nop => "nop",
        InstrKind::Block => "begin_block",
        InstrKind::Loop => "begin_loop",
        InstrKind::If => "if_",
        InstrKind::Else => "begin_else",
        InstrKind::End => "end",
        InstrKind::Br => "br",
        InstrKind::BrIf => "br_if",
        InstrKind::BrTable => "br_table",
        InstrKind::Return => "return",
        InstrKind::Call => "call",
        InstrKind::CallIndirect => "call_indirect",
        InstrKind::Drop => "drop",
        InstrKind::Select => "select",
        InstrKind::GetLocal => "get_local",
        InstrKind::SetLocal => "set_local",
        InstrKind::TeeLocal => "tee_local",
        InstrKind::GetGlobal => "get_global",
        InstrKind::SetGlobal => "set_global",
        InstrKind::CurrentMemory => "current_memory",
        InstrKind::GrowMemory => "grow_memory",
        InstrKind::Const(ValType::I32) => "i32.const",
        InstrKind::Const(ValType::I64) => "i64.const",
        InstrKind::Const(ValType::F32) => "f32.const",
        InstrKind::Const(ValType::F64) => "f64.const",
        InstrKind::Unary(UnOp::I32Eqz) => "i32.eqz",
        InstrKind::Unary(UnOp::I64Eqz) => "i64.eqz",
        InstrKind::Unary(UnOp::I32Clz) => "i32.clz",
        InstrKind::Unary(UnOp::I32Ctz) => "i32.ctz",
        InstrKind::Unary(UnOp::I32Popcnt) => "i32.popcnt",
        InstrKind::Unary(UnOp::I64Clz) => "i64.clz",
        InstrKind::Unary(UnOp::I64Ctz) => "i64.ctz",
        InstrKind::Unary(UnOp::I64Popcnt) => "i64.popcnt",
        InstrKind::Unary(UnOp::F32Abs) => "f32.abs",
        InstrKind::Unary(UnOp::F32Neg) => "f32.neg",
        InstrKind::Unary(UnOp::F32Ceil) => "f32.ceil",
        InstrKind::Unary(UnOp::F32Floor) => "f32.floor",
        InstrKind::Unary(UnOp::F32Trunc) => "f32.trunc",
        InstrKind::Unary(UnOp::F32Nearest) => "f32.nearest",
        InstrKind::Unary(UnOp::F32Sqrt) => "f32.sqrt",
        InstrKind::Unary(UnOp::F64Abs) => "f64.abs",
        InstrKind::Unary(UnOp::F64Neg) => "f64.neg",
        InstrKind::Unary(UnOp::F64Ceil) => "f64.ceil",
        InstrKind::Unary(UnOp::F64Floor) => "f64.floor",
        InstrKind::Unary(UnOp::F64Trunc) => "f64.trunc",
        InstrKind::Unary(UnOp::F64Nearest) => "f64.nearest",
        InstrKind::Unary(UnOp::F64Sqrt) => "f64.sqrt",
        InstrKind::Unary(UnOp::I32WrapI64) => "i32.wrap/i64",
        InstrKind::Unary(UnOp::I32TruncSF32) => "i32.trunc_s/f32",
        InstrKind::Unary(UnOp::I32TruncUF32) => "i32.trunc_u/f32",
        InstrKind::Unary(UnOp::I32TruncSF64) => "i32.trunc_s/f64",
        InstrKind::Unary(UnOp::I32TruncUF64) => "i32.trunc_u/f64",
        InstrKind::Unary(UnOp::I64ExtendSI32) => "i64.extend_s/i32",
        InstrKind::Unary(UnOp::I64ExtendUI32) => "i64.extend_u/i32",
        InstrKind::Unary(UnOp::I64TruncSF32) => "i64.trunc_s/f32",
        InstrKind::Unary(UnOp::I64TruncUF32) => "i64.trunc_u/f32",
        InstrKind::Unary(UnOp::I64TruncSF64) => "i64.trunc_s/f64",
        InstrKind::Unary(UnOp::I64TruncUF64) => "i64.trunc_u/f64",
        InstrKind::Unary(UnOp::F32ConvertSI32) => "f32.convert_s/i32",
        InstrKind::Unary(UnOp::F32ConvertUI32) => "f32.convert_u/i32",
        InstrKind::Unary(UnOp::F32ConvertSI64) => "f32.convert_s/i64",
        InstrKind::Unary(UnOp::F32ConvertUI64) => "f32.convert_u/i64",
        InstrKind::Unary(UnOp::F32DemoteF64) => "f32.demote/f64",
        InstrKind::Unary(UnOp::F64ConvertSI32) => "f64.convert_s/i32",
        InstrKind::Unary(UnOp::F64ConvertUI32) => "f64.convert_u/i32",
        InstrKind::Unary(UnOp::F64ConvertSI64) => "f64.convert_s/i64",
        InstrKind::Unary(UnOp::F64ConvertUI64) => "f64.convert_u/i64",
        InstrKind::Unary(UnOp::F64PromoteF32) => "f64.promote/f32",
        InstrKind::Unary(UnOp::I32ReinterpretF32) => "i32.reinterpret/f32",
        InstrKind::Unary(UnOp::I64ReinterpretF64) => "i64.reinterpret/f64",
        InstrKind::Unary(UnOp::F32ReinterpretI32) => "f32.reinterpret/i32",
        InstrKind::Unary(UnOp::F64ReinterpretI64) => "f64.reinterpret/i64",
        InstrKind::Binary(BinOp::I32Eq) => "i32.eq",
        InstrKind::Binary(BinOp::I32Ne) => "i32.ne",
        InstrKind::Binary(BinOp::I32LtS) => "i32.lt_s",
        InstrKind::Binary(BinOp::I32LtU) => "i32.lt_u",
        InstrKind::Binary(BinOp::I32GtS) => "i32.gt_s",
        InstrKind::Binary(BinOp::I32GtU) => "i32.gt_u",
        InstrKind::Binary(BinOp::I32LeS) => "i32.le_s",
        InstrKind::Binary(BinOp::I32LeU) => "i32.le_u",
        InstrKind::Binary(BinOp::I32GeS) => "i32.ge_s",
        InstrKind::Binary(BinOp::I32GeU) => "i32.ge_u",
        InstrKind::Binary(BinOp::I64Eq) => "i64.eq",
        InstrKind::Binary(BinOp::I64Ne) => "i64.ne",
        InstrKind::Binary(BinOp::I64LtS) => "i64.lt_s",
        InstrKind::Binary(BinOp::I64LtU) => "i64.lt_u",
        InstrKind::Binary(BinOp::I64GtS) => "i64.gt_s",
        InstrKind::Binary(BinOp::I64GtU) => "i64.gt_u",
        InstrKind::Binary(BinOp::I64LeS) => "i64.le_s",
        InstrKind::Binary(BinOp::I64LeU) => "i64.le_u",
        InstrKind::Binary(BinOp::I64GeS) => "i64.ge_s",
        InstrKind::Binary(BinOp::I64GeU) => "i64.ge_u",
        InstrKind::Binary(BinOp::F32Eq) => "f32.eq",
        InstrKind::Binary(BinOp::F32Ne) => "f32.ne",
        InstrKind::Binary(BinOp::F32Lt) => "f32.lt",
        InstrKind::Binary(BinOp::F32Gt) => "f32.gt",
        InstrKind::Binary(BinOp::F32Le) => "f32.le",
        InstrKind::Binary(BinOp::F32Ge) => "f32.ge",
        InstrKind::Binary(BinOp::F64Eq) => "f64.eq",
        InstrKind::Binary(BinOp::F64Ne) => "f64.ne",
        InstrKind::Binary(BinOp::F64Lt) => "f64.lt",
        InstrKind::Binary(BinOp::F64Gt) => "f64.gt",
        InstrKind::Binary(BinOp::F64Le) => "f64.le",
        InstrKind::Binary(BinOp::F64Ge) => "f64.ge",
        InstrKind::Binary(BinOp::I32Add) => "i32.add",
        InstrKind::Binary(BinOp::I32Sub) => "i32.sub",
        InstrKind::Binary(BinOp::I32Mul) => "i32.mul",
        InstrKind::Binary(BinOp::I32DivS) => "i32.div_s",
        InstrKind::Binary(BinOp::I32DivU) => "i32.div_u",
        InstrKind::Binary(BinOp::I32RemS) => "i32.rem_s",
        InstrKind::Binary(BinOp::I32RemU) => "i32.rem_u",
        InstrKind::Binary(BinOp::I32And) => "i32.and",
        InstrKind::Binary(BinOp::I32Or) => "i32.or",
        InstrKind::Binary(BinOp::I32Xor) => "i32.xor",
        InstrKind::Binary(BinOp::I32Shl) => "i32.shl",
        InstrKind::Binary(BinOp::I32ShrS) => "i32.shr_s",
        InstrKind::Binary(BinOp::I32ShrU) => "i32.shr_u",
        InstrKind::Binary(BinOp::I32Rotl) => "i32.rotl",
        InstrKind::Binary(BinOp::I32Rotr) => "i32.rotr",
        InstrKind::Binary(BinOp::I64Add) => "i64.add",
        InstrKind::Binary(BinOp::I64Sub) => "i64.sub",
        InstrKind::Binary(BinOp::I64Mul) => "i64.mul",
        InstrKind::Binary(BinOp::I64DivS) => "i64.div_s",
        InstrKind::Binary(BinOp::I64DivU) => "i64.div_u",
        InstrKind::Binary(BinOp::I64RemS) => "i64.rem_s",
        InstrKind::Binary(BinOp::I64RemU) => "i64.rem_u",
        InstrKind::Binary(BinOp::I64And) => "i64.and",
        InstrKind::Binary(BinOp::I64Or) => "i64.or",
        InstrKind::Binary(BinOp::I64Xor) => "i64.xor",
        InstrKind::Binary(BinOp::I64Shl) => "i64.shl",
        InstrKind::Binary(BinOp::I64ShrS) => "i64.shr_s",
        InstrKind::Binary(BinOp::I64ShrU) => "i64.shr_u",
        InstrKind::Binary(BinOp::I64Rotl) => "i64.rotl",
        InstrKind::Binary(BinOp::I64Rotr) => "i64.rotr",
        InstrKind::Binary(BinOp::F32Add) => "f32.add",
        InstrKind::Binary(BinOp::F32Sub) => "f32.sub",
        InstrKind::Binary(BinOp::F32Mul) => "f32.mul",
        InstrKind::Binary(BinOp::F32Div) => "f32.div",
        InstrKind::Binary(BinOp::F32Min) => "f32.min",
        InstrKind::Binary(BinOp::F32Max) => "f32.max",
        InstrKind::Binary(BinOp::F32Copysign) => "f32.copysign",
        InstrKind::Binary(BinOp::F64Add) => "f64.add",
        InstrKind::Binary(BinOp::F64Sub) => "f64.sub",
        InstrKind::Binary(BinOp::F64Mul) => "f64.mul",
        InstrKind::Binary(BinOp::F64Div) => "f64.div",
        InstrKind::Binary(BinOp::F64Min) => "f64.min",
        InstrKind::Binary(BinOp::F64Max) => "f64.max",
        InstrKind::Binary(BinOp::F64Copysign) => "f64.copysign",
        InstrKind::Load(LoadOp::I32Load) => "i32.load",
        InstrKind::Load(LoadOp::I32Load8S) => "i32.load8_s",
        InstrKind::Load(LoadOp::I32Load8U) => "i32.load8_u",
        InstrKind::Load(LoadOp::I32Load16S) => "i32.load16_s",
        InstrKind::Load(LoadOp::I32Load16U) => "i32.load16_u",
        InstrKind::Load(LoadOp::I64Load) => "i64.load",
        InstrKind::Load(LoadOp::I64Load8S) => "i64.load8_s",
        InstrKind::Load(LoadOp::I64Load8U) => "i64.load8_u",
        InstrKind::Load(LoadOp::I64Load16S) => "i64.load16_s",
        InstrKind::Load(LoadOp::I64Load16U) => "i64.load16_u",
        InstrKind::Load(LoadOp::I64Load32S) => "i64.load32_s",
        InstrKind::Load(LoadOp::I64Load32U) => "i64.load32_u",
        InstrKind::Load(LoadOp::F32Load) => "f32.load",
        InstrKind::Load(LoadOp::F64Load) => "f64.load",
        InstrKind::Store(StoreOp::I32Store) => "i32.store",
        InstrKind::Store(StoreOp::I32Store8) => "i32.store8",
        InstrKind::Store(StoreOp::I32Store16) => "i32.store16",
        InstrKind::Store(StoreOp::I64Store) => "i64.store",
        InstrKind::Store(StoreOp::I64Store8) => "i64.store8",
        InstrKind::Store(StoreOp::I64Store16) => "i64.store16",
        InstrKind::Store(StoreOp::I64Store32) => "i64.store32",
        InstrKind::Store(StoreOp::F32Store) => "f32.store",
        InstrKind::Store(StoreOp::F64Store) => "f64.store",
    }
}

/// How many instruction kinds get a monomorphic hook of their own: the
/// four constants and every unary, binary, load and store opcode.
pub const MONO_COUNT: usize = 150;

/// Kinds in one of the five instruction groups; each gets a monomorphic hook.
pub open spec fn is_grouped(k: InstrKind) -> bool {
    match k {
        InstrKind::Const(_) => true,
        InstrKind::Unary(_) => true,
        InstrKind::Binary(_) => true,
        InstrKind::Load(_) => true,
        InstrKind::Store(_) => true,
        _ => false,
    }
}

/// The hook argument types a grouped instruction reports, before the `i64`
/// expansion and without the two leading location arguments. Memory accesses
/// report address, offset and alignment before the value.
pub open spec fn spec_group_args(k: InstrKind) -> Seq<ValType> {
    match k {
        InstrKind::Const(ty) => seq![ty],
        InstrKind::Unary(op) => seq![spec_unop_tys(op).0, spec_unop_tys(op).1],
        InstrKind::Binary(op) => seq![
            spec_binop_tys(op).0,
            spec_binop_tys(op).1,
            spec_binop_tys(op).2,
        ],
        InstrKind::Load(op) => seq![ValType::I32, ValType::I32, ValType::I32, spec_load_ty(op)],
        InstrKind::Store(op) => seq![ValType::I32, ValType::I32, ValType::I32, spec_store_ty(op)],
        _ => seq![],
    }
}

pub open spec fn spec_mono_index(k: InstrKind) -> int {
    match k {
        InstrKind::Const(ValType::I32) => 0,
        InstrKind::Const(ValType::I64) => 1,
        InstrKind::Const(ValType::F32) => 2,
        InstrKind::Const(ValType::F64) => 3,
        InstrKind::Unary(UnOp::I32Eqz) => 4,
        InstrKind::Unary(UnOp::I64Eqz) => 5,
        InstrKind::Unary(UnOp::I32Clz) => 6,
        InstrKind::Unary(UnOp::I32Ctz) => 7,
        InstrKind::Unary(UnOp::I32Popcnt) => 8,
        InstrKind::Unary(UnOp::I64Clz) => 9,
        InstrKind::Unary(UnOp::I64Ctz) => 10,
        InstrKind::Unary(UnOp::I64Popcnt) => 11,
        InstrKind::Unary(UnOp::F32Abs) => 12,
        InstrKind::Unary(UnOp::F32Neg) => 13,
        InstrKind::Unary(UnOp::F32Ceil) => 14,
        InstrKind::Unary(UnOp::F32Floor) => 15,
        InstrKind::Unary(UnOp::F32Trunc) => 16,
        InstrKind::Unary(UnOp::F32Nearest) => 17,
        InstrKind::Unary(UnOp::F32Sqrt) => 18,
        InstrKind::Unary(UnOp::F64Abs) => 19,
        InstrKind::Unary(UnOp::F64Neg) => 20,
        InstrKind::Unary(UnOp::F64Ceil) => 21,
        InstrKind::Unary(UnOp::F64Floor) => 22,
        InstrKind::Unary(UnOp::F64Trunc) => 23,
        InstrKind::Unary(UnOp::F64Nearest) => 24,
        InstrKind::Unary(UnOp::F64Sqrt) => 25,
        InstrKind::Unary(UnOp::I32WrapI64) => 26,
        InstrKind::Unary(UnOp::I32TruncSF32) => 27,
        InstrKind::Unary(UnOp::I32TruncUF32) => 28,
        InstrKind::Unary(UnOp::I32TruncSF64) => 29,
        InstrKind::Unary(UnOp::I32TruncUF64) => 30,
        InstrKind::Unary(UnOp::I64ExtendSI32) => 31,
        InstrKind::Unary(UnOp::I64ExtendUI32) => 32,
        InstrKind::Unary(UnOp::I64TruncSF32) => 33,
        InstrKind::Unary(UnOp::I64TruncUF32) => 34,
        InstrKind::Unary(UnOp::I64TruncSF64) => 35,
        InstrKind::Unary(UnOp::I64TruncUF64) => 36,
        InstrKind::Unary(UnOp::F32ConvertSI32) => 37,
        InstrKind::Unary(UnOp::F32ConvertUI32) => 38,
        InstrKind::Unary(UnOp::F32ConvertSI64) => 39,
        InstrKind::Unary(UnOp::F32ConvertUI64) => 40,
        InstrKind::Unary(UnOp::F32DemoteF64) => 41,
        InstrKind::Unary(UnOp::F64ConvertSI32) => 42,
        InstrKind::Unary(UnOp::F64ConvertUI32) => 43,
        InstrKind::Unary(UnOp::F64ConvertSI64) => 44,
        InstrKind::Unary(UnOp::F64ConvertUI64) => 45,
        InstrKind::Unary(UnOp::F64PromoteF32) => 46,
        InstrKind::Unary(UnOp::I32ReinterpretF32) => 47,
        InstrKind::Unary(UnOp::I64ReinterpretF64) => 48,
        InstrKind::Unary(UnOp::F32ReinterpretI32) => 49,
        InstrKind::Unary(UnOp::F64ReinterpretI64) => 50,
        InstrKind::Binary(BinOp::I32Eq) => 51,
        InstrKind::Binary(BinOp::I32Ne) => 52,
        InstrKind::Binary(BinOp::I32LtS) => 53,
        InstrKind::Binary(BinOp::I32LtU) => 54,
        InstrKind::Binary(BinOp::I32GtS) => 55,
        InstrKind::Binary(BinOp::I32GtU) => 56,
        InstrKind::Binary(BinOp::I32LeS) => 57,
        InstrKind::Binary(BinOp::I32LeU) => 58,
        InstrKind::Binary(BinOp::I32GeS) => 59,
        InstrKind::Binary(BinOp::I32GeU) => 60,
        InstrKind::Binary(BinOp::I64Eq) => 61,
        InstrKind::Binary(BinOp::I64Ne) => 62,
        InstrKind::Binary(BinOp::I64LtS) => 63,
        InstrKind::Binary(BinOp::I64LtU) => 64,
        InstrKind::Binary(BinOp::I64GtS) => 65,
        InstrKind::Binary(BinOp::I64GtU) => 66,
        InstrKind::Binary(BinOp::I64LeS) => 67,
        InstrKind::Binary(BinOp::I64LeU) => 68,
        InstrKind::Binary(BinOp::I64GeS) => 69,
        InstrKind::Binary(BinOp::I64GeU) => 70,
        InstrKind::Binary(BinOp::F32Eq) => 71,
        InstrKind::Binary(BinOp::F32Ne) => 72,
        InstrKind::Binary(BinOp::F32Lt) => 73,
        InstrKind::Binary(BinOp::F32Gt) => 74,
        InstrKind::Binary(BinOp::F32Le) => 75,
        InstrKind::Binary(BinOp::F32Ge) => 76,
        InstrKind::Binary(BinOp::F64Eq) => 77,
        InstrKind::Binary(BinOp::F64Ne) => 78,
        InstrKind::Binary(BinOp::F64Lt) => 79,
        InstrKind::Binary(BinOp::F64Gt) => 80,
        InstrKind::Binary(BinOp::F64Le) => 81,
        InstrKind::Binary(BinOp::F64Ge) => 82,
        InstrKind::Binary(BinOp::I32Add) => 83,
        InstrKind::Binary(BinOp::I32Sub) => 84,
        InstrKind::Binary(BinOp::I32Mul) => 85,
        InstrKind::Binary(BinOp::I32DivS) => 86,
        InstrKind::Binary(BinOp::I32DivU) => 87,
        InstrKind::Binary(BinOp::I32RemS) => 88,
        InstrKind::Binary(BinOp::I32RemU) => 89,
        InstrKind::Binary(BinOp::I32And) => 90,
        InstrKind::Binary(BinOp::I32Or) => 91,
        InstrKind::Binary(BinOp::I32Xor) => 92,
        InstrKind::Binary(BinOp::I32Shl) => 93,
        InstrKind::Binary(BinOp::I32ShrS) => 94,
        InstrKind::Binary(BinOp::I32ShrU) => 95,
        InstrKind::Binary(BinOp::I32Rotl) => 96,
        InstrKind::Binary(BinOp::I32Rotr) => 97,
        InstrKind::Binary(BinOp::I64Add) => 98,
        InstrKind::Binary(BinOp::I64Sub) => 99,
        InstrKind::Binary(BinOp::I64Mul) => 100,
        InstrKind::Binary(BinOp::I64DivS) => 101,
        InstrKind::Binary(BinOp::I64DivU) => 102,
        InstrKind::Binary(BinOp::I64RemS) => 103,
        InstrKind::Binary(BinOp::I64RemU) => 104,
        InstrKind::Binary(BinOp::I64And) => 105,
        InstrKind::Binary(BinOp::I64Or) => 106,
        InstrKind::Binary(BinOp::I64Xor) => 107,
        InstrKind::Binary(BinOp::I64Shl) => 108,
        InstrKind::Binary(BinOp::I64ShrS) => 109,
        InstrKind::Binary(BinOp::I64ShrU) => 110,
        InstrKind::Binary(BinOp::I64Rotl) => 111,
        InstrKind::Binary(BinOp::I64Rotr) => 112,
        InstrKind::Binary(BinOp::F32Add) => 113,
        InstrKind::Binary(BinOp::F32Sub) => 114,
        InstrKind::Binary(BinOp::F32Mul) => 115,
        InstrKind::Binary(BinOp::F32Div) => 116,
        InstrKind::Binary(BinOp::F32Min) => 117,
        InstrKind::Binary(BinOp::F32Max) => 118,
        InstrKind::Binary(BinOp::F32Copysign) => 119,
        InstrKind::Binary(BinOp::F64Add) => 120,
        InstrKind::Binary(BinOp::F64Sub) => 121,
        InstrKind::Binary(BinOp::F64Mul) => 122,
        InstrKind::Binary(BinOp::F64Div) => 123,
        InstrKind::Binary(BinOp::F64Min) => 124,
        InstrKind::Binary(BinOp::F64Max) => 125,
        InstrKind::Binary(BinOp::F64Copysign) => 126,
        InstrKind::Load(LoadOp::I32Load) => 127,
        InstrKind::Load(LoadOp::I32Load8S) => 128,
        InstrKind::Load(LoadOp::I32Load8U) => 129,
        InstrKind::Load(LoadOp::I32Load16S) => 130,
        InstrKind::Load(LoadOp::I32Load16U) => 131,
        InstrKind::Load(LoadOp::I64Load) => 132,
        InstrKind::Load(LoadOp::I64Load8S) => 133,
        InstrKind::Load(LoadOp::I64Load8U) => 134,
        InstrKind::Load(LoadOp::I64Load16S) => 135,
        InstrKind::Load(LoadOp::I64Load16U) => 136,
        InstrKind::Load(LoadOp::I64Load32S) => 137,
        InstrKind::Load(LoadOp::I64Load32U) => 138,
        InstrKind::Load(LoadOp::F32Load) => 139,
        InstrKind::Load(LoadOp::F64Load) => 140,
        InstrKind::Store(StoreOp::I32Store) => 141,
        InstrKind::Store(StoreOp::I32Store8) => 142,
        InstrKind::Store(StoreOp::I32Store16) => 143,
        InstrKind::Store(StoreOp::I64Store) => 144,
        InstrKind::Store(StoreOp::I64Store8) => 145,
        InstrKind::Store(StoreOp::I64Store16) => 146,
        InstrKind::Store(StoreOp::I64Store32) => 147,
        InstrKind::Store(StoreOp::F32Store) => 148,
        InstrKind::Store(StoreOp::F64Store) => 149,
        _ => 150,
    }
}

pub fn mono_index(k: InstrKind) -> (i: usize)
    requires
        is_grouped(k),
    ensures
        i == spec_mono_index(k),
        i < MONO_COUNT,
{
    match k {
        InstrKind::Const(ValType::I32) => 0,
        InstrKind::Const(ValType::I64) => 1,
        InstrKind::Const(ValType::F32) => 2,
        InstrKind::Const(ValType::F64) => 3,
        InstrKind::Unary(UnOp::I32Eqz) => 4,
        InstrKind::Unary(UnOp::I64Eqz) => 5,
        InstrKind::Unary(UnOp::I32Clz) => 6,
        InstrKind::Unary(UnOp::I32Ctz) => 7,
        InstrKind::Unary(UnOp::I32Popcnt) => 8,
        InstrKind::Unary(UnOp::I64Clz) => 9,
        InstrKind::Unary(UnOp::I64Ctz) => 10,
        InstrKind::Unary(UnOp::I64Popcnt) => 11,
        InstrKind::Unary(UnOp::F32Abs) => 12,
        InstrKind::Unary(UnOp::F32Neg) => 13,
        InstrKind::Unary(UnOp::F32Ceil) => 14,
        InstrKind::Unary(UnOp::F32Floor) => 15,
        InstrKind::Unary(UnOp::F32Trunc) => 16,
        InstrKind::Unary(UnOp::F32Nearest) => 17,
        InstrKind::Unary(UnOp::F32Sqrt) => 18,
        InstrKind::Unary(UnOp::F64Abs) => 19,
        InstrKind::Unary(UnOp::F64Neg) => 20,
        InstrKind::Unary(UnOp::F64Ceil) => 21,
        InstrKind::Unary(UnOp::F64Floor) => 22,
        InstrKind::Unary(UnOp::F64Trunc) => 23,
        InstrKind::Unary(UnOp::F64Nearest) => 24,
        InstrKind::Unary(UnOp::F64Sqrt) => 25,
        InstrKind::Unary(UnOp::I32WrapI64) => 26,
        InstrKind::Unary(UnOp::I32TruncSF32) => 27,
        InstrKind::Unary(UnOp::I32TruncUF32) => 28,
        InstrKind::Unary(UnOp::I32TruncSF64) => 29,
        InstrKind::Unary(UnOp::I32TruncUF64) => 30,
        InstrKind::Unary(UnOp::I64ExtendSI32) => 31,
        InstrKind::Unary(UnOp::I64ExtendUI32) => 32,
        InstrKind::Unary(UnOp::I64TruncSF32) => 33,
        InstrKind::Unary(UnOp::I64TruncUF32) => 34,
        InstrKind::Unary(UnOp::I64TruncSF64) => 35,
        InstrKind::Unary(UnOp::I64TruncUF64) => 36,
        InstrKind::Unary(UnOp::F32ConvertSI32) => 37,
        InstrKind::Unary(UnOp::F32ConvertUI32) => 38,
        InstrKind::Unary(UnOp::F32ConvertSI64) => 39,
        InstrKind::Unary(UnOp::F32ConvertUI64) => 40,
        InstrKind::Unary(UnOp::F32DemoteF64) => 41,
        InstrKind::Unary(UnOp::F64ConvertSI32) => 42,
        InstrKind::Unary(UnOp::F64ConvertUI32) => 43,
        InstrKind::Unary(UnOp::F64ConvertSI64) => 44,
        InstrKind::Unary(UnOp::F64ConvertUI64) => 45,
        InstrKind::Unary(UnOp::F64PromoteF32) => 46,
        InstrKind::Unary(UnOp::I32ReinterpretF32) => 47,
        InstrKind::Unary(UnOp::I64ReinterpretF64) => 48,
        InstrKind::Unary(UnOp::F32ReinterpretI32) => 49,
        InstrKind::Unary(UnOp::F64ReinterpretI64) => 50,
        InstrKind::Binary(BinOp::I32Eq) => 51,
        InstrKind::Binary(BinOp::I32Ne) => 52,
        InstrKind::Binary(BinOp::I32LtS) => 53,
        InstrKind::Binary(BinOp::I32LtU) => 54,
        InstrKind::Binary(BinOp::I32GtS) => 55,
        InstrKind::Binary(BinOp::I32GtU) => 56,
        InstrKind::Binary(BinOp::I32LeS) => 57,
        InstrKind::Binary(BinOp::I32LeU) => 58,
        InstrKind::Binary(BinOp::I32GeS) => 59,
        InstrKind::Binary(BinOp::I32GeU) => 60,
        InstrKind::Binary(BinOp::I64Eq) => 61,
        InstrKind::Binary(BinOp::I64Ne) => 62,
        InstrKind::Binary(BinOp::I64LtS) => 63,
        InstrKind::Binary(BinOp::I64LtU) => 64,
        InstrKind::Binary(BinOp::I64GtS) => 65,
        InstrKind::Binary(BinOp::I64GtU) => 66,
        InstrKind::Binary(BinOp::I64LeS) => 67,
        InstrKind::Binary(BinOp::I64LeU) => 68,
        InstrKind::Binary(BinOp::I64GeS) => 69,
        InstrKind::Binary(BinOp::I64GeU) => 70,
        InstrKind::Binary(BinOp::F32Eq) => 71,
        InstrKind::Binary(BinOp::F32Ne) => 72,
        InstrKind::Binary(BinOp::F32Lt) => 73,
        InstrKind::Binary(BinOp::F32Gt) => 74,
        InstrKind::Binary(BinOp::F32Le) => 75,
        InstrKind::Binary(BinOp::F32Ge) => 76,
        InstrKind::Binary(BinOp::F64Eq) => 77,
        InstrKind::Binary(BinOp::F64Ne) => 78,
        InstrKind::Binary(BinOp::F64Lt) => 79,
        InstrKind::Binary(BinOp::F64Gt) => 80,
        InstrKind::Binary(BinOp::F64Le) => 81,
        InstrKind::Binary(BinOp::F64Ge) => 82,
        InstrKind::Binary(BinOp::I32Add) => 83,
        InstrKind::Binary(BinOp::I32Sub) => 84,
        InstrKind::Binary(BinOp::I32Mul) => 85,
        InstrKind::Binary(BinOp::I32DivS) => 86,
        InstrKind::Binary(BinOp::I32DivU) => 87,
        InstrKind::Binary(BinOp::I32RemS) => 88,
        InstrKind::Binary(BinOp::I32RemU) => 89,
        InstrKind::Binary(BinOp::I32And) => 90,
        InstrKind::Binary(BinOp::I32Or) => 91,
        InstrKind::Binary(BinOp::I32Xor) => 92,
        InstrKind::Binary(BinOp::I32Shl) => 93,
        InstrKind::Binary(BinOp::I32ShrS) => 94,
        InstrKind::Binary(BinOp::I32ShrU) => 95,
        InstrKind::Binary(BinOp::I32Rotl) => 96,
        InstrKind::Binary(BinOp::I32Rotr) => 97,
        InstrKind::Binary(BinOp::I64Add) => 98,
        InstrKind::Binary(BinOp::I64Sub) => 99,
        InstrKind::Binary(BinOp::I64Mul) => 100,
        InstrKind::Binary(BinOp::I64DivS) => 101,
        InstrKind::Binary(BinOp::I64DivU) => 102,
        InstrKind::Binary(BinOp::I64RemS) => 103,
        InstrKind::Binary(BinOp::I64RemU) => 104,
        InstrKind::Binary(BinOp::I64And) => 105,
        InstrKind::Binary(BinOp::I64Or) => 106,
        InstrKind::Binary(BinOp::I64Xor) => 107,
        InstrKind::Binary(BinOp::I64Shl) => 108,
        InstrKind::Binary(BinOp::I64ShrS) => 109,
        InstrKind::Binary(BinOp::I64ShrU) => 110,
        InstrKind::Binary(BinOp::I64Rotl) => 111,
        InstrKind::Binary(BinOp::I64Rotr) => 112,
        InstrKind::Binary(BinOp::F32Add) => 113,
        InstrKind::Binary(BinOp::F32Sub) => 114,
        InstrKind::Binary(BinOp::F32Mul) => 115,
        InstrKind::Binary(BinOp::F32Div) => 116,
        InstrKind::Binary(BinOp::F32Min) => 117,
        InstrKind::Binary(BinOp::F32Max) => 118,
        InstrKind::Binary(BinOp::F32Copysign) => 119,
        InstrKind::Binary(BinOp::F64Add) => 120,
        InstrKind::Binary(BinOp::F64Sub) => 121,
        InstrKind::Binary(BinOp::F64Mul) => 122,
        InstrKind::Binary(BinOp::F64Div) => 123,
        InstrKind::Binary(BinOp::F64Min) => 124,
        InstrKind::Binary(BinOp::F64Max) => 125,
        InstrKind::Binary(BinOp::F64Copysign) => 126,
        InstrKind::Load(LoadOp::I32Load) => 127,
        InstrKind::Load(LoadOp::I32Load8S) => 128,
        InstrKind::Load(LoadOp::I32Load8U) => 129,
        InstrKind::Load(LoadOp::I32Load16S) => 130,
        InstrKind::Load(LoadOp::I32Load16U) => 131,
        InstrKind::Load(LoadOp::I64Load) => 132,
        InstrKind::Load(LoadOp::I64Load8S) => 133,
        InstrKind::Load(LoadOp::I64Load8U) => 134,
        InstrKind::Load(LoadOp::I64Load16S) => 135,
        InstrKind::Load(LoadOp::I64Load16U) => 136,
        InstrKind::Load(LoadOp::I64Load32S) => 137,
        InstrKind::Load(LoadOp::I64Load32U) => 138,
        InstrKind::Load(LoadOp::F32Load) => 139,
        InstrKind::Load(LoadOp::F64Load) => 140,
        InstrKind::Store(StoreOp::I32Store) => 141,
        InstrKind::Store(StoreOp::I32Store8) => 142,
        InstrKind::Store(StoreOp::I32Store16) => 143,
        InstrKind::Store(StoreOp::I64Store) => 144,
        InstrKind::Store(StoreOp::I64Store8) => 145,
        InstrKind::Store(StoreOp::I64Store16) => 146,
        InstrKind::Store(StoreOp::I64Store32) => 147,
        InstrKind::Store(StoreOp::F32Store) => 148,
        InstrKind::Store(StoreOp::F64Store) => 149,
        _ => 0,
    }
}

/// The instruction kind whose monomorphic hook sits at position `j` of the
/// registration order.
pub open spec fn mono_kind_at(j: int) -> InstrKind {
    if j < 30 {
        mono_kind_chunk0(j)
    } else if j < 60 {
        mono_kind_chunk1(j)
    } else if j < 90 {
        mono_kind_chunk2(j)
    } else if j < 120 {
        mono_kind_chunk3(j)
    } else if j < 150 {
        mono_kind_chunk4(j)
    } else {
        InstrKind::Nop
    }
}

pub open spec fn mono_kind_chunk0(j: int) -> InstrKind {
    if j == 0 {
        InstrKind::Const(ValType::I32)
    } else if j == 1 {
        InstrKind::Const(ValType::I64)
    } else if j == 2 {
        InstrKind::Const(ValType::F32)
    } else if j == 3 {
        InstrKind::Const(ValType::F64)
    } else if j == 4 {
        InstrKind::Unary(UnOp::I32Eqz)
    } else if j == 5 {
        InstrKind::Unary(UnOp::I64Eqz)
    } else if j == 6 {
        InstrKind::Unary(UnOp::I32Clz)
    } else if j == 7 {
        InstrKind::Unary(UnOp::I32Ctz)
    } else if j == 8 {
        InstrKind::Unary(UnOp::I32Popcnt)
    } else if j == 9 {
        InstrKind::Unary(UnOp::I64Clz)
    } else if j == 10 {
        InstrKind::Unary(UnOp::I64Ctz)
    } else if j == 11 {
        InstrKind::Unary(UnOp::I64Popcnt)
    } else if j == 12 {
        InstrKind::Unary(UnOp::F32Abs)
    } else if j == 13 {
        InstrKind::Unary(UnOp::F32Neg)
    } else if j == 14 {
        InstrKind::Unary(UnOp::F32Ceil)
    } else if j == 15 {
        InstrKind::Unary(UnOp::F32Floor)
    } else if j == 16 {
        InstrKind::Unary(UnOp::F32Trunc)
    } else if j == 17 {
        InstrKind::Unary(UnOp::F32Nearest)
    } else if j == 18 {
        InstrKind::Unary(UnOp::F32Sqrt)
    } else if j == 19 {
        InstrKind::Unary(UnOp::F64Abs)
    } else if j == 20 {
        InstrKind::Unary(UnOp::F64Neg)
    } else if j == 21 {
        InstrKind::Unary(UnOp::F64Ceil)
    } else if j == 22 {
        InstrKind::Unary(UnOp::F64Floor)
    } else if j == 23 {
        InstrKind::Unary(UnOp::F64Trunc)
    } else if j == 24 {
        InstrKind::Unary(UnOp::F64Nearest)
    } else if j == 25 {
        InstrKind::Unary(UnOp::F64Sqrt)
    } else if j == 26 {
        InstrKind::Unary(UnOp::I32WrapI64)
    } else if j == 27 {
        InstrKind::Unary(UnOp::I32TruncSF32)
    } else if j == 28 {
        InstrKind::Unary(UnOp::I32TruncUF32)
    } else if j == 29 {
        InstrKind::Unary(UnOp::I32TruncSF64)
    } else {
        InstrKind::Nop
    }
}

pub open spec fn mono_kind_chunk1(j: int) -> InstrKind {
    if j == 30 {
        InstrKind::Unary(UnOp::I32TruncUF64)
    } else if j == 31 {
        InstrKind::Unary(UnOp::I64ExtendSI32)
    } else if j == 32 {
        InstrKind::Unary(UnOp::I64ExtendUI32)
    } else if j == 33 {
        InstrKind::Unary(UnOp::I64TruncSF32)
    } else if j == 34 {
        InstrKind::Unary(UnOp::I64TruncUF32)
    } else if j == 35 {
        InstrKind::Unary(UnOp::I64TruncSF64)
    } else if j == 36 {
        InstrKind::Unary(UnOp::I64TruncUF64)
    } else if j == 37 {
        InstrKind::Unary(UnOp::F32ConvertSI32)
    } else if j == 38 {
        InstrKind::Unary(UnOp::F32ConvertUI32)
    } else if j == 39 {
        InstrKind::Unary(UnOp::F32ConvertSI64)
    } else if j == 40 {
        InstrKind::Unary(UnOp::F32ConvertUI64)
    } else if j == 41 {
        InstrKind::Unary(UnOp::F32DemoteF64)
    } else if j == 42 {
        InstrKind::Unary(UnOp::F64ConvertSI32)
    } else if j == 43 {
        InstrKind::Unary(UnOp::F64ConvertUI32)
    } else if j == 44 {
        InstrKind::Unary(UnOp::F64ConvertSI64)
    } else if j == 45 {
        InstrKind::Unary(UnOp::F64ConvertUI64)
    } else if j == 46 {
        InstrKind::Unary(UnOp::F64PromoteF32)
    } else if j == 47 {
        InstrKind::Unary(UnOp::I32ReinterpretF32)
    } else if j == 48 {
        InstrKind::Unary(UnOp::I64ReinterpretF64)
    } else if j == 49 {
        InstrKind::Unary(UnOp::F32ReinterpretI32)
    } else if j == 50 {
        InstrKind::Unary(UnOp::F64ReinterpretI64)
    } else if j == 51 {
        InstrKind::Binary(BinOp::I32Eq)
    } else if j == 52 {
        InstrKind::Binary(BinOp::I32Ne)
    } else if j == 53 {
        InstrKind::Binary(BinOp::I32LtS)
    } else if j == 54 {
        InstrKind::Binary(BinOp::I32LtU)
    } else if j == 55 {
        InstrKind::Binary(BinOp::I32GtS)
    } else if j == 56 {
        InstrKind::Binary(BinOp::I32GtU)
    } else if j == 57 {
        InstrKind::Binary(BinOp::I32LeS)
    } else if j == 58 {
        InstrKind::Binary(BinOp::I32LeU)
    } else if j == 59 {
        InstrKind::Binary(BinOp::I32GeS)
    } else {
        InstrKind::Nop
    }
}

pub open spec fn mono_kind_chunk2(j: int) -> InstrKind {
    if j == 60 {
        InstrKind::Binary(BinOp::I32GeU)
    } else if j == 61 {
        InstrKind::Binary(BinOp::I64Eq)
    } else if j == 62 {
        InstrKind::Binary(BinOp::I64Ne)
    } else if j == 63 {
        InstrKind::Binary(BinOp::I64LtS)
    } else if j == 64 {
        InstrKind::Binary(BinOp::I64LtU)
    } else if j == 65 {
        InstrKind::Binary(BinOp::I64GtS)
    } else if j == 66 {
        InstrKind::Binary(BinOp::I64GtU)
    } else if j == 67 {
        InstrKind::Binary(BinOp::I64LeS)
    } else if j == 68 {
        InstrKind::Binary(BinOp::I64LeU)
    } else if j == 69 {
        InstrKind::Binary(BinOp::I64GeS)
    } else if j == 70 {
        InstrKind::Binary(BinOp::I64GeU)
    } else if j == 71 {
        InstrKind::Binary(BinOp::F32Eq)
    } else if j == 72 {
        InstrKind::Binary(BinOp::F32Ne)
    } else if j == 73 {
        InstrKind::Binary(BinOp::F32Lt)
    } else if j == 74 {
        InstrKind::Binary(BinOp::F32Gt)
    } else if j == 75 {
        InstrKind::Binary(BinOp::F32Le)
    } else if j == 76 {
        InstrKind::Binary(BinOp::F32Ge)
    } else if j == 77 {
        InstrKind::Binary(BinOp::F64Eq)
    } else if j == 78 {
        InstrKind::Binary(BinOp::F64Ne)
    } else if j == 79 {
        InstrKind::Binary(BinOp::F64Lt)
    } else if j == 80 {
        InstrKind::Binary(BinOp::F64Gt)
    } else if j == 81 {
        InstrKind::Binary(BinOp::F64Le)
    } else if j == 82 {
        InstrKind::Binary(BinOp::F64Ge)
    } else if j == 83 {
        InstrKind::Binary(BinOp::I32Add)
    } else if j == 84 {
        InstrKind::Binary(BinOp::I32Sub)
    } else if j == 85 {
        InstrKind::Binary(BinOp::I32Mul)
    } else if j == 86 {
        InstrKind::Binary(BinOp::I32DivS)
    } else if j == 87 {
        InstrKind::Binary(BinOp::I32DivU)
    } else if j == 88 {
        InstrKind::Binary(BinOp::I32RemS)
    } else if j == 89 {
        InstrKind::Binary(BinOp::I32RemU)
    } else {
        InstrKind::Nop
    }
}

pub open spec fn mono_kind_chunk3(j: int) -> InstrKind {
    if j == 90 {
        InstrKind::Binary(BinOp::I32And)
    } else if j == 91 {
        InstrKind::Binary(BinOp::I32Or)
    } else if j == 92 {
        InstrKind::Binary(BinOp::I32Xor)
    } else if j == 93 {
        InstrKind::Binary(BinOp::I32Shl)
    } else if j == 94 {
        InstrKind::Binary(BinOp::I32ShrS)
    } else if j == 95 {
        InstrKind::Binary(BinOp::I32ShrU)
    } else if j == 96 {
        InstrKind::Binary(BinOp::I32Rotl)
    } else if j == 97 {
        InstrKind::Binary(BinOp::I32Rotr)
    } else if j == 98 {
        InstrKind::Binary(BinOp::I64Add)
    } else if j == 99 {
        InstrKind::Binary(BinOp::I64Sub)
    } else if j == 100 {
        InstrKind::Binary(BinOp::I64Mul)
    } else if j == 101 {
        InstrKind::Binary(BinOp::I64DivS)
    } else if j == 102 {
        InstrKind::Binary(BinOp::I64DivU)
    } else if j == 103 {
        InstrKind::Binary(BinOp::I64RemS)
    } else if j == 104 {
        InstrKind::Binary(BinOp::I64RemU)
    } else if j == 105 {
        InstrKind::Binary(BinOp::I64And)
    } else if j == 106 {
        InstrKind::Binary(BinOp::I64Or)
    } else if j == 107 {
        InstrKind::Binary(BinOp::I64Xor)
    } else if j == 108 {
        InstrKind::Binary(BinOp::I64Shl)
    } else if j == 109 {
        InstrKind::Binary(BinOp::I64ShrS)
    } else if j == 110 {
        InstrKind::Binary(BinOp::I64ShrU)
    } else if j == 111 {
        InstrKind::Binary(BinOp::I64Rotl)
    } else if j == 112 {
        InstrKind::Binary(BinOp::I64Rotr)
    } else if j == 113 {
        InstrKind::Binary(BinOp::F32Add)
    } else if j == 114 {
        InstrKind::Binary(BinOp::F32Sub)
    } else if j == 115 {
        InstrKind::Binary(BinOp::F32Mul)
    } else if j == 116 {
        InstrKind::Binary(BinOp::F32Div)
    } else if j == 117 {
        InstrKind::Binary(BinOp::F32Min)
    } else if j == 118 {
        InstrKind::Binary(BinOp::F32Max)
    } else if j == 119 {
        InstrKind::Binary(BinOp::F32Copysign)
    } else {
        InstrKind::Nop
    }
}

pub open spec fn mono_kind_chunk4(j: int) -> InstrKind {
    if j == 120 {
        InstrKind::Binary(BinOp::F64Add)
    } else if j == 121 {
        InstrKind::Binary(BinOp::F64Sub)
    } else if j == 122 {
        InstrKind::Binary(BinOp::F64Mul)
    } else if j == 123 {
        InstrKind::Binary(BinOp::F64Div)
    } else if j == 124 {
        InstrKind::Binary(BinOp::F64Min)
    } else if j == 125 {
        InstrKind::Binary(BinOp::F64Max)
    } else if j == 126 {
        InstrKind::Binary(BinOp::F64Copysign)
    } else if j == 127 {
        InstrKind::Load(LoadOp::I32Load)
    } else if j == 128 {
        InstrKind::Load(LoadOp::I32Load8S)
    } else if j == 129 {
        InstrKind::Load(LoadOp::I32Load8U)
    } else if j == 130 {
        InstrKind::Load(LoadOp::I32Load16S)
    } else if j == 131 {
        InstrKind::Load(LoadOp::I32Load16U)
    } else if j == 132 {
        InstrKind::Load(LoadOp::I64Load)
    } else if j == 133 {
        InstrKind::Load(LoadOp::I64Load8S)
    } else if j == 134 {
        InstrKind::Load(LoadOp::I64Load8U)
    } else if j == 135 {
        InstrKind::Load(LoadOp::I64Load16S)
    } else if j == 136 {
        InstrKind::Load(LoadOp::I64Load16U)
    } else if j == 137 {
        InstrKind::Load(LoadOp::I64Load32S)
    } else if j == 138 {
        InstrKind::Load(LoadOp::I64Load32U)
    } else if j == 139 {
        InstrKind::Load(LoadOp::F32Load)
    } else if j == 140 {
        InstrKind::Load(LoadOp::F64Load)
    } else if j == 141 {
        InstrKind::Store(StoreOp::I32Store)
    } else if j == 142 {
        InstrKind::Store(StoreOp::I32Store8)
    } else if j == 143 {
        InstrKind::Store(StoreOp::I32Store16)
    } else if j == 144 {
        InstrKind::Store(StoreOp::I64Store)
    } else if j == 145 {
        InstrKind::Store(StoreOp::I64Store8)
    } else if j == 146 {
        InstrKind::Store(StoreOp::I64Store16)
    } else if j == 147 {
        InstrKind::Store(StoreOp::I64Store32)
    } else if j == 148 {
        InstrKind::Store(StoreOp::F32Store)
    } else if j == 149 {
        InstrKind::Store(StoreOp::F64Store)
    } else {
        InstrKind::Nop
    }
}

pub fn mono_kind_for(j: usize) -> (k: InstrKind)
    requires
        j < MONO_COUNT,
    ensures
        k == mono_kind_at(j as int),
        is_grouped(k),
        spec_mono_index(k) == j,
{
    match j {
        0 => InstrKind::Const(ValType::I32),
        1 => InstrKind::Const(ValType::I64),
        2 => InstrKind::Const(ValType::F32),
        3 => InstrKind::Const(ValType::F64),
        4 => InstrKind::Unary(UnOp::I32Eqz),
        5 => InstrKind::Unary(UnOp::I64Eqz),
        6 => InstrKind::Unary(UnOp::I32Clz),
        7 => InstrKind::Unary(UnOp::I32Ctz),
        8 => InstrKind::Unary(UnOp::I32Popcnt),
        9 => InstrKind::Unary(UnOp::I64Clz),
        10 => InstrKind::Unary(UnOp::I64Ctz),
        11 => InstrKind::Unary(UnOp::I64Popcnt),
        12 => InstrKind::Unary(UnOp::F32Abs),
        13 => InstrKind::Unary(UnOp::F32Neg),
        14 => InstrKind::Unary(UnOp::F32Ceil),
        15 => InstrKind::Unary(UnOp::F32Floor),
        16 => InstrKind::Unary(UnOp::F32Trunc),
        17 => InstrKind::Unary(UnOp::F32Nearest),
        18 => InstrKind::Unary(UnOp::F32Sqrt),
        19 => InstrKind::Unary(UnOp::F64Abs),
        20 => InstrKind::Unary(UnOp::F64Neg),
        21 => InstrKind::Unary(UnOp::F64Ceil),
        22 => InstrKind::Unary(UnOp::F64Floor),
        23 => InstrKind::Unary(UnOp::F64Trunc),
        24 => InstrKind::Unary(UnOp::F64Nearest),
        25 => InstrKind::Unary(UnOp::F64Sqrt),
        26 => InstrKind::Unary(UnOp::I32WrapI64),
        27 => InstrKind::Unary(UnOp::I32TruncSF32),
        28 => InstrKind::Unary(UnOp::I32TruncUF32),
        29 => InstrKind::Unary(UnOp::I32TruncSF64),
        30 => InstrKind::Unary(UnOp::I32TruncUF64),
        31 => InstrKind::Unary(UnOp::I64ExtendSI32),
        32 => InstrKind::Unary(UnOp::I64ExtendUI32),
        33 => InstrKind::Unary(UnOp::I64TruncSF32),
        34 => InstrKind::Unary(UnOp::I64TruncUF32),
        35 => InstrKind::Unary(UnOp::I64TruncSF64),
        36 => InstrKind::Unary(UnOp::I64TruncUF64),
        37 => InstrKind::Unary(UnOp::F32ConvertSI32),
        38 => InstrKind::Unary(UnOp::F32ConvertUI32),
        39 => InstrKind::Unary(UnOp::F32ConvertSI64),
        40 => InstrKind::Unary(UnOp::F32ConvertUI64),
        41 => InstrKind::Unary(UnOp::F32DemoteF64),
        42 => InstrKind::Unary(UnOp::F64ConvertSI32),
        43 => InstrKind::Unary(UnOp::F64ConvertUI32),
        44 => InstrKind::Unary(UnOp::F64ConvertSI64),
        45 => InstrKind::Unary(UnOp::F64ConvertUI64),
        46 => InstrKind::Unary(UnOp::F64PromoteF32),
        47 => InstrKind::Unary(UnOp::I32ReinterpretF32),
        48 => InstrKind::Unary(UnOp::I64ReinterpretF64),
        49 => InstrKind::Unary(UnOp::F32ReinterpretI32),
        50 => InstrKind::Unary(UnOp::F64ReinterpretI64),
        51 => InstrKind::Binary(BinOp::I32Eq),
        52 => InstrKind::Binary(BinOp::I32Ne),
        53 => InstrKind::Binary(BinOp::I32LtS),
        54 => InstrKind::Binary(BinOp::I32LtU),
        55 => InstrKind::Binary(BinOp::I32GtS),
        56 => InstrKind::Binary(BinOp::I32GtU),
        57 => InstrKind::Binary(BinOp::I32LeS),
        58 => InstrKind::Binary(BinOp::I32LeU),
        59 => InstrKind::Binary(BinOp::I32GeS),
        60 => InstrKind::Binary(BinOp::I32GeU),
        61 => InstrKind::Binary(BinOp::I64Eq),
        62 => InstrKind::Binary(BinOp::I64Ne),
        63 => InstrKind::Binary(BinOp::I64LtS),
        64 => InstrKind::Binary(BinOp::I64LtU),
        65 => InstrKind::Binary(BinOp::I64GtS),
        66 => InstrKind::Binary(BinOp::I64GtU),
        67 => InstrKind::Binary(BinOp::I64LeS),
        68 => InstrKind::Binary(BinOp::I64LeU),
        69 => InstrKind::Binary(BinOp::I64GeS),
        70 => InstrKind::Binary(BinOp::I64GeU),
        71 => InstrKind::Binary(BinOp::F32Eq),
        72 => InstrKind::Binary(BinOp::F32Ne),
        73 => InstrKind::Binary(BinOp::F32Lt),
        74 => InstrKind::Binary(BinOp::F32Gt),
        75 => InstrKind::Binary(BinOp::F32Le),
        76 => InstrKind::Binary(BinOp::F32Ge),
        77 => InstrKind::Binary(BinOp::F64Eq),
        78 => InstrKind::Binary(BinOp::F64Ne),
        79 => InstrKind::Binary(BinOp::F64Lt),
        80 => InstrKind::Binary(BinOp::F64Gt),
        81 => InstrKind::Binary(BinOp::F64Le),
        82 => InstrKind::Binary(BinOp::F64Ge),
        83 => InstrKind::Binary(BinOp::I32Add),
        84 => InstrKind::Binary(BinOp::I32Sub),
        85 => InstrKind::Binary(BinOp::I32Mul),
        86 => InstrKind::Binary(BinOp::I32DivS),
        87 => InstrKind::Binary(BinOp::I32DivU),
        88 => InstrKind::Binary(BinOp::I32RemS),
        89 => InstrKind::Binary(BinOp::I32RemU),
        90 => InstrKind::Binary(BinOp::I32And),
        91 => InstrKind::Binary(BinOp::I32Or),
        92 => InstrKind::Binary(BinOp::I32Xor),
        93 => InstrKind::Binary(BinOp::I32Shl),
        94 => InstrKind::Binary(BinOp::I32ShrS),
        95 => InstrKind::Binary(BinOp::I32ShrU),
        96 => InstrKind::Binary(BinOp::I32Rotl),
        97 => InstrKind::Binary(BinOp::I32Rotr),
        98 => InstrKind::Binary(BinOp::I64Add),
        99 => InstrKind::Binary(BinOp::I64Sub),
        100 => InstrKind::Binary(BinOp::I64Mul),
        101 => InstrKind::Binary(BinOp::I64DivS),
        102 => InstrKind::Binary(BinOp::I64DivU),
        103 => InstrKind::Binary(BinOp::I64RemS),
        104 => InstrKind::Binary(BinOp::I64RemU),
        105 => InstrKind::Binary(BinOp::I64And),
        106 => InstrKind::Binary(BinOp::I64Or),
        107 => InstrKind::Binary(BinOp::I64Xor),
        108 => InstrKind::Binary(BinOp::I64Shl),
        109 => InstrKind::Binary(BinOp::I64ShrS),
        110 => InstrKind::Binary(BinOp::I64ShrU),
        111 => InstrKind::Binary(BinOp::I64Rotl),
        112 => InstrKind::Binary(BinOp::I64Rotr),
        113 => InstrKind::Binary(BinOp::F32Add),
        114 => InstrKind::Binary(BinOp::F32Sub),
        115 => InstrKind::Binary(BinOp::F32Mul),
        116 => InstrKind::Binary(BinOp::F32Div),
        117 => InstrKind::Binary(BinOp::F32Min),
        118 => InstrKind::Binary(BinOp::F32Max),
        119 => InstrKind::Binary(BinOp::F32Copysign),
        120 => InstrKind::Binary(BinOp::F64Add),
        121 => InstrKind::Binary(BinOp::F64Sub),
        122 => InstrKind::Binary(BinOp::F64Mul),
        123 => InstrKind::Binary(BinOp::F64Div),
        124 => InstrKind::Binary(BinOp::F64Min),
        125 => InstrKind::Binary(BinOp::F64Max),
        126 => InstrKind::Binary(BinOp::F64Copysign),
        127 => InstrKind::Load(LoadOp::I32Load),
        128 => InstrKind::Load(LoadOp::I32Load8S),
        129 => InstrKind::Load(LoadOp::I32Load8U),
        130 => InstrKind::Load(LoadOp::I32Load16S),
        131 => InstrKind::Load(LoadOp::I32Load16U),
        132 => InstrKind::Load(LoadOp::I64Load),
        133 => InstrKind::Load(LoadOp::I64Load8S),
        134 => InstrKind::Load(LoadOp::I64Load8U),
        135 => InstrKind::Load(LoadOp::I64Load16S),
        136 => InstrKind::Load(LoadOp::I64Load16U),
        137 => InstrKind::Load(LoadOp::I64Load32S),
        138 => InstrKind::Load(LoadOp::I64Load32U),
        139 => InstrKind::Load(LoadOp::F32Load),
        140 => InstrKind::Load(LoadOp::F64Load),
        141 => InstrKind::Store(StoreOp::I32Store),
        142 => InstrKind::Store(StoreOp::I32Store8),
        143 => InstrKind::Store(StoreOp::I32Store16),
        144 => InstrKind::Store(StoreOp::I64Store),
        145 => InstrKind::Store(StoreOp::I64Store8),
        146 => InstrKind::Store(StoreOp::I64Store16),
        147 => InstrKind::Store(StoreOp::I64Store32),
        148 => InstrKind::Store(StoreOp::F32Store),
        149 => InstrKind::Store(StoreOp::F64Store),
        _ => InstrKind::Nop,
    }
}

/// Every grouped kind is found at its own position of the registration order.
pub proof fn lemma_mono_index_at(k: InstrKind)
    requires
        is_grouped(k),
    ensures
        0 <= spec_mono_index(k) < MONO_COUNT,
        mono_kind_at(spec_mono_index(k)) == k,
{
}

} // verus!
