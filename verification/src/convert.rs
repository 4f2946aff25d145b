use vstd::prelude::*;

use crate::ops::{BinOp, Instr, UnOp, Val, ValType};

verus! {

/// The shape an operand type takes at the host boundary: `i64` becomes two
/// `i32` slots, every other type stays as it is.
pub open spec fn spec_convert_ty(t: ValType) -> Seq<ValType> {
    if t == ValType::I64 {
        seq![ValType::I32, ValType::I32]
    } else {
        seq![t]
    }
}

/// `spec_convert_ty` applied to each type in order, concatenated.
pub open spec fn spec_convert_tys(ts: Seq<ValType>) -> Seq<ValType>
    decreases ts.len(),
{
    if ts.len() == 0 {
        Seq::empty()
    } else {
        spec_convert_ty(ts[0]) + spec_convert_tys(ts.drop_first())
    }
}

pub proof fn lemma_convert_tys_push(ts: Seq<ValType>, t: ValType)
    ensures
        spec_convert_tys(ts.push(t)) == spec_convert_tys(ts) + spec_convert_ty(t),
    decreases ts.len(),
{
    if ts.len() == 0 {
        assert(ts.push(t).drop_first() =~= Seq::<ValType>::empty());
        assert(spec_convert_tys(Seq::<ValType>::empty()) =~= Seq::<ValType>::empty());
        assert(spec_convert_tys(ts.push(t)) =~= spec_convert_ty(t));
        assert(spec_convert_tys(ts) + spec_convert_ty(t) =~= spec_convert_ty(t));
    } else {
        assert(ts.push(t).drop_first() =~= ts.drop_first().push(t));
        lemma_convert_tys_push(ts.drop_first(), t);
        assert(spec_convert_tys(ts.push(t)) =~= spec_convert_tys(ts) + spec_convert_ty(t));
    }
}

pub fn convert_i64_type(ty: ValType) -> (r: Vec<ValType>)
    ensures
        r@ == spec_convert_ty(ty),
{
    let mut r: Vec<ValType> = Vec::new();
    match ty {
        ValType::I64 => {
            r.push(ValType::I32);
            r.push(ValType::I32);
            proof {
                assert(r@ =~= spec_convert_ty(ty));
            }
        },
        _ => {
            r.push(ty);
            proof {
                assert(r@ =~= spec_convert_ty(ty));
            }
        },
    }
    r
}

/// `spec_convert_ty` over a whole type vector, as executable code.
pub fn convert_i64_types(tys: &[ValType]) -> (r: Vec<ValType>)
    ensures
        r@ == spec_convert_tys(tys@),
{
    let mut r: Vec<ValType> = Vec::new();
    let mut i: usize = 0;
    while i < tys.len()
        invariant
            0 <= i <= tys@.len(),
            r@ == spec_convert_tys(tys@.take(i as int)),
        decreases tys@.len() - i,
    {
        let ty = tys[i];
        match ty {
            ValType::I64 => {
                r.push(ValType::I32);
                r.push(ValType::I32);
            },
            _ => {
                r.push(ty);
            },
        }
        i = i + 1;
        proof {
            assert(tys@.take(i as int) =~= tys@.take(i as int - 1).push(tys@[i - 1]));
            lemma_convert_tys_push(tys@.take(i as int - 1), tys@[i - 1]);
            assert(r@ =~= spec_convert_tys(tys@.take(i as int)));
        }
    }
    proof {
        assert(tys@.take(tys@.len() as int) =~= tys@);
    }
    r
}

/// Instructions whose immediates carry no heap data, so the pass may emit the
/// same instruction value more than once.
pub open spec fn is_repeatable(i: Instr) -> bool {
    match i {
        Instr::GetLocal(_) => true,
        Instr::GetGlobal(_) => true,
        Instr::Const(_) => true,
        _ => false,
    }
}

/// The sequence a value-producing instruction expands to when its value of
/// type `ty` must cross the host boundary: an `i64` value is produced twice
/// and wrapped into its low half first, then its high half; any other value
/// is produced once, unchanged.
pub open spec fn spec_convert_instr(i: Instr, ty: ValType) -> Seq<Instr> {
    if ty == ValType::I64 {
        seq![
            i,
            Instr::Unary(UnOp::I32WrapI64),
            i,
            Instr::Const(Val::I64(32)),
            Instr::Binary(BinOp::I64ShrU),
            Instr::Unary(UnOp::I32WrapI64),
        ]
    } else {
        seq![i]
    }
}

fn repeat_instr(i: &Instr) -> (r: Instr)
    requires
        is_repeatable(*i),
    ensures
        r == *i,
{
    match i {
        Instr::GetLocal(l) => Instr::GetLocal(*l),
        Instr::GetGlobal(g) => Instr::GetGlobal(*g),
        Instr::Const(v) => Instr::Const(*v),
        _ => {
            proof {
                assert(false);
            }
            Instr::Nop
        },
    }
}

pub fn convert_i64_instr(i: Instr, ty: ValType) -> (r: Vec<Instr>)
    requires
        is_repeatable(i),
    ensures
        r@ == spec_convert_instr(i, ty),
{
    let mut r: Vec<Instr> = Vec::new();
    match ty {
        ValType::I64 => {
            let copy = repeat_instr(&i);
            r.push(copy);
            r.push(Instr::Unary(UnOp::I32WrapI64));
            r.push(i);
            r.push(Instr::Const(Val::I64(32)));
            r.push(Instr::Binary(BinOp::I64ShrU));
            r.push(Instr::Unary(UnOp::I32WrapI64));
            proof {
                assert(r@ =~= spec_convert_instr(i, ty));
            }
        },
        _ => {
            r.push(i);
            proof {
                assert(r@ =~= spec_convert_instr(i, ty));
            }
        },
    }
    r
}

} // verus!
