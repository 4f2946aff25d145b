use vstd::prelude::*;

use crate::convert::spec_convert_instr;
use crate::ops::{Instr, ValType};

verus! {

/// The `set_local` run that stores the stack top-down into all but the first
/// of the given locals, highest stack value first.
pub open spec fn spec_sets_desc(locals: Seq<u32>) -> Seq<Instr> {
    Seq::new((locals.len() - 1) as nat, |i: int| Instr::SetLocal(locals[locals.len() - 1 - i]))
}

/// The `get_local` run that re-pushes all but the first of the given locals,
/// in order.
pub open spec fn spec_gets_asc(locals: Seq<u32>) -> Seq<Instr> {
    Seq::new((locals.len() - 1) as nat, |i: int| Instr::GetLocal(locals[i + 1]))
}

/// The sequence that saves the top `locals.len()` stack values into the given
/// locals and re-pushes them unchanged: stores into all but the first local
/// from the top down, tees the first, then re-reads the rest in order.
pub open spec fn spec_save_seq(locals: Seq<u32>) -> Seq<Instr> {
    if locals.len() == 0 {
        Seq::empty()
    } else {
        spec_sets_desc(locals) + seq![Instr::TeeLocal(locals[0])] + spec_gets_asc(locals)
    }
}

/// Produces the save sequence: assuming the stack holds, top-down, the values
/// for the last through first local, stores them and restores the stack. The
/// locals' types must match the stack; that is the caller's burden.
pub fn save_stack_to_locals(locals: &Vec<u32>) -> (r: Vec<Instr>)
    ensures
        r@ == spec_save_seq(locals@),
{
    let mut r: Vec<Instr> = Vec::new();
    if locals.len() == 0 {
        proof {
            assert(r@ =~= spec_save_seq(locals@));
        }
        return r;
    }
    let n = locals.len();
    let mut i: usize = n - 1;
    while i >= 1
        invariant
            0 <= i <= n - 1,
            n == locals@.len(),
            r@ == spec_sets_desc(locals@).take(n - 1 - i),
        decreases i,
    {
        r.push(Instr::SetLocal(locals[i]));
        proof {
            assert(r@ =~= spec_sets_desc(locals@).take(n - i));
        }
        i = i - 1;
    }
    proof {
        assert(r@ =~= spec_sets_desc(locals@));
    }
    r.push(Instr::TeeLocal(locals[0]));
    let mut j: usize = 1;
    while j < n
        invariant
            1 <= j <= n,
            n == locals@.len(),
            r@ == spec_sets_desc(locals@) + seq![Instr::TeeLocal(locals@[0])] + spec_gets_asc(
                locals@,
            ).take(j - 1),
        decreases n - j,
    {
        r.push(Instr::GetLocal(locals[j]));
        j = j + 1;
        proof {
            assert(spec_gets_asc(locals@).take(j - 1) =~= spec_gets_asc(locals@).take(j - 2).push(
                Instr::GetLocal(locals@[j - 1]),
            ));
            assert(r@ =~= spec_sets_desc(locals@) + seq![Instr::TeeLocal(locals@[0])]
                + spec_gets_asc(locals@).take(j - 1));
        }
    }
    proof {
        assert(spec_gets_asc(locals@).take(n - 1) =~= spec_gets_asc(locals@));
        assert(r@ =~= spec_save_seq(locals@));
    }
    r
}

/// The sequence that re-pushes each local in order, expanding an `i64` local
/// into its two `i32` halves, low before high.
pub open spec fn spec_restore_seq(locals: Seq<u32>, tys: Seq<ValType>) -> Seq<Instr>
    decreases tys.len(),
{
    if tys.len() == 0 || locals.len() == 0 {
        Seq::empty()
    } else {
        spec_convert_instr(Instr::GetLocal(locals[0]), tys[0]) + spec_restore_seq(
            locals.drop_first(),
            tys.drop_first(),
        )
    }
}

pub proof fn lemma_restore_seq_push(locals: Seq<u32>, tys: Seq<ValType>, l: u32, t: ValType)
    requires
        locals.len() == tys.len(),
    ensures
        spec_restore_seq(locals.push(l), tys.push(t)) == spec_restore_seq(locals, tys)
            + spec_convert_instr(Instr::GetLocal(l), t),
    decreases tys.len(),
{
    if tys.len() == 0 {
        assert(locals.push(l).drop_first() =~= Seq::<u32>::empty());
        assert(tys.push(t).drop_first() =~= Seq::<ValType>::empty());
        assert(spec_restore_seq(Seq::<u32>::empty(), Seq::<ValType>::empty())
            =~= Seq::<Instr>::empty());
        assert(spec_restore_seq(locals.push(l), tys.push(t)) =~= spec_convert_instr(
            Instr::GetLocal(l),
            t,
        ));
        assert(spec_restore_seq(locals, tys) + spec_convert_instr(Instr::GetLocal(l), t)
            =~= spec_convert_instr(Instr::GetLocal(l), t));
    } else {
        assert(locals.push(l).drop_first() =~= locals.drop_first().push(l));
        assert(tys.push(t).drop_first() =~= tys.drop_first().push(t));
        lemma_restore_seq_push(locals.drop_first(), tys.drop_first(), l, t);
        assert(spec_restore_seq(locals.push(l), tys.push(t)) =~= spec_restore_seq(locals, tys)
            + spec_convert_instr(Instr::GetLocal(l), t));
    }
}

/// Produces the restore sequence for the given locals of the given types,
/// splitting each `i64` value into two `i32` halves, low before high.
pub fn restore_locals_with_i64_handling(locals: &Vec<u32>, local_tys: &[ValType]) -> (r: Vec<Instr>)
    requires
        locals@.len() == local_tys@.len(),
    ensures
        r@ == spec_restore_seq(locals@, local_tys@),
{
    let mut r: Vec<Instr> = Vec::new();
    let mut i: usize = 0;
    while i < locals.len()
        invariant
            0 <= i <= locals@.len(),
            locals@.len() == local_tys@.len(),
            r@ == spec_restore_seq(locals@.take(i as int), local_tys@.take(i as int)),
        decreases locals@.len() - i,
    {
        let mut piece = crate::convert::convert_i64_instr(
            Instr::GetLocal(locals[i]),
            local_tys[i],
        );
        r.append(&mut piece);
        i = i + 1;
        proof {
            assert(locals@.take(i as int) =~= locals@.take(i as int - 1).push(locals@[i - 1]));
            assert(local_tys@.take(i as int) =~= local_tys@.take(i as int - 1).push(
                local_tys@[i - 1],
            ));
            lemma_restore_seq_push(
                locals@.take(i as int - 1),
                local_tys@.take(i as int - 1),
                locals@[i - 1],
                local_tys@[i - 1],
            );
        }
    }
    proof {
        assert(locals@.take(locals@.len() as int) =~= locals@);
        assert(local_tys@.take(local_tys@.len() as int) =~= local_tys@);
    }
    r
}

} // verus!
