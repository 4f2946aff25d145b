use vstd::prelude::*;

use crate::control::{spec_begins, spec_label_target, Begin};
use crate::hooks::{hook_fn_ok, Hooks};
use crate::ops::{Instr, ValType};
use crate::rewrite::{lemma_fold_begins, rw_fold, step_brs, step_emit, step_local_tys};
use crate::spill::{spec_restore_seq, spec_save_seq};
use crate::static_info::FunctionInfo;

verus! {

/// After rewriting a whole well-nested body, the control stack is empty:
/// every region the body opened, the rewrite closed.
pub proof fn lemma_control_stack_empty(
    h: Hooks,
    finfo: Seq<FunctionInfo>,
    globals: Seq<ValType>,
    params: Seq<ValType>,
    results: Seq<ValType>,
    fidx: int,
    nbr: int,
    locals0: Seq<ValType>,
    body: Seq<Instr>,
)
    requires
        spec_begins(body, body.len() as int).len() == 0,
    ensures
        rw_fold(h, finfo, globals, params, results, fidx, nbr, locals0, body, body.len() as int)
            .begins.len() == 0,
{
    lemma_fold_begins(
        h,
        finfo,
        globals,
        params,
        results,
        fidx,
        nbr,
        locals0,
        body,
        body.len() as int,
    );
}

/// The rewrite's side table only grows, and grown entries never change.
pub proof fn lemma_fold_brs_prefix(
    h: Hooks,
    finfo: Seq<FunctionInfo>,
    globals: Seq<ValType>,
    params: Seq<ValType>,
    results: Seq<ValType>,
    fidx: int,
    nbr: int,
    locals0: Seq<ValType>,
    body: Seq<Instr>,
    m: int,
    n: int,
)
    requires
        0 <= m <= n,
    ensures
        ({
            let a = rw_fold(h, finfo, globals, params, results, fidx, nbr, locals0, body, m).brs;
            let b = rw_fold(h, finfo, globals, params, results, fidx, nbr, locals0, body, n).brs;
            &&& a.len() <= b.len()
            &&& forall|j: int| 0 <= j < a.len() ==> a[j] == #[trigger] b[j]
        }),
    decreases n,
{
    if n > 0 {
        if m == n {
        } else {
            lemma_fold_brs_prefix(
                h,
                finfo,
                globals,
                params,
                results,
                fidx,
                nbr,
                locals0,
                body,
                m,
                n - 1,
            );
        }
    }
}

/// Every rewritten `br_table` emits a valid side-table index, and the entry
/// that index names holds exactly the instruction's target labels in order
/// and its default label. The index is relative to the table as it stood
/// when the function's rewrite began, offset by this function's earlier
/// `br_table`s.
pub proof fn lemma_br_table_entry(
    h: Hooks,
    finfo: Seq<FunctionInfo>,
    globals: Seq<ValType>,
    params: Seq<ValType>,
    results: Seq<ValType>,
    fidx: int,
    nbr: int,
    locals0: Seq<ValType>,
    body: Seq<Instr>,
    k: int,
)
    requires
        0 <= k < body.len(),
        body[k] is BrTable,
    ensures
        ({
            let pre = rw_fold(h, finfo, globals, params, results, fidx, nbr, locals0, body, k);
            let end = rw_fold(
                h,
                finfo,
                globals,
                params,
                results,
                fidx,
                nbr,
                locals0,
                body,
                body.len() as int,
            );
            // the fourth emitted instruction is the side-table index constant
            &&& step_emit(
                h,
                finfo,
                globals,
                params,
                results,
                fidx,
                k,
                nbr + pre.brs.len(),
                pre.begins,
                pre.locals,
                body[k],
            )[3] == crate::rewrite::ci(nbr + pre.brs.len())
            // that index names a valid entry of the finished side table
            &&& 0 <= pre.brs.len() < end.brs.len()
            // and the entry holds the instruction's own labels
            &&& end.brs[pre.brs.len() as int] == (body[k]->BrTable_0@, body[k]->BrTable_1)
        }),
{
    let pre = rw_fold(h, finfo, globals, params, results, fidx, nbr, locals0, body, k);
    let post = rw_fold(h, finfo, globals, params, results, fidx, nbr, locals0, body, k + 1);
    assert(post.brs == pre.brs + step_brs(body[k]));
    assert(step_brs(body[k]) == seq![(body[k]->BrTable_0@, body[k]->BrTable_1)]);
    assert(post.brs[pre.brs.len() as int] == (body[k]->BrTable_0@, body[k]->BrTable_1));
    lemma_fold_brs_prefix(
        h,
        finfo,
        globals,
        params,
        results,
        fidx,
        nbr,
        locals0,
        body,
        k + 1,
        body.len() as int,
    );
}

/// A function with no values to save needs no spill code: saving and
/// restoring an empty run of locals emits nothing.
pub proof fn lemma_empty_spill()
    ensures
        spec_save_seq(Seq::<u32>::empty()) == Seq::<Instr>::empty(),
        spec_restore_seq(Seq::<u32>::empty(), Seq::<ValType>::empty()) == Seq::<Instr>::empty(),
{
}

/// A branch with label zero lands on the begin-index of the innermost open
/// region: for a `loop` that is the back edge, for a `block` the region's
/// begin stands in for its end.
pub proof fn lemma_label_zero_resolution(st: Seq<Begin>, b: u32)
    ensures
        spec_label_target(st.push(Begin::Loop(b)), 0) == b,
        spec_label_target(st.push(Begin::Block(b)), 0) == b,
        spec_label_target(st.push(Begin::If(b)), 0) == b,
        spec_label_target(st.push(Begin::Else(b)), 0) == b,
{
}

/// No polymorphic, `call_result`, monomorphic or original call is a begin or
/// end hook call: their indices lie outside the fixed hooks' range.
proof fn lemma_not_begin_end(h: Hooks, orig_len: int, x: u32)
    requires
        h.positioned(orig_len),
        0 <= orig_len,
        x < orig_len + h.poly.entries@.len() + h.call_result@.len() + 4 || x > orig_len
            + h.poly.entries@.len() + h.call_result@.len() + 13,
    ensures
        !is_begin_call(h, Instr::Call(x)),
        !is_end_call(h, Instr::Call(x)),
{
}

proof fn lemma_poly_call_plain(h: Hooks, orig_len: int, k: crate::ops::InstrKind, tys: Seq<ValType>)
    requires
        h.positioned(orig_len),
        0 <= orig_len,
        h.poly.spec_contains(k, tys),
    ensures
        !is_begin_call(h, crate::rewrite::poly_call(h, k, tys)),
        !is_end_call(h, crate::rewrite::poly_call(h, k, tys)),
{
    lemma_contains_implies_lookup(h.poly.entries@, k, tys);
    lemma_lookup_value(h.poly.entries@, k, tys);
    let j = choose|j: int|
        0 <= j < h.poly.entries@.len() && (#[trigger] h.poly.entries@[j]).2
            == crate::hooks::spec_lookup(h.poly.entries@, k, tys)->0;
    lemma_not_begin_end(h, orig_len, h.poly.entries@[j].2);
}

proof fn lemma_cr_call_plain(h: Hooks, orig_len: int, tys: Seq<ValType>)
    requires
        h.positioned(orig_len),
        0 <= orig_len,
        crate::hooks::cr_contains(h.call_result@, tys),
    ensures
        !is_begin_call(h, crate::rewrite::cr_call(h, tys)),
        !is_end_call(h, crate::rewrite::cr_call(h, tys)),
{
    lemma_cr_contains_implies_lookup(h.call_result@, tys);
    lemma_cr_value(h.call_result@, tys);
    let j = choose|j: int|
        0 <= j < h.call_result@.len() && (#[trigger] h.call_result@[j]).1
            == crate::hooks::spec_cr_lookup(h.call_result@, tys)->0;
    lemma_not_begin_end(h, orig_len, h.call_result@[j].1);
}

proof fn lemma_mono_call_plain(h: Hooks, orig_len: int, i: Instr)
    requires
        h.positioned(orig_len),
        0 <= orig_len,
        crate::ops::is_grouped(crate::ops::spec_kind_of(i)),
    ensures
        !is_begin_call(h, crate::rewrite::mono_call(h, i)),
        !is_end_call(h, crate::rewrite::mono_call(h, i)),
{
    crate::ops::lemma_mono_index_at(crate::ops::spec_kind_of(i));
    lemma_not_begin_end(h, orig_len, h.mono@[crate::ops::spec_mono_index(crate::ops::spec_kind_of(i))]);
}


proof fn lemma_count_single(h: Hooks, s: Seq<Instr>)
    requires
        s.len() == 1,
    ensures
        count_begin(h, s) == if is_begin_call(h, s[0]) {
            1int
        } else {
            0int
        },
        count_end(h, s) == if is_end_call(h, s[0]) {
            1int
        } else {
            0int
        },
{
    assert(s.drop_last() =~= Seq::<Instr>::empty());
    assert(count_begin(h, Seq::<Instr>::empty()) == 0);
    assert(count_end(h, Seq::<Instr>::empty()) == 0);
}

proof fn lemma_count_two(h: Hooks, s: Seq<Instr>)
    requires
        s.len() == 2,
    ensures
        count_begin(h, s) == (if is_begin_call(h, s[0]) {
            1int
        } else {
            0int
        }) + (if is_begin_call(h, s[1]) {
            1int
        } else {
            0int
        }),
        count_end(h, s) == (if is_end_call(h, s[0]) {
            1int
        } else {
            0int
        }) + (if is_end_call(h, s[1]) {
            1int
        } else {
            0int
        }),
{
    lemma_count_single(h, s.drop_last());
    assert(s.drop_last()[0] == s[0]);
}

#[verifier::rlimit(100)]
proof fn lemma_vars_counts(
    h: Hooks,
    finfo: Seq<FunctionInfo>,
    globals: Seq<ValType>,
    params: Seq<ValType>,
    results: Seq<ValType>,
    fidx: int,
    iidx: int,
    ntbl: int,
    begins: Seq<Begin>,
    locs: Seq<ValType>,
    i: Instr,
)
    requires
        h.positioned(finfo.len() as int),
        crate::rewrite::prim_covered(h),
        crate::rewrite::instr_ok(h, finfo, globals, params, results, params.len() + locs.len() as int, i),
        crate::rewrite::is_vars(i),
    ensures
        count_begin(h, step_emit(h, finfo, globals, params, results, fidx, iidx, ntbl, begins, locs, i)) == 0,
        count_end(h, step_emit(h, finfo, globals, params, results, fidx, iidx, ntbl, begins, locs, i)) == 0,
{
    let orig_len = finfo.len() as int;
    let piece = step_emit(h, finfo, globals, params, results, fidx, iidx, ntbl, begins, locs, i);
    match i {
        Instr::GetLocal(k) => {
            let ty = crate::rewrite::local_ty_at(params, locs, k as int);
            let front = seq![Instr::GetLocal(k)] + crate::rewrite::loc(fidx, iidx) + seq![
                crate::rewrite::ci(k as int),
            ];
            let conv = crate::convert::spec_convert_instr(Instr::GetLocal(k), ty);
            let callp = seq![crate::rewrite::poly_call(h, crate::ops::InstrKind::GetLocal, seq![ty])];
            assert(piece =~= front + conv + callp);
            assert forall|j: int| 0 <= j < front.len() implies !((#[trigger] front[j]) is Call) by {}
            lemma_count_zero(h, front);
            assert forall|j: int| 0 <= j < conv.len() implies !((#[trigger] conv[j]) is Call) by {}
            lemma_count_zero(h, conv);
            lemma_poly_call_plain(h, orig_len, crate::ops::InstrKind::GetLocal, seq![ty]);
            lemma_count_single(h, callp);
            assert(count_begin(h, callp) == 0 && count_end(h, callp) == 0);
            lemma_count_concat(h, front + conv, callp);
            lemma_count_concat(h, front, conv);
        },
        Instr::SetLocal(k) => {
            let ty = crate::rewrite::local_ty_at(params, locs, k as int);
            let front = seq![Instr::SetLocal(k)] + crate::rewrite::loc(fidx, iidx) + seq![
                crate::rewrite::ci(k as int),
            ];
            let conv = crate::convert::spec_convert_instr(Instr::GetLocal(k), ty);
            let callp = seq![crate::rewrite::poly_call(h, crate::ops::InstrKind::SetLocal, seq![ty])];
            assert(piece =~= front + conv + callp);
            assert forall|j: int| 0 <= j < front.len() implies !((#[trigger] front[j]) is Call) by {}
            lemma_count_zero(h, front);
            assert forall|j: int| 0 <= j < conv.len() implies !((#[trigger] conv[j]) is Call) by {}
            lemma_count_zero(h, conv);
            lemma_poly_call_plain(h, orig_len, crate::ops::InstrKind::SetLocal, seq![ty]);
            lemma_count_single(h, callp);
            assert(count_begin(h, callp) == 0 && count_end(h, callp) == 0);
            lemma_count_concat(h, front + conv, callp);
            lemma_count_concat(h, front, conv);
        },
        Instr::TeeLocal(k) => {
            let ty = crate::rewrite::local_ty_at(params, locs, k as int);
            let front = seq![Instr::TeeLocal(k)] + crate::rewrite::loc(fidx, iidx) + seq![
                crate::rewrite::ci(k as int),
            ];
            let conv = crate::convert::spec_convert_instr(Instr::GetLocal(k), ty);
            let callp = seq![crate::rewrite::poly_call(h, crate::ops::InstrKind::TeeLocal, seq![ty])];
            assert(piece =~= front + conv + callp);
            assert forall|j: int| 0 <= j < front.len() implies !((#[trigger] front[j]) is Call) by {}
            lemma_count_zero(h, front);
            assert forall|j: int| 0 <= j < conv.len() implies !((#[trigger] conv[j]) is Call) by {}
            lemma_count_zero(h, conv);
            lemma_poly_call_plain(h, orig_len, crate::ops::InstrKind::TeeLocal, seq![ty]);
            lemma_count_single(h, callp);
            assert(count_begin(h, callp) == 0 && count_end(h, callp) == 0);
            lemma_count_concat(h, front + conv, callp);
            lemma_count_concat(h, front, conv);
        },
        Instr::GetGlobal(g) => {
            let ty = globals[g as int];
            let front = seq![Instr::GetGlobal(g)] + crate::rewrite::loc(fidx, iidx) + seq![
                crate::rewrite::ci(g as int),
            ];
            let conv = crate::convert::spec_convert_instr(Instr::GetGlobal(g), ty);
            let callp = seq![crate::rewrite::poly_call(h, crate::ops::InstrKind::GetGlobal, seq![ty])];
            assert(piece =~= front + conv + callp);
            assert forall|j: int| 0 <= j < front.len() implies !((#[trigger] front[j]) is Call) by {}
            lemma_count_zero(h, front);
            assert forall|j: int| 0 <= j < conv.len() implies !((#[trigger] conv[j]) is Call) by {}
            lemma_count_zero(h, conv);
            lemma_poly_call_plain(h, orig_len, crate::ops::InstrKind::GetGlobal, seq![ty]);
            lemma_count_single(h, callp);
            assert(count_begin(h, callp) == 0 && count_end(h, callp) == 0);
            lemma_count_concat(h, front + conv, callp);
            lemma_count_concat(h, front, conv);
        },
        Instr::SetGlobal(g) => {
            let ty = globals[g as int];
            let front = seq![Instr::SetGlobal(g)] + crate::rewrite::loc(fidx, iidx) + seq![
                crate::rewrite::ci(g as int),
            ];
            let conv = crate::convert::spec_convert_instr(Instr::GetGlobal(g), ty);
            let callp = seq![crate::rewrite::poly_call(h, crate::ops::InstrKind::SetGlobal, seq![ty])];
            assert(piece =~= front + conv + callp);
            assert forall|j: int| 0 <= j < front.len() implies !((#[trigger] front[j]) is Call) by {}
            lemma_count_zero(h, front);
            assert forall|j: int| 0 <= j < conv.len() implies !((#[trigger] conv[j]) is Call) by {}
            lemma_count_zero(h, conv);
            lemma_poly_call_plain(h, orig_len, crate::ops::InstrKind::SetGlobal, seq![ty]);
            lemma_count_single(h, callp);
            assert(count_begin(h, callp) == 0 && count_end(h, callp) == 0);
            lemma_count_concat(h, front + conv, callp);
            lemma_count_concat(h, front, conv);
        },
        Instr::Const(v) => {
            let front = crate::rewrite::loc(fidx, iidx);
            let conv = crate::convert::spec_convert_instr(Instr::Const(v), v.spec_ty());
            let callp = seq![crate::rewrite::mono_call(h, i), Instr::Const(v)];
            assert(piece =~= front + conv + callp);
            assert forall|j: int| 0 <= j < front.len() implies !((#[trigger] front[j]) is Call) by {}
            lemma_count_zero(h, front);
            assert forall|j: int| 0 <= j < conv.len() implies !((#[trigger] conv[j]) is Call) by {}
            lemma_count_zero(h, conv);
            lemma_mono_call_plain(h, orig_len, i);
            lemma_count_two(h, callp);
            assert(count_begin(h, callp) == 0 && count_end(h, callp) == 0);
            lemma_count_concat(h, front + conv, callp);
            lemma_count_concat(h, front, conv);
        },
        _ => {
            assert(false);
        },
    }
}

#[verifier::rlimit(100)]
proof fn lemma_num_counts(
    h: Hooks,
    finfo: Seq<FunctionInfo>,
    globals: Seq<ValType>,
    params: Seq<ValType>,
    results: Seq<ValType>,
    fidx: int,
    iidx: int,
    ntbl: int,
    begins: Seq<Begin>,
    locs: Seq<ValType>,
    i: Instr,
)
    requires
        h.positioned(finfo.len() as int),
        crate::rewrite::instr_ok(h, finfo, globals, params, results, params.len() + locs.len() as int, i),
        crate::rewrite::is_num(i),
    ensures
        count_begin(h, step_emit(h, finfo, globals, params, results, fidx, iidx, ntbl, begins, locs, i)) == 0,
        count_end(h, step_emit(h, finfo, globals, params, results, fidx, iidx, ntbl, begins, locs, i)) == 0,
{
    let orig_len = finfo.len() as int;
    let piece = step_emit(h, finfo, globals, params, results, fidx, iidx, ntbl, begins, locs, i);
    let nl = params.len() + locs.len() as int;
    lemma_mono_call_plain(h, orig_len, i);
    match i {
        Instr::Unary(op) => {
            let it = crate::ops::spec_unop_tys(op).0;
            let rt = crate::ops::spec_unop_tys(op).1;
            let front = seq![
                Instr::TeeLocal(nl as u32),
                Instr::Unary(op),
                Instr::TeeLocal((nl + 1) as u32),
            ] + crate::rewrite::loc(fidx, iidx);
            let rest = spec_restore_seq(seq![nl as u32, (nl + 1) as u32], seq![it, rt]);
            let callp = seq![crate::rewrite::mono_call(h, i)];
            assert(piece =~= front + rest + callp);
            assert forall|j: int| 0 <= j < front.len() implies !((#[trigger] front[j]) is Call) by {}
            lemma_count_zero(h, front);
            lemma_save_restore_counts(h, seq![nl as u32, (nl + 1) as u32], seq![it, rt]);
            lemma_count_single(h, callp);
            lemma_count_concat(h, front + rest, callp);
            lemma_count_concat(h, front, rest);
        },
        Instr::Binary(op) => {
            let ft = crate::ops::spec_binop_tys(op).0;
            let st = crate::ops::spec_binop_tys(op).1;
            let rt = crate::ops::spec_binop_tys(op).2;
            let save = spec_save_seq(seq![nl as u32, (nl + 1) as u32]);
            let mid = seq![Instr::Binary(op), Instr::TeeLocal((nl + 2) as u32)] + crate::rewrite::loc(
                fidx,
                iidx,
            );
            let rest = spec_restore_seq(
                seq![nl as u32, (nl + 1) as u32, (nl + 2) as u32],
                seq![ft, st, rt],
            );
            let callp = seq![crate::rewrite::mono_call(h, i)];
            assert(piece =~= save + mid + rest + callp);
            lemma_save_restore_counts(h, seq![nl as u32, (nl + 1) as u32], seq![ft, st]);
            assert forall|j: int| 0 <= j < mid.len() implies !((#[trigger] mid[j]) is Call) by {}
            lemma_count_zero(h, mid);
            lemma_save_restore_counts(
                h,
                seq![nl as u32, (nl + 1) as u32, (nl + 2) as u32],
                seq![ft, st, rt],
            );
            lemma_count_single(h, callp);
            lemma_count_concat(h, save + mid + rest, callp);
            lemma_count_concat(h, save + mid, rest);
            lemma_count_concat(h, save, mid);
        },
        Instr::Load(op, ma) => {
            let ty = crate::ops::spec_load_ty(op);
            let front = seq![
                Instr::TeeLocal(nl as u32),
                Instr::Load(op, ma),
                Instr::TeeLocal((nl + 1) as u32),
            ] + crate::rewrite::loc(fidx, iidx) + seq![
                crate::rewrite::ci(ma.offset as int),
                crate::rewrite::ci(ma.alignment as int),
            ];
            let rest = spec_restore_seq(seq![nl as u32, (nl + 1) as u32], seq![ValType::I32, ty]);
            let callp = seq![crate::rewrite::mono_call(h, i)];
            assert(piece =~= front + rest + callp);
            assert forall|j: int| 0 <= j < front.len() implies !((#[trigger] front[j]) is Call) by {}
            lemma_count_zero(h, front);
            lemma_save_restore_counts(h, seq![nl as u32, (nl + 1) as u32], seq![ValType::I32, ty]);
            lemma_count_single(h, callp);
            lemma_count_concat(h, front + rest, callp);
            lemma_count_concat(h, front, rest);
        },
        Instr::Store(op, ma) => {
            let ty = crate::ops::spec_store_ty(op);
            let save = spec_save_seq(seq![nl as u32, (nl + 1) as u32]);
            let mid = seq![Instr::Store(op, ma)] + crate::rewrite::loc(fidx, iidx) + seq![
                crate::rewrite::ci(ma.offset as int),
                crate::rewrite::ci(ma.alignment as int),
            ];
            let rest = spec_restore_seq(seq![nl as u32, (nl + 1) as u32], seq![ValType::I32, ty]);
            let callp = seq![crate::rewrite::mono_call(h, i)];
            assert(piece =~= save + mid + rest + callp);
            lemma_save_restore_counts(h, seq![nl as u32, (nl + 1) as u32], seq![ValType::I32, ty]);
            assert forall|j: int| 0 <= j < mid.len() implies !((#[trigger] mid[j]) is Call) by {}
            lemma_count_zero(h, mid);
            lemma_count_single(h, callp);
            lemma_count_concat(h, save + mid + rest, callp);
            lemma_count_concat(h, save + mid, rest);
            lemma_count_concat(h, save, mid);
        },
        _ => {
            assert(false);
        },
    }
}

#[verifier::rlimit(100)]
proof fn lemma_calls_counts(
    h: Hooks,
    finfo: Seq<FunctionInfo>,
    globals: Seq<ValType>,
    params: Seq<ValType>,
    results: Seq<ValType>,
    fidx: int,
    iidx: int,
    ntbl: int,
    begins: Seq<Begin>,
    locs: Seq<ValType>,
    i: Instr,
)
    requires
        h.positioned(finfo.len() as int),
        crate::rewrite::instr_ok(h, finfo, globals, params, results, params.len() + locs.len() as int, i),
        crate::rewrite::is_calls(i),
    ensures
        count_begin(h, step_emit(h, finfo, globals, params, results, fidx, iidx, ntbl, begins, locs, i)) == 0,
        count_end(h, step_emit(h, finfo, globals, params, results, fidx, iidx, ntbl, begins, locs, i)) == 0,
{
    let orig_len = finfo.len() as int;
    let piece = step_emit(h, finfo, globals, params, results, fidx, iidx, ntbl, begins, locs, i);
    let nl = params.len() + locs.len() as int;
    match i {
        Instr::Return => {
            let tmps = crate::rewrite::fresh_idxs(nl, results.len() as int);
            let save = spec_save_seq(tmps);
            let mid = crate::rewrite::loc(fidx, iidx);
            let rest = spec_restore_seq(tmps, results);
            let callp = seq![
                crate::rewrite::poly_call(h, crate::ops::InstrKind::Return, results),
                Instr::Return,
            ];
            assert(piece =~= save + mid + rest + callp);
            lemma_save_restore_counts(h, tmps, results);
            assert forall|j: int| 0 <= j < mid.len() implies !((#[trigger] mid[j]) is Call) by {}
            lemma_count_zero(h, mid);
            lemma_poly_call_plain(h, orig_len, crate::ops::InstrKind::Return, results);
            lemma_count_two(h, callp);
            assert(count_begin(h, callp) == 0 && count_end(h, callp) == 0);
            lemma_count_concat(h, save + mid + rest, callp);
            lemma_count_concat(h, save + mid, rest);
            lemma_count_concat(h, save, mid);
        },
        Instr::Call(t) => {
            let ats = finfo[t as int].type_.params@;
            let rts = finfo[t as int].type_.results@;
            let atmps = crate::rewrite::fresh_idxs(nl, ats.len() as int);
            let rtmps = crate::rewrite::fresh_idxs(nl + ats.len(), rts.len() as int);
            let p1 = spec_save_seq(atmps);
            let p2 = crate::rewrite::loc(fidx, iidx) + seq![crate::rewrite::ci(t as int)];
            let p3 = spec_restore_seq(atmps, ats);
            let p4 = seq![
                crate::rewrite::poly_call(h, crate::ops::InstrKind::Call, ats),
                Instr::Call(t),
            ];
            let p5 = spec_save_seq(rtmps);
            let p6 = crate::rewrite::loc(fidx, iidx);
            let p7 = spec_restore_seq(rtmps, rts);
            let p8 = seq![crate::rewrite::cr_call(h, rts)];
            assert(piece =~= p1 + p2 + p3 + p4 + p5 + p6 + p7 + p8);
            lemma_save_restore_counts(h, atmps, ats);
            lemma_save_restore_counts(h, rtmps, rts);
            assert forall|j: int| 0 <= j < p2.len() implies !((#[trigger] p2[j]) is Call) by {}
            lemma_count_zero(h, p2);
            assert forall|j: int| 0 <= j < p6.len() implies !((#[trigger] p6[j]) is Call) by {}
            lemma_count_zero(h, p6);
            lemma_poly_call_plain(h, orig_len, crate::ops::InstrKind::Call, ats);
            lemma_not_begin_end(h, orig_len, t);
            lemma_count_two(h, p4);
            assert(count_begin(h, p4) == 0 && count_end(h, p4) == 0);
            lemma_cr_call_plain(h, orig_len, rts);
            lemma_count_single(h, p8);
            lemma_count_concat(h, p1 + p2 + p3 + p4 + p5 + p6 + p7, p8);
            lemma_count_concat(h, p1 + p2 + p3 + p4 + p5 + p6, p7);
            lemma_count_concat(h, p1 + p2 + p3 + p4 + p5, p6);
            lemma_count_concat(h, p1 + p2 + p3 + p4, p5);
            lemma_count_concat(h, p1 + p2 + p3, p4);
            lemma_count_concat(h, p1 + p2, p3);
            lemma_count_concat(h, p1, p2);
        },
        Instr::CallIndirect(ft, tbl) => {
            let ats = ft.params@;
            let rts = ft.results@;
            let ttmp = nl as u32;
            let atmps = crate::rewrite::fresh_idxs(nl + 1, ats.len() as int);
            let rtmps = crate::rewrite::fresh_idxs(nl + 1 + ats.len(), rts.len() as int);
            let p1 = seq![Instr::SetLocal(ttmp)];
            let p2 = spec_save_seq(atmps);
            let p3 = seq![Instr::GetLocal(ttmp)] + crate::rewrite::loc(fidx, iidx) + seq![
                Instr::GetLocal(ttmp),
            ];
            let p4 = spec_restore_seq(atmps, ats);
            let p5 = seq![
                crate::rewrite::poly_call(h, crate::ops::InstrKind::CallIndirect, ats),
                Instr::CallIndirect(ft, tbl),
            ];
            let p6 = spec_save_seq(rtmps);
            let p7 = crate::rewrite::loc(fidx, iidx);
            let p8 = spec_restore_seq(rtmps, rts);
            let p9 = seq![crate::rewrite::cr_call(h, rts)];
            assert(piece =~= p1 + p2 + p3 + p4 + p5 + p6 + p7 + p8 + p9);
            lemma_count_zero(h, p1);
            lemma_save_restore_counts(h, atmps, ats);
            lemma_save_restore_counts(h, rtmps, rts);
            assert forall|j: int| 0 <= j < p3.len() implies !((#[trigger] p3[j]) is Call) by {}
            lemma_count_zero(h, p3);
            assert forall|j: int| 0 <= j < p7.len() implies !((#[trigger] p7[j]) is Call) by {}
            lemma_count_zero(h, p7);
            lemma_poly_call_plain(h, orig_len, crate::ops::InstrKind::CallIndirect, ats);
            lemma_count_two(h, p5);
            assert(count_begin(h, p5) == 0 && count_end(h, p5) == 0);
            lemma_cr_call_plain(h, orig_len, rts);
            lemma_count_single(h, p9);
            lemma_count_concat(h, p1 + p2 + p3 + p4 + p5 + p6 + p7 + p8, p9);
            lemma_count_concat(h, p1 + p2 + p3 + p4 + p5 + p6 + p7, p8);
            lemma_count_concat(h, p1 + p2 + p3 + p4 + p5 + p6, p7);
            lemma_count_concat(h, p1 + p2 + p3 + p4 + p5, p6);
            lemma_count_concat(h, p1 + p2 + p3 + p4, p5);
            lemma_count_concat(h, p1 + p2 + p3, p4);
            lemma_count_concat(h, p1 + p2, p3);
            lemma_count_concat(h, p1, p2);
        },
        _ => {
            assert(false);
        },
    }
}

/// The number of begin-hook calls in an instrumented body equals the number
/// of end-hook calls and equals the number of structured regions of the
/// original body plus one for the function itself.
pub proof fn lemma_begin_end_balance(
    h: Hooks,
    finfo: Seq<FunctionInfo>,
    globals: Seq<ValType>,
    params: Seq<ValType>,
    results: Seq<ValType>,
    fidx: int,
    nbr: int,
    locals0: Seq<ValType>,
    body: Seq<Instr>,
    n: int,
)
    requires
        h.positioned(finfo.len() as int),
        crate::rewrite::prim_covered(h),
        0 <= n <= body.len(),
        forall|k: int|
            0 <= k < body.len() ==> crate::rewrite::instr_ok(
                h,
                finfo,
                globals,
                params,
                results,
                params.len() + rw_fold(
                    h,
                    finfo,
                    globals,
                    params,
                    results,
                    fidx,
                    nbr,
                    locals0,
                    body,
                    k,
                ).locals.len() as int,
                #[trigger] body[k],
            ),
    ensures
        count_begin(
            h,
            rw_fold(h, finfo, globals, params, results, fidx, nbr, locals0, body, n).out,
        ) == regions_upto(body, n) + 1,
        count_end(
            h,
            rw_fold(h, finfo, globals, params, results, fidx, nbr, locals0, body, n).out,
        ) == closers_upto(body, n),
    decreases n,
{
    broadcast use lemma_count_begin_push;
    broadcast use lemma_count_end_push;
    if n == 0 {
        let pro = crate::rewrite::prologue(h, fidx);
        assert(pro =~= Seq::<Instr>::empty().push(crate::rewrite::ci(fidx)).push(
            Instr::Const(crate::ops::Val::I32(-1i32)),
        ).push(Instr::Call(h.begin_function_hook)));
    } else {
        lemma_begin_end_balance(
            h,
            finfo,
            globals,
            params,
            results,
            fidx,
            nbr,
            locals0,
            body,
            n - 1,
        );
        let st = rw_fold(h, finfo, globals, params, results, fidx, nbr, locals0, body, n - 1);
        let i = body[n - 1];
        let piece = step_emit(
            h,
            finfo,
            globals,
            params,
            results,
            fidx,
            n - 1,
            nbr + st.brs.len(),
            st.begins,
            st.locals,
            i,
        );
        lemma_count_concat(h, st.out, piece);
        if crate::rewrite::is_vars(i) {
            lemma_vars_counts(
                h,
                finfo,
                globals,
                params,
                results,
                fidx,
                n - 1,
                nbr + st.brs.len() as int,
                st.begins,
                st.locals,
                i,
            );
        } else if crate::rewrite::is_num(i) {
            lemma_num_counts(
                h,
                finfo,
                globals,
                params,
                results,
                fidx,
                n - 1,
                nbr + st.brs.len() as int,
                st.begins,
                st.locals,
                i,
            );
        } else if crate::rewrite::is_calls(i) {
            lemma_calls_counts(
                h,
                finfo,
                globals,
                params,
                results,
                fidx,
                n - 1,
                nbr + st.brs.len() as int,
                st.begins,
                st.locals,
                i,
            );
        } else {
            lemma_step_counts(
                h,
                finfo,
                globals,
                params,
                results,
                fidx,
                n - 1,
                nbr + st.brs.len() as int,
                st.begins,
                st.locals,
                i,
            );
        }
    }
}

/// In a well-nested body, the closers (`else` and `end`) outnumber the
/// openers (`block`, `loop`, `if`, `else`) by exactly one: together with the
/// balance above, an instrumented body holds as many begin-hook calls as
/// end-hook calls.
pub proof fn lemma_nested_closers(body: Seq<Instr>, n: int)
    requires
        0 <= n <= body.len(),
        forall|k: int|
            0 <= k < body.len() ==> crate::control::begins_ok_step(
                #[trigger] spec_begins(body, k),
                body[k],
            ),
    ensures
        spec_begins(body, n).len() == 1 + regions_upto(body, n) - closers_upto(body, n),
    decreases n,
{
    if n > 0 {
        lemma_nested_closers(body, n - 1);
    }
}

/// The begin/end balance of a whole well-nested instrumented body: as many
/// begin-hook calls as end-hook calls, one pair per structured region plus
/// one for the function itself.
pub proof fn lemma_begin_end_equal(
    h: Hooks,
    finfo: Seq<FunctionInfo>,
    globals: Seq<ValType>,
    params: Seq<ValType>,
    results: Seq<ValType>,
    fidx: int,
    nbr: int,
    locals0: Seq<ValType>,
    body: Seq<Instr>,
)
    requires
        h.positioned(finfo.len() as int),
        crate::rewrite::prim_covered(h),
        forall|k: int|
            0 <= k < body.len() ==> crate::rewrite::instr_ok(
                h,
                finfo,
                globals,
                params,
                results,
                params.len() + rw_fold(
                    h,
                    finfo,
                    globals,
                    params,
                    results,
                    fidx,
                    nbr,
                    locals0,
                    body,
                    k,
                ).locals.len() as int,
                #[trigger] body[k],
            ),
        forall|k: int|
            0 <= k < body.len() ==> crate::control::begins_ok_step(
                #[trigger] spec_begins(body, k),
                body[k],
            ),
        spec_begins(body, body.len() as int).len() == 0,
    ensures
        ({
            let out = rw_fold(
                h,
                finfo,
                globals,
                params,
                results,
                fidx,
                nbr,
                locals0,
                body,
                body.len() as int,
            ).out;
            &&& count_begin(h, out) == count_end(h, out)
            &&& count_begin(h, out) == regions_upto(body, body.len() as int) + 1
        }),
{
    lemma_begin_end_balance(
        h,
        finfo,
        globals,
        params,
        results,
        fidx,
        nbr,
        locals0,
        body,
        body.len() as int,
    );
    lemma_nested_closers(body, body.len() as int);
}

/// A call of one of the five begin hooks.
pub open spec fn is_begin_call(h: Hooks, i: Instr) -> bool {
    ||| i == Instr::Call(h.begin_function_hook)
    ||| i == Instr::Call(h.begin_block_hook)
    ||| i == Instr::Call(h.begin_loop_hook)
    ||| i == Instr::Call(h.begin_if_hook)
    ||| i == Instr::Call(h.begin_else_hook)
}

/// A call of one of the five end hooks.
pub open spec fn is_end_call(h: Hooks, i: Instr) -> bool {
    ||| i == Instr::Call(h.end_function_hook)
    ||| i == Instr::Call(h.end_block_hook)
    ||| i == Instr::Call(h.end_loop_hook)
    ||| i == Instr::Call(h.end_if_hook)
    ||| i == Instr::Call(h.end_else_hook)
}

/// How many begin-hook calls a sequence holds.
pub open spec fn count_begin(h: Hooks, s: Seq<Instr>) -> int
    decreases s.len(),
{
    if s.len() == 0 {
        0
    } else {
        count_begin(h, s.drop_last()) + if is_begin_call(h, s.last()) {
            1int
        } else {
            0int
        }
    }
}

/// How many end-hook calls a sequence holds.
pub open spec fn count_end(h: Hooks, s: Seq<Instr>) -> int
    decreases s.len(),
{
    if s.len() == 0 {
        0
    } else {
        count_end(h, s.drop_last()) + if is_end_call(h, s.last()) {
            1int
        } else {
            0int
        }
    }
}

/// How many structured regions the first `n` original instructions open:
/// each `block`, `loop`, `if` and `else` begins one.
pub open spec fn regions_upto(body: Seq<Instr>, n: int) -> int
    decreases n,
{
    if n <= 0 {
        0
    } else {
        regions_upto(body, n - 1) + if crate::control::opens_region(
            crate::ops::spec_kind_of(body[n - 1]),
        ) {
            1int
        } else {
            0int
        }
    }
}

/// How many instructions of the first `n` close a region: `else` and `end`.
pub open spec fn closers_upto(body: Seq<Instr>, n: int) -> int
    decreases n,
{
    if n <= 0 {
        0
    } else {
        closers_upto(body, n - 1) + if body[n - 1] is Else || body[n - 1] is End {
            1int
        } else {
            0int
        }
    }
}

pub broadcast proof fn lemma_count_begin_push(h: Hooks, s: Seq<Instr>, x: Instr)
    ensures
        #[trigger] count_begin(h, s.push(x)) == count_begin(h, s) + if is_begin_call(h, x) {
            1int
        } else {
            0int
        },
{
    assert(s.push(x).drop_last() =~= s);
    assert(s.push(x).last() == x);
}

pub broadcast proof fn lemma_count_end_push(h: Hooks, s: Seq<Instr>, x: Instr)
    ensures
        #[trigger] count_end(h, s.push(x)) == count_end(h, s) + if is_end_call(h, x) {
            1int
        } else {
            0int
        },
{
    assert(s.push(x).drop_last() =~= s);
    assert(s.push(x).last() == x);
}

proof fn lemma_count_concat(h: Hooks, a: Seq<Instr>, b: Seq<Instr>)
    ensures
        count_begin(h, a + b) == count_begin(h, a) + count_begin(h, b),
        count_end(h, a + b) == count_end(h, a) + count_end(h, b),
    decreases b.len(),
{
    if b.len() == 0 {
        assert(a + b =~= a);
    } else {
        assert((a + b).drop_last() =~= a + b.drop_last());
        assert((a + b).last() == b.last());
        lemma_count_concat(h, a, b.drop_last());
    }
}

proof fn lemma_count_zero(h: Hooks, s: Seq<Instr>)
    requires
        forall|j: int| 0 <= j < s.len() ==> !((#[trigger] s[j]) is Call),
    ensures
        count_begin(h, s) == 0,
        count_end(h, s) == 0,
    decreases s.len(),
{
    if s.len() > 0 {
        lemma_count_zero(h, s.drop_last());
    }
}

proof fn lemma_save_restore_counts(h: Hooks, locals: Seq<u32>, tys: Seq<ValType>)
    ensures
        count_begin(h, spec_save_seq(locals)) == 0,
        count_end(h, spec_save_seq(locals)) == 0,
        count_begin(h, spec_restore_seq(locals, tys)) == 0,
        count_end(h, spec_restore_seq(locals, tys)) == 0,
    decreases tys.len(),
{
    assert forall|j: int| 0 <= j < spec_save_seq(locals).len() implies !((
    #[trigger] spec_save_seq(locals)[j]) is Call) by {}
    lemma_count_zero(h, spec_save_seq(locals));
    if tys.len() == 0 || locals.len() == 0 {
        lemma_count_zero(h, spec_restore_seq(locals, tys));
    } else {
        let piece = crate::convert::spec_convert_instr(Instr::GetLocal(locals[0]), tys[0]);
        assert forall|j: int| 0 <= j < piece.len() implies !((#[trigger] piece[j]) is Call) by {}
        lemma_count_zero(h, piece);
        lemma_save_restore_counts(h, locals.drop_first(), tys.drop_first());
        lemma_count_concat(h, piece, spec_restore_seq(locals.drop_first(), tys.drop_first()));
    }
}

proof fn lemma_lookup_value(
    entries: Seq<(crate::ops::InstrKind, Vec<ValType>, u32)>,
    k: crate::ops::InstrKind,
    tys: Seq<ValType>,
)
    requires
        crate::hooks::spec_lookup(entries, k, tys) is Some,
    ensures
        exists|j: int|
            0 <= j < entries.len() && (#[trigger] entries[j]).2 == crate::hooks::spec_lookup(
                entries,
                k,
                tys,
            )->0,
    decreases entries.len(),
{
    if entries.len() > 0 {
        if entries[0].0 == k && entries[0].1@ == tys {
            assert(entries[0].2 == crate::hooks::spec_lookup(entries, k, tys)->0);
        } else {
            lemma_lookup_value(entries.drop_first(), k, tys);
            let j = choose|j: int|
                0 <= j < entries.drop_first().len() && (#[trigger] entries.drop_first()[j]).2
                    == crate::hooks::spec_lookup(entries.drop_first(), k, tys)->0;
            assert(entries[j + 1].2 == crate::hooks::spec_lookup(entries, k, tys)->0);
        }
    }
}

proof fn lemma_cr_value(entries: Seq<(Vec<ValType>, u32)>, tys: Seq<ValType>)
    requires
        crate::hooks::spec_cr_lookup(entries, tys) is Some,
    ensures
        exists|j: int|
            0 <= j < entries.len() && (#[trigger] entries[j]).1 == crate::hooks::spec_cr_lookup(
                entries,
                tys,
            )->0,
    decreases entries.len(),
{
    if entries.len() > 0 {
        if entries[0].0@ == tys {
            assert(entries[0].1 == crate::hooks::spec_cr_lookup(entries, tys)->0);
        } else {
            lemma_cr_value(entries.drop_first(), tys);
            let j = choose|j: int|
                0 <= j < entries.drop_first().len() && (#[trigger] entries.drop_first()[j]).1
                    == crate::hooks::spec_cr_lookup(entries.drop_first(), tys)->0;
            assert(entries[j + 1].1 == crate::hooks::spec_cr_lookup(entries, tys)->0);
        }
    }
}

proof fn lemma_contains_implies_lookup(
    entries: Seq<(crate::ops::InstrKind, Vec<ValType>, u32)>,
    k: crate::ops::InstrKind,
    tys: Seq<ValType>,
)
    requires
        exists|j: int|
            0 <= j < entries.len() && (#[trigger] entries[j]).0 == k && entries[j].1@ == tys,
    ensures
        crate::hooks::spec_lookup(entries, k, tys) is Some,
    decreases entries.len(),
{
    if entries.len() > 0 {
        if entries[0].0 == k && entries[0].1@ == tys {
        } else {
            let j = choose|j: int|
                0 <= j < entries.len() && (#[trigger] entries[j]).0 == k && entries[j].1@ == tys;
            assert(entries.drop_first()[j - 1] == entries[j]);
            lemma_contains_implies_lookup(entries.drop_first(), k, tys);
        }
    }
}

proof fn lemma_cr_contains_implies_lookup(entries: Seq<(Vec<ValType>, u32)>, tys: Seq<ValType>)
    requires
        crate::hooks::cr_contains(entries, tys),
    ensures
        crate::hooks::spec_cr_lookup(entries, tys) is Some,
    decreases entries.len(),
{
    if entries.len() > 0 {
        if entries[0].0@ == tys {
        } else {
            let j = choose|j: int| 0 <= j < entries.len() && (#[trigger] entries[j]).0@ == tys;
            assert(entries.drop_first()[j - 1] == entries[j]);
            lemma_cr_contains_implies_lookup(entries.drop_first(), tys);
        }
    }
}

#[verifier::rlimit(100)]
proof fn lemma_step_counts(
    h: Hooks,
    finfo: Seq<FunctionInfo>,
    globals: Seq<ValType>,
    params: Seq<ValType>,
    results: Seq<ValType>,
    fidx: int,
    iidx: int,
    ntbl: int,
    begins: Seq<Begin>,
    locs: Seq<ValType>,
    i: Instr,
)
    requires
        h.positioned(finfo.len() as int),
        crate::rewrite::prim_covered(h),
        crate::rewrite::instr_ok(h, finfo, globals, params, results, params.len() + locs.len() as int, i),
    ensures
        count_begin(h, step_emit(h, finfo, globals, params, results, fidx, iidx, ntbl, begins, locs, i))
            == if crate::control::opens_region(crate::ops::spec_kind_of(i)) {
            1int
        } else {
            0int
        },
        count_end(h, step_emit(h, finfo, globals, params, results, fidx, iidx, ntbl, begins, locs, i))
            == if i is Else || i is End {
            1int
        } else {
            0int
        },
{
    broadcast use lemma_count_begin_push;
    broadcast use lemma_count_end_push;
    let orig_len = finfo.len() as int;
    let piece = step_emit(h, finfo, globals, params, results, fidx, iidx, ntbl, begins, locs, i);
    let nl = params.len() + locs.len() as int;
    let e = Seq::<Instr>::empty();
    assert(count_begin(h, e) == 0 && count_end(h, e) == 0);
    match i {
        Instr::Block(bt) => {
            assert(piece =~= e.push(Instr::Block(bt)).push(crate::rewrite::ci(fidx)).push(
                crate::rewrite::ci(iidx),
            ).push(Instr::Call(h.begin_block_hook)));
        },
        Instr::Loop(bt) => {
            assert(piece =~= e.push(Instr::Loop(bt)).push(crate::rewrite::ci(fidx)).push(
                crate::rewrite::ci(iidx),
            ).push(Instr::Call(h.begin_loop_hook)));
        },
        Instr::If(bt) => {
            assert(piece =~= e.push(Instr::TeeLocal(nl as u32)).push(crate::rewrite::ci(fidx)).push(
                crate::rewrite::ci(iidx),
            ).push(Instr::GetLocal(nl as u32)).push(Instr::Call(h.if_hook)).push(Instr::If(bt)).push(
                crate::rewrite::ci(fidx),
            ).push(crate::rewrite::ci(iidx)).push(Instr::Call(h.begin_if_hook)));
        },
        Instr::Else => {
            let b = begins.last()->If_0;
            assert(piece =~= e.push(crate::rewrite::ci(fidx)).push(crate::rewrite::ci(iidx)).push(
                crate::rewrite::ci(b as int),
            ).push(Instr::Call(h.end_else_hook)).push(Instr::Else).push(crate::rewrite::ci(fidx)).push(
                crate::rewrite::ci(iidx),
            ).push(Instr::Call(h.begin_else_hook)));
        },
        Instr::End => {
            match begins.last() {
                Begin::Function => {
                    assert(piece =~= e.push(crate::rewrite::ci(fidx)).push(
                        crate::rewrite::ci(iidx),
                    ).push(Instr::Call(h.end_function_hook)).push(Instr::End));
                },
                Begin::Block(b) => {
                    assert(piece =~= e.push(crate::rewrite::ci(fidx)).push(
                        crate::rewrite::ci(iidx),
                    ).push(crate::rewrite::ci(b as int)).push(Instr::Call(h.end_block_hook)).push(
                        Instr::End,
                    ));
                },
                Begin::Loop(b) => {
                    assert(piece =~= e.push(crate::rewrite::ci(fidx)).push(
                        crate::rewrite::ci(iidx),
                    ).push(crate::rewrite::ci(b as int)).push(Instr::Call(h.end_loop_hook)).push(
                        Instr::End,
                    ));
                },
                Begin::If(b) => {
                    assert(piece =~= e.push(crate::rewrite::ci(fidx)).push(
                        crate::rewrite::ci(iidx),
                    ).push(crate::rewrite::ci(b as int)).push(Instr::Call(h.end_if_hook)).push(
                        Instr::End,
                    ));
                },
                Begin::Else(b) => {
                    assert(piece =~= e.push(crate::rewrite::ci(fidx)).push(
                        crate::rewrite::ci(iidx),
                    ).push(crate::rewrite::ci(b as int)).push(Instr::Call(h.end_else_hook)).push(
                        Instr::End,
                    ));
                },
            }
        },
        Instr::Nop => {
            assert(piece =~= e.push(Instr::Nop).push(crate::rewrite::ci(fidx)).push(
                crate::rewrite::ci(iidx),
            ).push(Instr::Call(h.nop_hook)));
        },
        Instr::Unreachable => {
            assert(piece =~= e.push(Instr::Unreachable).push(crate::rewrite::ci(fidx)).push(
                crate::rewrite::ci(iidx),
            ).push(Instr::Call(h.unreachable_hook)));
        },
        Instr::Drop => {
            assert(piece =~= e.push(Instr::Drop).push(crate::rewrite::ci(fidx)).push(
                crate::rewrite::ci(iidx),
            ).push(Instr::Call(h.drop_hook)));
        },
        Instr::Select => {
            assert(piece =~= e.push(Instr::TeeLocal(nl as u32)).push(Instr::Select).push(
                crate::rewrite::ci(fidx),
            ).push(crate::rewrite::ci(iidx)).push(Instr::GetLocal(nl as u32)).push(
                Instr::Call(h.select_hook),
            ));
        },
        Instr::CurrentMemory(m) => {
            assert(piece =~= e.push(Instr::CurrentMemory(m)).push(Instr::TeeLocal(nl as u32)).push(
                crate::rewrite::ci(fidx),
            ).push(crate::rewrite::ci(iidx)).push(Instr::GetLocal(nl as u32)).push(
                Instr::Call(h.current_memory_hook),
            ));
        },
        Instr::GrowMemory(m) => {
            assert(piece =~= e.push(Instr::TeeLocal(nl as u32)).push(Instr::GrowMemory(m)).push(
                Instr::TeeLocal((nl + 1) as u32),
            ).push(crate::rewrite::ci(fidx)).push(crate::rewrite::ci(iidx)).push(
                Instr::GetLocal(nl as u32),
            ).push(Instr::GetLocal((nl + 1) as u32)).push(Instr::Call(h.grow_memory_hook)));
        },
        Instr::Br(l) => {
            assert(piece =~= e.push(crate::rewrite::ci(fidx)).push(crate::rewrite::ci(iidx)).push(
                crate::rewrite::ci(l as int),
            ).push(crate::rewrite::ci(spec_label_target(begins, l as int) as int)).push(
                Instr::Call(h.br_hook),
            ).push(Instr::Br(l)));
        },
        Instr::BrIf(l) => {
            assert(piece =~= e.push(Instr::TeeLocal(nl as u32)).push(crate::rewrite::ci(fidx)).push(
                crate::rewrite::ci(iidx),
            ).push(crate::rewrite::ci(l as int)).push(
                crate::rewrite::ci(spec_label_target(begins, l as int) as int),
            ).push(Instr::GetLocal(nl as u32)).push(Instr::Call(h.br_if_hook)).push(Instr::BrIf(l)));
        },
        Instr::BrTable(ts, d) => {
            assert(piece =~= e.push(Instr::TeeLocal(nl as u32)).push(crate::rewrite::ci(fidx)).push(
                crate::rewrite::ci(iidx),
            ).push(crate::rewrite::ci(ntbl)).push(Instr::GetLocal(nl as u32)).push(
                Instr::Call(h.br_table_hook),
            ).push(Instr::BrTable(ts, d)));
        },
        Instr::GetLocal(k) => {
            lemma_vars_counts(h, finfo, globals, params, results, fidx, iidx, ntbl, begins, locs, i);
        },
        Instr::SetLocal(k) => {
            lemma_vars_counts(h, finfo, globals, params, results, fidx, iidx, ntbl, begins, locs, i);
        },
        Instr::TeeLocal(k) => {
            lemma_vars_counts(h, finfo, globals, params, results, fidx, iidx, ntbl, begins, locs, i);
        },
        Instr::GetGlobal(g) => {
            lemma_vars_counts(h, finfo, globals, params, results, fidx, iidx, ntbl, begins, locs, i);
        },
        Instr::SetGlobal(g) => {
            lemma_vars_counts(h, finfo, globals, params, results, fidx, iidx, ntbl, begins, locs, i);
        },
        Instr::Const(v) => {
            lemma_vars_counts(h, finfo, globals, params, results, fidx, iidx, ntbl, begins, locs, i);
        },
        Instr::Unary(op) => {
            lemma_num_counts(h, finfo, globals, params, results, fidx, iidx, ntbl, begins, locs, i);
        },
        Instr::Binary(op) => {
            lemma_num_counts(h, finfo, globals, params, results, fidx, iidx, ntbl, begins, locs, i);
        },
        Instr::Load(op, ma) => {
            lemma_num_counts(h, finfo, globals, params, results, fidx, iidx, ntbl, begins, locs, i);
        },
        Instr::Store(op, ma) => {
            lemma_num_counts(h, finfo, globals, params, results, fidx, iidx, ntbl, begins, locs, i);
        },
        Instr::Return => {
            lemma_calls_counts(h, finfo, globals, params, results, fidx, iidx, ntbl, begins, locs, i);
        },
        Instr::Call(t) => {
            lemma_calls_counts(h, finfo, globals, params, results, fidx, iidx, ntbl, begins, locs, i);
        },
        Instr::CallIndirect(ft, tbl) => {
            lemma_calls_counts(h, finfo, globals, params, results, fidx, iidx, ntbl, begins, locs, i);
        },
    }
}

/// The rewrite of an indirect call of type `(i64) -> (i32)`: three fresh
/// locals are allocated (an `i32` for the target table index, an `i64` for
/// the argument, an `i32` for the result), and the emitted sequence saves the
/// target index and the argument, reports them to the pre-call hook with the
/// `i64` argument split into two `i32` halves (low before high), re-emits the
/// call, then saves and reports the result to the `call_result` hook.
pub proof fn lemma_call_indirect_i64_shape(
    h: Hooks,
    finfo: Seq<FunctionInfo>,
    globals: Seq<ValType>,
    params: Seq<ValType>,
    results: Seq<ValType>,
    fidx: int,
    iidx: int,
    ntbl: int,
    begins: Seq<Begin>,
    locs: Seq<ValType>,
    ft: crate::ops::FunctionType,
    tbl: u32,
)
    requires
        ft.params@ == seq![ValType::I64],
        ft.results@ == seq![ValType::I32],
    ensures
        step_local_tys(
            finfo,
            globals,
            params,
            results,
            locs,
            Instr::CallIndirect(ft, tbl),
        ) == seq![ValType::I32, ValType::I64, ValType::I32],
        ({
            let nl = params.len() + locs.len() as int;
            step_emit(
                h,
                finfo,
                globals,
                params,
                results,
                fidx,
                iidx,
                ntbl,
                begins,
                locs,
                Instr::CallIndirect(ft, tbl),
            ) =~= seq![
                Instr::SetLocal(nl as u32),
                Instr::TeeLocal((nl + 1) as u32),
                Instr::GetLocal(nl as u32),
                crate::rewrite::ci(fidx),
                crate::rewrite::ci(iidx),
                Instr::GetLocal(nl as u32),
                Instr::GetLocal((nl + 1) as u32),
                Instr::Unary(crate::ops::UnOp::I32WrapI64),
                Instr::GetLocal((nl + 1) as u32),
                Instr::Const(crate::ops::Val::I64(32)),
                Instr::Binary(crate::ops::BinOp::I64ShrU),
                Instr::Unary(crate::ops::UnOp::I32WrapI64),
                crate::rewrite::poly_call(h, crate::ops::InstrKind::CallIndirect, seq![ValType::I64]),
                Instr::CallIndirect(ft, tbl),
                Instr::TeeLocal((nl + 2) as u32),
                crate::rewrite::ci(fidx),
                crate::rewrite::ci(iidx),
                Instr::GetLocal((nl + 2) as u32),
                crate::rewrite::cr_call(h, seq![ValType::I32]),
            ]
        }),
{
    let nl = params.len() + locs.len() as int;
    let atmps = crate::rewrite::fresh_idxs(nl + 1, 1);
    let rtmps = crate::rewrite::fresh_idxs(nl + 2, 1);
    assert(atmps =~= seq![(nl + 1) as u32]);
    assert(rtmps =~= seq![(nl + 2) as u32]);
    assert(spec_save_seq(atmps) =~= seq![Instr::TeeLocal((nl + 1) as u32)]);
    assert(spec_save_seq(rtmps) =~= seq![Instr::TeeLocal((nl + 2) as u32)]);
    assert(atmps.drop_first() =~= Seq::<u32>::empty());
    assert(ft.params@.drop_first() =~= Seq::<ValType>::empty());
    assert(spec_restore_seq(Seq::<u32>::empty(), Seq::<ValType>::empty()) =~= Seq::<
        Instr,
    >::empty());
    assert(spec_restore_seq(atmps, ft.params@) =~= crate::convert::spec_convert_instr(
        Instr::GetLocal((nl + 1) as u32),
        ValType::I64,
    ));
    assert(rtmps.drop_first() =~= Seq::<u32>::empty());
    assert(ft.results@.drop_first() =~= Seq::<ValType>::empty());
    assert(spec_restore_seq(rtmps, ft.results@) =~= seq![Instr::GetLocal((nl + 2) as u32)]);
    assert(step_local_tys(finfo, globals, params, results, locs, Instr::CallIndirect(ft, tbl))
        =~= seq![ValType::I32, ValType::I64, ValType::I32]);
}

/// A type-level step of one straight-line instruction: values are abstracted
/// to their types; `None` means the instruction does not fit the stack (or
/// is not straight-line code). A call pops its callee's parameter types off
/// the top and pushes its result types.
pub open spec fn spill_step(
    funcs: Seq<crate::ast::Function>,
    params: Seq<ValType>,
    locals: Seq<ValType>,
    st: Seq<ValType>,
    i: Instr,
) -> Option<Seq<ValType>> {
    match i {
        Instr::Call(x) => if x < funcs.len() && st.len() >= funcs[
            x as int
        ].type_.params@.len() && st.skip(
            st.len() - funcs[x as int].type_.params@.len(),
        ) == funcs[x as int].type_.params@ {
            Some(
                st.take(st.len() - funcs[x as int].type_.params@.len()) + funcs[
                    x as int
                ].type_.results@,
            )
        } else {
            None
        },
        Instr::GetLocal(k) => if k < params.len() + locals.len() {
            Some(st.push(crate::rewrite::local_ty_at(params, locals, k as int)))
        } else {
            None
        },
        Instr::SetLocal(k) => if k < params.len() + locals.len() && st.len() > 0 && st.last()
            == crate::rewrite::local_ty_at(params, locals, k as int) {
            Some(st.drop_last())
        } else {
            None
        },
        Instr::TeeLocal(k) => if k < params.len() + locals.len() && st.len() > 0 && st.last()
            == crate::rewrite::local_ty_at(params, locals, k as int) {
            Some(st)
        } else {
            None
        },
        Instr::Const(v) => Some(st.push(v.spec_ty())),
        Instr::Unary(op) => if st.len() > 0 && st.last() == crate::ops::spec_unop_tys(op).0 {
            Some(st.drop_last().push(crate::ops::spec_unop_tys(op).1))
        } else {
            None
        },
        Instr::Binary(op) => if st.len() > 1 && st[st.len() - 2] == crate::ops::spec_binop_tys(
            op,
        ).0 && st.last() == crate::ops::spec_binop_tys(op).1 {
            Some(st.drop_last().drop_last().push(crate::ops::spec_binop_tys(op).2))
        } else {
            None
        },
        _ => None,
    }
}

/// Runs the type-level steps over a straight-line sequence.
pub open spec fn spill_eval(
    funcs: Seq<crate::ast::Function>,
    params: Seq<ValType>,
    locals: Seq<ValType>,
    st: Seq<ValType>,
    s: Seq<Instr>,
) -> Option<Seq<ValType>>
    decreases s.len(),
{
    if s.len() == 0 {
        Some(st)
    } else {
        match spill_step(funcs, params, locals, st, s[0]) {
            Some(st2) => spill_eval(funcs, params, locals, st2, s.drop_first()),
            None => None,
        }
    }
}

pub proof fn lemma_spill_eval_concat(
    funcs: Seq<crate::ast::Function>,
    params: Seq<ValType>,
    locals: Seq<ValType>,
    st: Seq<ValType>,
    a: Seq<Instr>,
    b: Seq<Instr>,
)
    ensures
        spill_eval(
            funcs,
            params, locals, st, a + b) == (match spill_eval(
            funcs,
            params, locals, st, a) {
            Some(st2) => spill_eval(
            funcs,
            params, locals, st2, b),
            None => None,
        }),
    decreases a.len(),
{
    if a.len() == 0 {
        assert(a + b =~= b);
    } else {
        assert((a + b)[0] == a[0]);
        assert((a + b).drop_first() =~= a.drop_first() + b);
        match spill_step(funcs, params, locals, st, a[0]) {
            Some(st2) => {
                lemma_spill_eval_concat(funcs, params, locals, st2, a.drop_first(), b);
            },
            None => {
            },
        }
    }
}

/// Reloading one local of type `ty` pushes exactly `spec_convert_ty(ty)` onto
/// the type stack: an `i64` local becomes its two `i32` halves, any other
/// local its own type.
pub proof fn lemma_convert_effect(
    funcs: Seq<crate::ast::Function>,
    params: Seq<ValType>,
    locals: Seq<ValType>,
    st: Seq<ValType>,
    l: u32,
    ty: ValType,
)
    requires
        l < params.len() + locals.len(),
        crate::rewrite::local_ty_at(params, locals, l as int) == ty,
    ensures
        spill_eval(
            funcs,
            params,
            locals,
            st,
            crate::convert::spec_convert_instr(Instr::GetLocal(l), ty),
        ) == Some(st + crate::convert::spec_convert_ty(ty)),
{
    reveal_with_fuel(spill_eval, 8);
    let piece = crate::convert::spec_convert_instr(Instr::GetLocal(l), ty);
    if ty == ValType::I64 {
        let st1 = st.push(ValType::I64);
        let st2 = st1.drop_last().push(ValType::I32);
        let st3 = st2.push(ValType::I64);
        let st4 = st3.push(ValType::I64);
        let st5 = st4.drop_last().drop_last().push(ValType::I64);
        let st6 = st5.drop_last().push(ValType::I32);
        assert(piece.drop_first() =~= seq![
            Instr::Unary(crate::ops::UnOp::I32WrapI64),
            Instr::GetLocal(l),
            Instr::Const(crate::ops::Val::I64(32)),
            Instr::Binary(crate::ops::BinOp::I64ShrU),
            Instr::Unary(crate::ops::UnOp::I32WrapI64),
        ]);
        assert(piece.drop_first().drop_first() =~= seq![
            Instr::GetLocal(l),
            Instr::Const(crate::ops::Val::I64(32)),
            Instr::Binary(crate::ops::BinOp::I64ShrU),
            Instr::Unary(crate::ops::UnOp::I32WrapI64),
        ]);
        assert(piece.drop_first().drop_first().drop_first() =~= seq![
            Instr::Const(crate::ops::Val::I64(32)),
            Instr::Binary(crate::ops::BinOp::I64ShrU),
            Instr::Unary(crate::ops::UnOp::I32WrapI64),
        ]);
        assert(piece.drop_first().drop_first().drop_first().drop_first() =~= seq![
            Instr::Binary(crate::ops::BinOp::I64ShrU),
            Instr::Unary(crate::ops::UnOp::I32WrapI64),
        ]);
        assert(piece.drop_first().drop_first().drop_first().drop_first().drop_first() =~= seq![
            Instr::Unary(crate::ops::UnOp::I32WrapI64),
        ]);
        assert(seq![Instr::Unary(crate::ops::UnOp::I32WrapI64)].drop_first() =~= Seq::<
            Instr,
        >::empty());
        assert(st6 =~= st + crate::convert::spec_convert_ty(ValType::I64));
    } else {
        assert(piece.drop_first() =~= Seq::<Instr>::empty());
        assert(st.push(ty) =~= st + crate::convert::spec_convert_ty(ty));
    }
}

/// The reload run pushes exactly the i64-split operand types, in order, and
/// touches nothing below them: the stack a restore-fed hook call sees ends
/// with the hook's operand part of its parameter list.
pub proof fn lemma_restore_effect(
    funcs: Seq<crate::ast::Function>,
    params: Seq<ValType>,
    locals: Seq<ValType>,
    st: Seq<ValType>,
    tmps: Seq<u32>,
    tys: Seq<ValType>,
)
    requires
        tmps.len() == tys.len(),
        forall|k: int|
            0 <= k < tmps.len() ==> #[trigger] tmps[k] < params.len() + locals.len()
                && crate::rewrite::local_ty_at(params, locals, tmps[k] as int) == tys[k],
    ensures
        spill_eval(
            funcs,
            params, locals, st, spec_restore_seq(tmps, tys)) == Some(
            st + crate::convert::spec_convert_tys(tys),
        ),
    decreases tys.len(),
{
    if tys.len() == 0 {
        assert(spec_restore_seq(tmps, tys) =~= Seq::<Instr>::empty());
        assert(crate::convert::spec_convert_tys(tys) =~= Seq::<ValType>::empty());
        assert(st + crate::convert::spec_convert_tys(tys) =~= st);
    } else {
        let piece = crate::convert::spec_convert_instr(Instr::GetLocal(tmps[0]), tys[0]);
        let rest = spec_restore_seq(tmps.drop_first(), tys.drop_first());
        assert(spec_restore_seq(tmps, tys) == piece + rest);
        lemma_convert_effect(funcs, params, locals, st, tmps[0], tys[0]);
        lemma_spill_eval_concat(funcs, params, locals, st, piece, rest);
        assert(forall|k: int|
            0 <= k < tmps.drop_first().len() ==> #[trigger] tmps.drop_first()[k] == tmps[k + 1]);
        lemma_restore_effect(
            funcs,
            params,
            locals,
            st + crate::convert::spec_convert_ty(tys[0]),
            tmps.drop_first(),
            tys.drop_first(),
        );
        assert(st + crate::convert::spec_convert_ty(tys[0]) + crate::convert::spec_convert_tys(
            tys.drop_first(),
        ) =~= st + crate::convert::spec_convert_tys(tys));
    }
}

/// At every restore-fed hook call the operand stack holds, above whatever was
/// there before, exactly the hook's declared parameter vector: the two `i32`
/// location constants, then the reloaded operands with each `i64` split into
/// two `i32` halves. Together with the registry's `hook_fn_ok`, the call
/// site's types and arity match the hook's signature.
pub proof fn lemma_hook_call_stack_matches(
    funcs: Seq<crate::ast::Function>,
    params: Seq<ValType>,
    locals: Seq<ValType>,
    st: Seq<ValType>,
    tmps: Seq<u32>,
    tys: Seq<ValType>,
    fidx: int,
    iidx: int,
)
    requires
        tmps.len() == tys.len(),
        forall|k: int|
            0 <= k < tmps.len() ==> #[trigger] tmps[k] < params.len() + locals.len()
                && crate::rewrite::local_ty_at(params, locals, tmps[k] as int) == tys[k],
    ensures
        spill_eval(
            funcs,
            params,
            locals,
            st,
            crate::rewrite::loc(fidx, iidx) + spec_restore_seq(tmps, tys),
        ) == Some(st + seq![ValType::I32, ValType::I32] + crate::convert::spec_convert_tys(tys)),
{
    reveal_with_fuel(spill_eval, 4);
    let lseq = crate::rewrite::loc(fidx, iidx);
    assert(lseq.drop_first() =~= seq![crate::rewrite::ci(iidx)]);
    assert(seq![crate::rewrite::ci(iidx)].drop_first() =~= Seq::<Instr>::empty());
    assert(spill_eval(
            funcs,
            params, locals, st, lseq) == Some(
        st.push(ValType::I32).push(ValType::I32),
    ));
    lemma_spill_eval_concat(funcs, params, locals, st, lseq, spec_restore_seq(tmps, tys));
    lemma_restore_effect(
        funcs,
        params,
        locals,
        st.push(ValType::I32).push(ValType::I32),
        tmps,
        tys,
    );
    assert(st.push(ValType::I32).push(ValType::I32) =~= st + seq![ValType::I32, ValType::I32]);
}

proof fn lemma_sets_effect(
    funcs: Seq<crate::ast::Function>,
    params: Seq<ValType>,
    locals: Seq<ValType>,
    pre: Seq<ValType>,
    tmps: Seq<u32>,
    tys: Seq<ValType>,
)
    requires
        tmps.len() == tys.len(),
        tmps.len() >= 1,
        forall|k: int|
            0 <= k < tmps.len() ==> #[trigger] tmps[k] < params.len() + locals.len()
                && crate::rewrite::local_ty_at(params, locals, tmps[k] as int) == tys[k],
    ensures
        spill_eval(
            funcs,
            params, locals, pre + tys, crate::spill::spec_sets_desc(tmps)) == Some(
            pre + tys.take(1),
        ),
    decreases tmps.len(),
{
    reveal_with_fuel(spill_eval, 2);
    let n = tmps.len() as int;
    if n == 1 {
        assert(crate::spill::spec_sets_desc(tmps) =~= Seq::<Instr>::empty());
        assert(pre + tys.take(1) =~= pre + tys);
    } else {
        assert(crate::spill::spec_sets_desc(tmps)[0] == Instr::SetLocal(tmps[n - 1]));
        assert((pre + tys).last() == tys[n - 1]);
        assert((pre + tys).drop_last() =~= pre + tys.take(n - 1));
        assert(crate::spill::spec_sets_desc(tmps).drop_first() =~= crate::spill::spec_sets_desc(
            tmps.take(n - 1),
        ));
        assert(forall|k: int|
            0 <= k < n - 1 ==> #[trigger] tmps.take(n - 1)[k] == tmps[k]);
        lemma_sets_effect(funcs, params, locals, pre, tmps.take(n - 1), tys.take(n - 1));
        assert(tys.take(n - 1).take(1) =~= tys.take(1));
    }
}

proof fn lemma_gets_effect(
    funcs: Seq<crate::ast::Function>,
    params: Seq<ValType>,
    locals: Seq<ValType>,
    st: Seq<ValType>,
    tmps: Seq<u32>,
    tys: Seq<ValType>,
)
    requires
        tmps.len() == tys.len(),
        tmps.len() >= 1,
        forall|k: int|
            0 <= k < tmps.len() ==> #[trigger] tmps[k] < params.len() + locals.len()
                && crate::rewrite::local_ty_at(params, locals, tmps[k] as int) == tys[k],
    ensures
        spill_eval(
            funcs,
            params, locals, st, crate::spill::spec_gets_asc(tmps)) == Some(
            st + tys.skip(1),
        ),
    decreases tmps.len(),
{
    reveal_with_fuel(spill_eval, 2);
    let n = tmps.len() as int;
    if n == 1 {
        assert(crate::spill::spec_gets_asc(tmps) =~= Seq::<Instr>::empty());
        assert(st + tys.skip(1) =~= st);
    } else {
        assert(crate::spill::spec_gets_asc(tmps)[0] == Instr::GetLocal(tmps[1]));
        assert(crate::spill::spec_gets_asc(tmps).drop_first() =~= crate::spill::spec_gets_asc(
            tmps.drop_first(),
        ));
        assert(forall|k: int|
            0 <= k < n - 1 ==> #[trigger] tmps.drop_first()[k] == tmps[k + 1]);
        lemma_gets_effect(funcs, params, locals, st.push(tys[1]), tmps.drop_first(), tys.drop_first());
        assert(st.push(tys[1]) + tys.drop_first().skip(1) =~= st + tys.skip(1));
    }
}

/// The save run is operand-stack neutral: assuming the stack ends with the
/// locals' types in order, storing all but the first from the top down,
/// teeing the first, and re-reading the rest leaves the stack exactly as it
/// was.
pub proof fn lemma_save_effect(
    funcs: Seq<crate::ast::Function>,
    params: Seq<ValType>,
    locals: Seq<ValType>,
    pre: Seq<ValType>,
    tmps: Seq<u32>,
    tys: Seq<ValType>,
)
    requires
        tmps.len() == tys.len(),
        forall|k: int|
            0 <= k < tmps.len() ==> #[trigger] tmps[k] < params.len() + locals.len()
                && crate::rewrite::local_ty_at(params, locals, tmps[k] as int) == tys[k],
    ensures
        spill_eval(
            funcs,
            params, locals, pre + tys, spec_save_seq(tmps)) == Some(pre + tys),
{
    reveal_with_fuel(spill_eval, 2);
    let n = tmps.len() as int;
    if n == 0 {
        assert(spec_save_seq(tmps) =~= Seq::<Instr>::empty());
    } else {
        let sets = crate::spill::spec_sets_desc(tmps);
        let tee = seq![Instr::TeeLocal(tmps[0])];
        let gets = crate::spill::spec_gets_asc(tmps);
        assert(spec_save_seq(tmps) == sets + tee + gets);
        lemma_sets_effect(funcs, params, locals, pre, tmps, tys);
        lemma_spill_eval_concat(funcs, params, locals, pre + tys, sets, tee + gets);
        let st1 = pre + tys.take(1);
        assert(st1.last() == tys[0]);
        assert(tee.drop_first() =~= Seq::<Instr>::empty());
        assert(spill_eval(
            funcs,
            params, locals, st1, tee) == Some(st1));
        lemma_spill_eval_concat(funcs, params, locals, st1, tee, gets);
        lemma_gets_effect(funcs, params, locals, st1, tmps, tys);
        assert(pre + tys.take(1) + tys.skip(1) =~= pre + tys);
        assert(sets + tee + gets =~= sets + (tee + gets));
    }
}

/// Stack neutrality of one instrumented binary operator, end to end: on any
/// type-correct stack, the whole replacement sequence (spill both operands,
/// re-run the operator, tee the result, push the location, reload operands
/// and result with i64 splitting, call the hook) reaches exactly the stack
/// the original instruction alone reaches. The hook call consumes precisely
/// its declared parameters, which `wf` pins to the group's argument types.
#[verifier::rlimit(100)]
pub proof fn lemma_binary_stack_neutral(
    h: Hooks,
    funcs: Seq<crate::ast::Function>,
    finfo: Seq<FunctionInfo>,
    globals: Seq<ValType>,
    params: Seq<ValType>,
    results: Seq<ValType>,
    fidx: int,
    iidx: int,
    ntbl: int,
    begins: Seq<Begin>,
    locs: Seq<ValType>,
    op: crate::ops::BinOp,
    st0: Seq<ValType>,
)
    requires
        h.wf(funcs),
        params.len() + locs.len() + 3 < 0x8000_0000,
    ensures
        ({
            let ft = crate::ops::spec_binop_tys(op).0;
            let s2 = crate::ops::spec_binop_tys(op).1;
            let rt = crate::ops::spec_binop_tys(op).2;
            let locs2 = locs + seq![ft, s2, rt];
            &&& spill_eval(
                funcs,
                params,
                locs2,
                st0 + seq![ft, s2],
                seq![Instr::Binary(op)],
            ) == Some(st0.push(rt))
            &&& spill_eval(
                funcs,
                params,
                locs2,
                st0 + seq![ft, s2],
                step_emit(
                    h,
                    finfo,
                    globals,
                    params,
                    results,
                    fidx,
                    iidx,
                    ntbl,
                    begins,
                    locs,
                    Instr::Binary(op),
                ),
            ) == Some(st0.push(rt))
        }),
{
    reveal_with_fuel(spill_eval, 3);
    let ft = crate::ops::spec_binop_tys(op).0;
    let s2 = crate::ops::spec_binop_tys(op).1;
    let rt = crate::ops::spec_binop_tys(op).2;
    let locs2 = locs + seq![ft, s2, rt];
    let nl = params.len() + locs.len() as int;
    let kind = crate::ops::InstrKind::Binary(op);
    crate::ops::lemma_mono_index_at(kind);
    let hook = h.mono@[crate::ops::spec_mono_index(kind)];

    assert(crate::rewrite::local_ty_at(params, locs2, nl) == ft);
    assert(crate::rewrite::local_ty_at(params, locs2, nl + 1) == s2);
    assert(crate::rewrite::local_ty_at(params, locs2, nl + 2) == rt);

    // the original instruction alone
    let start = st0 + seq![ft, s2];
    assert(start[start.len() - 2] == ft && start.last() == s2);
    assert(start.drop_last().drop_last() =~= st0);
    assert(seq![Instr::Binary(op)].drop_first() =~= Seq::<Instr>::empty());

    // the replacement, segment by segment
    let tmps2 = seq![nl as u32, (nl + 1) as u32];
    let tys2 = seq![ft, s2];
    let save = spec_save_seq(tmps2);
    let mid = seq![Instr::Binary(op), Instr::TeeLocal((nl + 2) as u32)];
    let lseq = crate::rewrite::loc(fidx, iidx);
    let tmps3 = seq![nl as u32, (nl + 1) as u32, (nl + 2) as u32];
    let tys3 = seq![ft, s2, rt];
    let rest = spec_restore_seq(tmps3, tys3);
    let callp = seq![Instr::Call(hook)];
    let piece = step_emit(
        h,
        finfo,
        globals,
        params,
        results,
        fidx,
        iidx,
        ntbl,
        begins,
        locs,
        Instr::Binary(op),
    );
    assert(piece =~= save + (mid + (lseq + (rest + callp))));

    // spilling the operands leaves the stack unchanged
    assert(tmps2[0] == nl && tmps2[1] == nl + 1);
    assert(forall|k: int|
        0 <= k < tmps2.len() ==> #[trigger] tmps2[k] < params.len() + locs2.len()
            && crate::rewrite::local_ty_at(params, locs2, tmps2[k] as int) == tys2[k]);
    lemma_save_effect(funcs, params, locs2, st0, tmps2, tys2);
    assert(st0 + tys2 =~= start);
    lemma_spill_eval_concat(funcs, params, locs2, start, save, mid + (lseq + (rest + callp)));

    // the operator runs and its result is teed
    let after_op = st0.push(rt);
    assert(mid.drop_first() =~= seq![Instr::TeeLocal((nl + 2) as u32)]);
    assert(seq![Instr::TeeLocal((nl + 2) as u32)].drop_first() =~= Seq::<Instr>::empty());
    assert(spill_eval(funcs, params, locs2, start, mid) == Some(after_op));
    lemma_spill_eval_concat(funcs, params, locs2, start, mid, lseq + (rest + callp));

    // the location constants and the reloaded operands build the hook's
    // exact parameter vector above the result
    assert(tmps3[0] == nl && tmps3[1] == nl + 1 && tmps3[2] == nl + 2);
    assert(forall|k: int|
        0 <= k < tmps3.len() ==> #[trigger] tmps3[k] < params.len() + locs2.len()
            && crate::rewrite::local_ty_at(params, locs2, tmps3[k] as int) == tys3[k]);
    lemma_hook_call_stack_matches(funcs, params, locs2, after_op, tmps3, tys3, fidx, iidx);
    assert(lseq + (rest + callp) =~= (lseq + rest) + callp);
    lemma_spill_eval_concat(funcs, params, locs2, after_op, lseq + rest, callp);

    // the hook call pops exactly its declared parameters and returns nothing
    let hargs = seq![ValType::I32, ValType::I32] + crate::convert::spec_convert_tys(tys3);
    let at_call = after_op + hargs;
    assert(hook_fn_ok(
        funcs,
        hook,
        crate::ops::spec_group_args(kind),
        crate::ops::spec_kind_name(kind),
    ));
    assert(crate::ops::spec_group_args(kind) =~= tys3);
    assert(funcs[hook as int].type_.params@ == hargs);
    assert(at_call.skip(at_call.len() - hargs.len()) =~= hargs);
    assert(at_call.take(at_call.len() - hargs.len()) =~= after_op);
    assert(funcs[hook as int].type_.results@ =~= Seq::<ValType>::empty());
    assert(spill_step(funcs, params, locs2, at_call, Instr::Call(hook)) == Some(
        after_op + funcs[hook as int].type_.results@,
    ));
    assert(after_op + funcs[hook as int].type_.results@ =~= after_op);
    assert(callp.drop_first() =~= Seq::<Instr>::empty());
    assert(spill_eval(funcs, params, locs2, at_call, callp) == Some(after_op));

    assert(spill_eval(funcs, params, locs2, start, seq![Instr::Binary(op)]) == Some(
        st0.push(rt),
    ));
    assert(spill_eval(funcs, params, locs2, after_op, lseq + rest) == Some(at_call));
    assert(spill_eval(funcs, params, locs2, after_op, (lseq + rest) + callp) == Some(after_op));
    assert(spill_eval(funcs, params, locs2, after_op, lseq + (rest + callp)) == Some(after_op));
    assert(spill_eval(funcs, params, locs2, start, mid + (lseq + (rest + callp))) == Some(
        after_op,
    ));
    assert(spill_eval(funcs, params, locs2, start, save) == Some(start));
    assert(spill_eval(funcs, params, locs2, start, piece) == Some(after_op));
}

} // verus!
