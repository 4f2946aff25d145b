use vstd::prelude::*;

use crate::ast::Module;
use crate::control::{begins_ok_step, begins_step, spec_begins, spec_label_target, Begin};
use crate::convert::spec_convert_instr;
use crate::hooks::{cr_contains, spec_cr_lookup, Hooks};
use crate::ops::{spec_kind_of, spec_load_ty, spec_mono_index, spec_store_ty, Instr, InstrKind, Val, ValType};
use crate::spill::{spec_restore_seq, spec_save_seq};
use crate::static_info::{FunctionInfo, ModuleInfo};

verus! {

/// The abstract outcome of rewriting a body prefix: the instrumented
/// instructions so far, the open regions, the function's full local-type
/// list (parameters excluded), and the labels of each `br_table` met so far
/// (targets, then default), in order.
pub ghost struct RwState {
    pub out: Seq<Instr>,
    pub begins: Seq<Begin>,
    pub locals: Seq<ValType>,
    pub brs: Seq<(Seq<u32>, u32)>,
}

/// An `i32.const` holding a 32-bit index.
pub open spec fn ci(x: int) -> Instr {
    Instr::Const(Val::I32(x as i32))
}

/// The two-instruction location prefix: the function index, then the
/// instruction index within the original body.
pub open spec fn loc(fidx: int, iidx: int) -> Seq<Instr> {
    seq![ci(fidx), ci(iidx)]
}

/// The type of local slot `k`: parameters first, then the local list.
pub open spec fn local_ty_at(params: Seq<ValType>, locals: Seq<ValType>, k: int) -> ValType {
    if k < params.len() {
        params[k]
    } else {
        locals[k - params.len()]
    }
}

/// The fresh local indices `base, base+1, ...` for `n` new scratch locals.
pub open spec fn fresh_idxs(base: int, n: int) -> Seq<u32> {
    Seq::new(n as nat, |i: int| (base + i) as u32)
}

/// How many scratch locals the rewrite of one instruction allocates.
pub open spec fn extra_locals(finfo: Seq<FunctionInfo>, results: Seq<ValType>, i: Instr) -> int {
    match i {
        Instr::If(_) => 1,
        Instr::Select => 1,
        Instr::CurrentMemory(_) => 1,
        Instr::GrowMemory(_) => 2,
        Instr::BrIf(_) => 1,
        Instr::BrTable(_, _) => 1,
        Instr::Return => results.len() as int,
        Instr::Call(t) => finfo[t as int].type_.params@.len() + finfo[
            t as int
        ].type_.results@.len() as int,
        Instr::CallIndirect(ft, _) => 1 + ft.params@.len() + ft.results@.len() as int,
        Instr::Unary(_) => 2,
        Instr::Binary(_) => 3,
        Instr::Load(_, _) => 2,
        Instr::Store(_, _) => 2,
        _ => 0,
    }
}

/// The scratch-local types the rewrite of one instruction appends, in
/// allocation order.
pub open spec fn step_local_tys(
    finfo: Seq<FunctionInfo>,
    globals: Seq<ValType>,
    params: Seq<ValType>,
    results: Seq<ValType>,
    locals: Seq<ValType>,
    i: Instr,
) -> Seq<ValType> {
    match i {
        Instr::If(_) => seq![ValType::I32],
        Instr::Select => seq![ValType::I32],
        Instr::CurrentMemory(_) => seq![ValType::I32],
        Instr::GrowMemory(_) => seq![ValType::I32, ValType::I32],
        Instr::BrIf(_) => seq![ValType::I32],
        Instr::BrTable(_, _) => seq![ValType::I32],
        Instr::Return => results,
        Instr::Call(t) => finfo[t as int].type_.params@ + finfo[t as int].type_.results@,
        Instr::CallIndirect(ft, _) => seq![ValType::I32] + ft.params@ + ft.results@,
        Instr::Unary(op) => seq![
            crate::ops::spec_unop_tys(op).0,
            crate::ops::spec_unop_tys(op).1,
        ],
        Instr::Binary(op) => seq![
            crate::ops::spec_binop_tys(op).0,
            crate::ops::spec_binop_tys(op).1,
            crate::ops::spec_binop_tys(op).2,
        ],
        Instr::Load(op, _) => seq![ValType::I32, spec_load_ty(op)],
        Instr::Store(op, _) => seq![ValType::I32, spec_store_ty(op)],
        _ => Seq::empty(),
    }
}

/// The label vectors (targets, default) the rewrite of one instruction adds
/// to the branch-table side table.
pub open spec fn step_brs(i: Instr) -> Seq<(Seq<u32>, u32)> {
    match i {
        Instr::BrTable(ts, d) => seq![(ts@, d)],
        _ => Seq::empty(),
    }
}

/// The monomorphic hook call of a grouped instruction.
pub open spec fn mono_call(h: Hooks, i: Instr) -> Instr {
    Instr::Call(h.mono@[spec_mono_index(spec_kind_of(i))])
}

/// The polymorphic hook call for a discriminant and type vector.
pub open spec fn poly_call(h: Hooks, k: InstrKind, tys: Seq<ValType>) -> Instr {
    Instr::Call(h.poly.spec_hook(k, tys))
}

/// The `call_result` hook call for a result-type vector.
pub open spec fn cr_call(h: Hooks, tys: Seq<ValType>) -> Instr {
    Instr::Call(spec_cr_lookup(h.call_result@, tys)->0)
}

/// The instrumented sequence that replaces the original instruction `i` at
/// original-body index `iidx`, given the state before it: spill and reload
/// code around the original instruction, the location constants, and the
/// hook call.
pub open spec fn step_emit(
    h: Hooks,
    finfo: Seq<FunctionInfo>,
    globals: Seq<ValType>,
    params: Seq<ValType>,
    results: Seq<ValType>,
    fidx: int,
    iidx: int,
    ntbl: int,
    begins: Seq<Begin>,
    locs: Seq<ValType>,
    i: Instr,
) -> Seq<Instr> {
    let nl = params.len() + locs.len() as int;
    match i {
        Instr::Block(bt) => seq![Instr::Block(bt)] + loc(fidx, iidx) + seq![
            Instr::Call(h.begin_block_hook),
        ],
        Instr::Loop(bt) => seq![Instr::Loop(bt)] + loc(fidx, iidx) + seq![
            Instr::Call(h.begin_loop_hook),
        ],
        Instr::If(bt) => seq![Instr::TeeLocal(nl as u32)] + loc(fidx, iidx) + seq![
            Instr::GetLocal(nl as u32),
            Instr::Call(h.if_hook),
            Instr::If(bt),
        ] + loc(fidx, iidx) + seq![Instr::Call(h.begin_if_hook)],
        Instr::Else => {
            let b = begins.last()->If_0;
            loc(fidx, iidx) + seq![
                ci(b as int),
                Instr::Call(h.end_else_hook),
                Instr::Else,
            ] + loc(fidx, iidx) + seq![Instr::Call(h.begin_else_hook)]
        },
        Instr::End => {
            let tail = match begins.last() {
                Begin::Function => seq![Instr::Call(h.end_function_hook)],
                Begin::Block(b) => seq![ci(b as int), Instr::Call(h.end_block_hook)],
                Begin::Loop(b) => seq![ci(b as int), Instr::Call(h.end_loop_hook)],
                Begin::If(b) => seq![ci(b as int), Instr::Call(h.end_if_hook)],
                Begin::Else(b) => seq![ci(b as int), Instr::Call(h.end_else_hook)],
            };
            loc(fidx, iidx) + tail + seq![Instr::End]
        },
        Instr::Nop => seq![Instr::Nop] + loc(fidx, iidx) + seq![Instr::Call(h.nop_hook)],
        Instr::Unreachable => seq![Instr::Unreachable] + loc(fidx, iidx) + seq![
            Instr::Call(h.unreachable_hook),
        ],
        Instr::Drop => seq![Instr::Drop] + loc(fidx, iidx) + seq![Instr::Call(h.drop_hook)],
        Instr::Select => seq![Instr::TeeLocal(nl as u32), Instr::Select] + loc(fidx, iidx) + seq![
            Instr::GetLocal(nl as u32),
            Instr::Call(h.select_hook),
        ],
        Instr::CurrentMemory(m) => seq![
            Instr::CurrentMemory(m),
            Instr::TeeLocal(nl as u32),
        ] + loc(fidx, iidx) + seq![
            Instr::GetLocal(nl as u32),
            Instr::Call(h.current_memory_hook),
        ],
        Instr::GrowMemory(m) => seq![
            Instr::TeeLocal(nl as u32),
            Instr::GrowMemory(m),
            Instr::TeeLocal((nl + 1) as u32),
        ] + loc(fidx, iidx) + seq![
            Instr::GetLocal(nl as u32),
            Instr::GetLocal((nl + 1) as u32),
            Instr::Call(h.grow_memory_hook),
        ],
        Instr::GetLocal(k) => {
            let ty = local_ty_at(params, locs, k as int);
            seq![Instr::GetLocal(k)] + loc(fidx, iidx) + seq![ci(k as int)] + spec_convert_instr(
                Instr::GetLocal(k),
                ty,
            ) + seq![poly_call(h, InstrKind::GetLocal, seq![ty])]
        },
        Instr::SetLocal(k) => {
            let ty = local_ty_at(params, locs, k as int);
            seq![Instr::SetLocal(k)] + loc(fidx, iidx) + seq![ci(k as int)] + spec_convert_instr(
                Instr::GetLocal(k),
                ty,
            ) + seq![poly_call(h, InstrKind::SetLocal, seq![ty])]
        },
        Instr::TeeLocal(k) => {
            let ty = local_ty_at(params, locs, k as int);
            seq![Instr::TeeLocal(k)] + loc(fidx, iidx) + seq![ci(k as int)] + spec_convert_instr(
                Instr::GetLocal(k),
                ty,
            ) + seq![poly_call(h, InstrKind::TeeLocal, seq![ty])]
        },
        Instr::GetGlobal(g) => {
            let ty = globals[g as int];
            seq![Instr::GetGlobal(g)] + loc(fidx, iidx) + seq![ci(g as int)] + spec_convert_instr(
                Instr::GetGlobal(g),
                ty,
            ) + seq![poly_call(h, InstrKind::GetGlobal, seq![ty])]
        },
        Instr::SetGlobal(g) => {
            let ty = globals[g as int];
            seq![Instr::SetGlobal(g)] + loc(fidx, iidx) + seq![ci(g as int)] + spec_convert_instr(
                Instr::GetGlobal(g),
                ty,
            ) + seq![poly_call(h, InstrKind::SetGlobal, seq![ty])]
        },
        Instr::Return => {
            let tmps = fresh_idxs(nl, results.len() as int);
            spec_save_seq(tmps) + loc(fidx, iidx) + spec_restore_seq(tmps, results) + seq![
                poly_call(h, InstrKind::Return, results),
                Instr::Return,
            ]
        },
        Instr::Call(t) => {
            let ats = finfo[t as int].type_.params@;
            let rts = finfo[t as int].type_.results@;
            let atmps = fresh_idxs(nl, ats.len() as int);
            let rtmps = fresh_idxs(nl + ats.len(), rts.len() as int);
            spec_save_seq(atmps) + loc(fidx, iidx) + seq![ci(t as int)] + spec_restore_seq(
                atmps,
                ats,
            ) + seq![poly_call(h, InstrKind::Call, ats), Instr::Call(t)] + spec_save_seq(rtmps)
                + loc(fidx, iidx) + spec_restore_seq(rtmps, rts) + seq![cr_call(h, rts)]
        },
        Instr::CallIndirect(ft, tbl) => {
            let ats = ft.params@;
            let rts = ft.results@;
            let ttmp = nl as u32;
            let atmps = fresh_idxs(nl + 1, ats.len() as int);
            let rtmps = fresh_idxs(nl + 1 + ats.len(), rts.len() as int);
            seq![Instr::SetLocal(ttmp)] + spec_save_seq(atmps) + seq![Instr::GetLocal(ttmp)] + loc(
                fidx,
                iidx,
            ) + seq![Instr::GetLocal(ttmp)] + spec_restore_seq(atmps, ats) + seq![
                poly_call(h, InstrKind::CallIndirect, ats),
                Instr::CallIndirect(ft, tbl),
            ] + spec_save_seq(rtmps) + loc(fidx, iidx) + spec_restore_seq(rtmps, rts) + seq![
                cr_call(h, rts),
            ]
        },
        Instr::Const(v) => loc(fidx, iidx) + spec_convert_instr(Instr::Const(v), v.spec_ty())
            + seq![mono_call(h, i), Instr::Const(v)],
        Instr::Unary(op) => {
            let it = crate::ops::spec_unop_tys(op).0;
            let rt = crate::ops::spec_unop_tys(op).1;
            seq![
                Instr::TeeLocal(nl as u32),
                Instr::Unary(op),
                Instr::TeeLocal((nl + 1) as u32),
            ] + loc(fidx, iidx) + spec_restore_seq(
                seq![nl as u32, (nl + 1) as u32],
                seq![it, rt],
            ) + seq![mono_call(h, i)]
        },
        Instr::Binary(op) => {
            let ft = crate::ops::spec_binop_tys(op).0;
            let s = crate::ops::spec_binop_tys(op).1;
            let rt = crate::ops::spec_binop_tys(op).2;
            spec_save_seq(seq![nl as u32, (nl + 1) as u32]) + seq![
                Instr::Binary(op),
                Instr::TeeLocal((nl + 2) as u32),
            ] + loc(fidx, iidx) + spec_restore_seq(
                seq![nl as u32, (nl + 1) as u32, (nl + 2) as u32],
                seq![ft, s, rt],
            ) + seq![mono_call(h, i)]
        },
        Instr::Load(op, ma) => {
            let ty = spec_load_ty(op);
            seq![
                Instr::TeeLocal(nl as u32),
                Instr::Load(op, ma),
                Instr::TeeLocal((nl + 1) as u32),
            ] + loc(fidx, iidx) + seq![ci(ma.offset as int), ci(ma.alignment as int)]
                + spec_restore_seq(
                seq![nl as u32, (nl + 1) as u32],
                seq![ValType::I32, ty],
            ) + seq![mono_call(h, i)]
        },
        Instr::Store(op, ma) => {
            let ty = spec_store_ty(op);
            spec_save_seq(seq![nl as u32, (nl + 1) as u32]) + seq![Instr::Store(op, ma)] + loc(
                fidx,
                iidx,
            ) + seq![ci(ma.offset as int), ci(ma.alignment as int)] + spec_restore_seq(
                seq![nl as u32, (nl + 1) as u32],
                seq![ValType::I32, ty],
            ) + seq![mono_call(h, i)]
        },
        Instr::Br(l) => loc(fidx, iidx) + seq![
            ci(l as int),
            ci(spec_label_target(begins, l as int) as int),
            Instr::Call(h.br_hook),
            Instr::Br(l),
        ],
        Instr::BrIf(l) => seq![Instr::TeeLocal(nl as u32)] + loc(fidx, iidx) + seq![
            ci(l as int),
            ci(spec_label_target(begins, l as int) as int),
            Instr::GetLocal(nl as u32),
            Instr::Call(h.br_if_hook),
            Instr::BrIf(l),
        ],
        Instr::BrTable(ts, d) => seq![Instr::TeeLocal(nl as u32)] + loc(fidx, iidx) + seq![
            ci(ntbl),
            Instr::GetLocal(nl as u32),
            Instr::Call(h.br_table_hook),
            Instr::BrTable(ts, d),
        ],
    }
}

/// The begin-function prologue: the function index, minus one for the
/// instruction index (the prologue matches no original instruction), and the
/// `begin_function` hook call.
pub open spec fn prologue(h: Hooks, fidx: int) -> Seq<Instr> {
    seq![ci(fidx), Instr::Const(Val::I32(-1i32)), Instr::Call(h.begin_function_hook)]
}

/// The state after rewriting the first `n` instructions of `body`.
pub open spec fn rw_fold(
    h: Hooks,
    finfo: Seq<FunctionInfo>,
    globals: Seq<ValType>,
    params: Seq<ValType>,
    results: Seq<ValType>,
    fidx: int,
    nbr: int,
    locals0: Seq<ValType>,
    body: Seq<Instr>,
    n: int,
) -> RwState
    decreases n,
{
    if n <= 0 {
        RwState {
            out: prologue(h, fidx),
            begins: seq![Begin::Function],
            locals: locals0,
            brs: Seq::empty(),
        }
    } else {
        let st = rw_fold(h, finfo, globals, params, results, fidx, nbr, locals0, body, n - 1);
        RwState {
            out: st.out + step_emit(
                h,
                finfo,
                globals,
                params,
                results,
                fidx,
                n - 1,
                nbr + st.brs.len(),
                st.begins,
                st.locals,
                body[n - 1],
            ),
            begins: begins_step(st.begins, body[n - 1], n - 1),
            locals: st.locals + step_local_tys(finfo, globals, params, results, st.locals, body[
                n - 1
            ]),
            brs: st.brs + step_brs(body[n - 1]),
        }
    }
}

/// The conditions one instruction must meet for the pass to rewrite it:
/// valid indices, hooks registered for its operand types, and immediates
/// small enough to re-emit as `i32.const` operands.
pub open spec fn instr_ok(
    h: Hooks,
    finfo: Seq<FunctionInfo>,
    globals: Seq<ValType>,
    params: Seq<ValType>,
    results: Seq<ValType>,
    n0: int,
    i: Instr,
) -> bool {
    match i {
        Instr::GetLocal(k) => k < n0 && k < 0x8000_0000,
        Instr::SetLocal(k) => k < n0 && k < 0x8000_0000,
        Instr::TeeLocal(k) => k < n0 && k < 0x8000_0000,
        Instr::GetGlobal(g) => g < globals.len() && g < 0x8000_0000,
        Instr::SetGlobal(g) => g < globals.len() && g < 0x8000_0000,
        Instr::Return => h.poly.spec_contains(InstrKind::Return, results) && cr_contains(
            h.call_result@,
            results,
        ),
        Instr::Call(t) => {
            &&& t < finfo.len()
            &&& t < 0x8000_0000
            &&& h.poly.spec_contains(InstrKind::Call, finfo[t as int].type_.params@)
            &&& cr_contains(h.call_result@, finfo[t as int].type_.results@)
        },
        Instr::CallIndirect(ft, _) => {
            &&& h.poly.spec_contains(InstrKind::CallIndirect, ft.params@)
            &&& cr_contains(h.call_result@, ft.results@)
        },
        Instr::Br(l) => l < 0x8000_0000,
        Instr::BrIf(l) => l < 0x8000_0000,
        Instr::Load(_, ma) => ma.offset < 0x8000_0000 && ma.alignment < 0x8000_0000,
        Instr::Store(_, ma) => ma.offset < 0x8000_0000 && ma.alignment < 0x8000_0000,
        _ => true,
    }
}

/// The local and global hooks are registered for all four value types.
pub open spec fn prim_covered(h: Hooks) -> bool {
    forall|t: ValType|
        {
            &&& h.poly.spec_contains(InstrKind::GetLocal, #[trigger] seq![t])
            &&& h.poly.spec_contains(InstrKind::SetLocal, seq![t])
            &&& h.poly.spec_contains(InstrKind::TeeLocal, seq![t])
            &&& h.poly.spec_contains(InstrKind::GetGlobal, seq![t])
            &&& h.poly.spec_contains(InstrKind::SetGlobal, seq![t])
        }
}

/// A body the pass can rewrite: each instruction is in reach of the hooks
/// and indices, each meets the regions open at its index, and the body is
/// well nested, closing the function's own region last.
pub open spec fn body_ok(
    h: Hooks,
    finfo: Seq<FunctionInfo>,
    globals: Seq<ValType>,
    params: Seq<ValType>,
    results: Seq<ValType>,
    n0: int,
    body: Seq<Instr>,
) -> bool {
    &&& forall|k: int|
        0 <= k < body.len() ==> instr_ok(h, finfo, globals, params, results, n0, #[trigger] body[k])
    &&& forall|k: int|
        0 <= k < body.len() ==> begins_ok_step(#[trigger] spec_begins(body, k), body[k])
    &&& spec_begins(body, body.len() as int).len() == 0
}

/// The scratch locals the first `n` instructions allocate, counted.
pub open spec fn extras_upto(
    finfo: Seq<FunctionInfo>,
    results: Seq<ValType>,
    body: Seq<Instr>,
    n: int,
) -> int
    decreases n,
{
    if n <= 0 {
        0
    } else {
        extras_upto(finfo, results, body, n - 1) + extra_locals(finfo, results, body[n - 1])
    }
}

/// How many `br_table` instructions the first `n` instructions hold.
pub open spec fn brs_upto(body: Seq<Instr>, n: int) -> int
    decreases n,
{
    if n <= 0 {
        0
    } else {
        brs_upto(body, n - 1) + step_brs(body[n - 1]).len()
    }
}

/// The fold's region stack is the nesting stack of the original body.
pub proof fn lemma_fold_begins(
    h: Hooks,
    finfo: Seq<FunctionInfo>,
    globals: Seq<ValType>,
    params: Seq<ValType>,
    results: Seq<ValType>,
    fidx: int,
    nbr: int,
    locals0: Seq<ValType>,
    body: Seq<Instr>,
    n: int,
)
    ensures
        rw_fold(h, finfo, globals, params, results, fidx, nbr, locals0, body, n).begins
            == spec_begins(body, n),
    decreases n,
{
    if n > 0 {
        lemma_fold_begins(h, finfo, globals, params, results, fidx, nbr, locals0, body, n - 1);
    }
}

/// The fold's local list grows by exactly the counted scratch locals and
/// keeps the original locals as a prefix.
pub proof fn lemma_fold_locals_len(
    h: Hooks,
    finfo: Seq<FunctionInfo>,
    globals: Seq<ValType>,
    params: Seq<ValType>,
    results: Seq<ValType>,
    fidx: int,
    nbr: int,
    locals0: Seq<ValType>,
    body: Seq<Instr>,
    n: int,
)
    ensures
        rw_fold(h, finfo, globals, params, results, fidx, nbr, locals0, body, n).locals.len()
            == locals0.len() + extras_upto(finfo, results, body, n),
        forall|j: int|
            0 <= j < locals0.len() ==> rw_fold(
                h,
                finfo,
                globals,
                params,
                results,
                fidx,
                nbr,
                locals0,
                body,
                n,
            ).locals[j] == locals0[j],
    decreases n,
{
    if n > 0 {
        lemma_fold_locals_len(h, finfo, globals, params, results, fidx, nbr, locals0, body, n - 1);
        let st = rw_fold(h, finfo, globals, params, results, fidx, nbr, locals0, body, n - 1);
        assert(step_local_tys(finfo, globals, params, results, st.locals, body[n - 1]).len()
            == extra_locals(finfo, results, body[n - 1]));
        assert(forall|j: int| 0 <= j < locals0.len() ==> st.locals[j] == locals0[j]);
        lemma_extras_mono(finfo, results, body, 0, n - 1);
        assert(st.locals.len() >= locals0.len());
    }
}

/// The fold's branch-table list grows by exactly the `br_table` count.
pub proof fn lemma_fold_brs_len(
    h: Hooks,
    finfo: Seq<FunctionInfo>,
    globals: Seq<ValType>,
    params: Seq<ValType>,
    results: Seq<ValType>,
    fidx: int,
    nbr: int,
    locals0: Seq<ValType>,
    body: Seq<Instr>,
    n: int,
)
    ensures
        rw_fold(h, finfo, globals, params, results, fidx, nbr, locals0, body, n).brs.len()
            == brs_upto(body, n),
    decreases n,
{
    if n > 0 {
        lemma_fold_brs_len(h, finfo, globals, params, results, fidx, nbr, locals0, body, n - 1);
    }
}

pub proof fn lemma_extras_mono(
    finfo: Seq<FunctionInfo>,
    results: Seq<ValType>,
    body: Seq<Instr>,
    n1: int,
    n2: int,
)
    requires
        0 <= n1 <= n2,
    ensures
        extras_upto(finfo, results, body, n1) <= extras_upto(finfo, results, body, n2),
        0 <= extras_upto(finfo, results, body, n1),
    decreases n2,
{
    if n2 > 0 {
        if n1 == n2 {
            lemma_extras_mono(finfo, results, body, n1 - 1, n1 - 1);
        } else {
            lemma_extras_mono(finfo, results, body, n1, n2 - 1);
        }
    }
}

pub proof fn lemma_brs_mono(body: Seq<Instr>, n1: int, n2: int)
    requires
        0 <= n1 <= n2,
    ensures
        brs_upto(body, n1) <= brs_upto(body, n2),
        0 <= brs_upto(body, n1),
    decreases n2,
{
    if n2 > 0 {
        if n1 == n2 {
            lemma_brs_mono(body, n1 - 1, n1 - 1);
        } else {
            lemma_brs_mono(body, n1, n2 - 1);
        }
    }
}

/// Appends one fresh scratch local and returns its slot index.
fn alloc_local(params_len: usize, locals: &mut Vec<ValType>, ty: ValType) -> (idx: u32)
    requires
        params_len + old(locals)@.len() < 0x8000_0000,
    ensures
        final(locals)@ == old(locals)@.push(ty),
        idx == params_len + old(locals)@.len(),
{
    let idx = (params_len + locals.len()) as u32;
    locals.push(ty);
    idx
}

/// Appends one fresh scratch local per type; the indices are consecutive.
fn alloc_locals(params_len: usize, locals: &mut Vec<ValType>, tys: &[ValType]) -> (idxs: Vec<u32>)
    requires
        params_len + old(locals)@.len() + tys@.len() < 0x8000_0000,
    ensures
        final(locals)@ == old(locals)@ + tys@,
        idxs@ == fresh_idxs(params_len + old(locals)@.len(), tys@.len() as int),
        idxs@.len() == tys@.len(),
{
    let mut idxs: Vec<u32> = Vec::new();
    let mut i: usize = 0;
    while i < tys.len()
        invariant
            0 <= i <= tys@.len(),
            params_len + old(locals)@.len() + tys@.len() < 0x8000_0000,
            locals@ == old(locals)@ + tys@.take(i as int),
            idxs@.len() == i,
            forall|j: int|
                0 <= j < i ==> idxs@[j] == params_len + old(locals)@.len() + j,
        decreases tys@.len() - i,
    {
        let idx = (params_len + locals.len()) as u32;
        locals.push(ty_at(tys, i));
        idxs.push(idx);
        i = i + 1;
        proof {
            assert(tys@.take(i as int) =~= tys@.take(i as int - 1).push(tys@[i - 1]));
            assert(locals@ =~= old(locals)@ + tys@.take(i as int));
        }
    }
    proof {
        assert(tys@.take(tys@.len() as int) =~= tys@);
        assert(idxs@ =~= fresh_idxs(params_len + old(locals)@.len(), tys@.len() as int));
    }
    idxs
}

fn ty_at(tys: &[ValType], i: usize) -> (t: ValType)
    requires
        i < tys@.len(),
    ensures
        t == tys@[i as int],
{
    tys[i]
}

/// One side-table entry matches the label vectors recorded for it: the
/// labels in order, each with a zero location.
pub open spec fn br_matches(info: crate::static_info::BrTableInfo, e: (Seq<u32>, u32)) -> bool {
    &&& info.targets@.len() == e.0.len()
    &&& forall|i: int|
        0 <= i < e.0.len() ==> #[trigger] info.targets@[i] == (crate::static_info::LabelAndLocation {
            label: e.0[i],
            location: 0u32,
        })
    &&& info.default_target == (crate::static_info::LabelAndLocation { label: e.1, location: 0u32 })
}

/// Rewrites one function body: returns the instrumented body, extends the
/// function's locals with the scratch slots, and appends one side-table
/// entry per `br_table`. The result is exactly the rewrite fold of the
/// original body.
#[verifier::loop_isolation(false)]
#[verifier::rlimit(100)]
pub fn instrument_function(
    hooks: &Hooks,
    sinfo: &mut ModuleInfo,
    params: &Vec<ValType>,
    results: &Vec<ValType>,
    locals: &mut Vec<ValType>,
    body: Vec<Instr>,
    fidx: u32,
) -> (new_body: Vec<Instr>)
    requires
        prim_covered(*hooks),
        body_ok(
            *hooks,
            old(sinfo).functions@,
            old(sinfo).globals@,
            params@,
            results@,
            params@.len() + old(locals)@.len() as int,
            body@,
        ),
        old(sinfo).functions@.len() < 0x8000_0000,
        hooks.mono@.len() == crate::ops::MONO_COUNT,
        fidx < 0x8000_0000,
        body@.len() < 0x8000_0000,
        params@.len() + old(locals)@.len() + extras_upto(
            old(sinfo).functions@,
            results@,
            body@,
            body@.len() as int,
        ) < 0x8000_0000,
        old(sinfo).br_tables@.len() + brs_upto(body@, body@.len() as int) < 0x8000_0000,
    ensures
        final(sinfo).functions == old(sinfo).functions,
        final(sinfo).globals == old(sinfo).globals,
        ({
            let st = rw_fold(
                *hooks,
                old(sinfo).functions@,
                old(sinfo).globals@,
                params@,
                results@,
                fidx as int,
                old(sinfo).br_tables@.len() as int,
                old(locals)@,
                body@,
                body@.len() as int,
            );
            &&& new_body@ == st.out
            &&& final(locals)@ == st.locals
            &&& final(sinfo).br_tables@.len() == old(sinfo).br_tables@.len() + st.brs.len()
            &&& forall|k: int|
                0 <= k < old(sinfo).br_tables@.len() ==> final(sinfo).br_tables@[k] == old(
                    sinfo,
                ).br_tables@[k]
            &&& forall|k: int|
                old(sinfo).br_tables@.len() <= k < final(sinfo).br_tables@.len() ==> br_matches(
                    #[trigger] final(sinfo).br_tables@[k],
                    st.brs[k - old(sinfo).br_tables@.len()],
                )
        }),
{
    let ghost finfo = sinfo.functions@;
    let ghost globals_g = sinfo.globals@;
    let ghost locals0 = locals@;
    let ghost nbr0 = sinfo.br_tables@.len() as int;
    let ghost n = body@.len() as int;
    let n_params = params.len();
    let ghost n0 = params@.len() + locals0.len() as int;

    let mut src = body;
    let mut rev: Vec<Instr> = Vec::new();
    while src.len() > 0
        invariant
            src@ == body@.take(src@.len() as int),
            rev@.len() + src@.len() == n,
            forall|j: int| 0 <= j < rev@.len() ==> rev@[j] == body@[n - 1 - j],
        decreases src@.len(),
    {
        let ghost pre_len = src@.len() as int;
        let x = match src.pop() {
            Some(x) => x,
            None => {
                proof {
                    assert(false);
                }
                Instr::Nop
            },
        };
        proof {
            assert(body@.take(pre_len)[pre_len - 1] == body@[pre_len - 1]);
            assert(body@.take(pre_len).drop_last() =~= body@.take(pre_len - 1));
        }
        rev.push(x);
    }

    let fi: i32 = fidx as i32;
    let mut instrumented: Vec<Instr> = Vec::new();
    instrumented.push(Instr::Const(Val::I32(fi)));
    instrumented.push(Instr::Const(Val::I32(-1)));
    instrumented.push(Instr::Call(hooks.begin_function_hook));
    let mut begin_stack: Vec<Begin> = Vec::new();
    begin_stack.push(Begin::Function);
    proof {
        assert(instrumented@ =~= prologue(*hooks, fidx as int));
        assert(begin_stack@ =~= seq![Begin::Function]);
    }

    let mut iidx: usize = 0;
    while rev.len() > 0
        invariant
            0 <= iidx <= n,
            iidx == n - rev@.len(),
            forall|j: int| 0 <= j < rev@.len() ==> rev@[j] == body@[n - 1 - j],
            sinfo.functions == old(sinfo).functions,
            sinfo.globals == old(sinfo).globals,
            sinfo.functions@ == finfo,
            sinfo.globals@ == globals_g,
            ({
                let st = rw_fold(
                    *hooks,
                    finfo,
                    globals_g,
                    params@,
                    results@,
                    fidx as int,
                    nbr0,
                    locals0,
                    body@,
                    iidx as int,
                );
                &&& instrumented@ == st.out
                &&& begin_stack@ == st.begins
                &&& locals@ == st.locals
                &&& sinfo.br_tables@.len() == nbr0 + st.brs.len()
                &&& forall|k: int|
                    0 <= k < nbr0 ==> sinfo.br_tables@[k] == old(sinfo).br_tables@[k]
                &&& forall|k: int|
                    nbr0 <= k < sinfo.br_tables@.len() ==> br_matches(
                        #[trigger] sinfo.br_tables@[k],
                        st.brs[k - nbr0],
                    )
            }),
        decreases rev@.len(),
    {
        let ghost st_pre = rw_fold(
            *hooks,
            finfo,
            globals_g,
            params@,
            results@,
            fidx as int,
            nbr0,
            locals0,
            body@,
            iidx as int,
        );
        let instr = match rev.pop() {
            Some(x) => x,
            None => {
                proof {
                    assert(false);
                }
                Instr::Nop
            },
        };
        let ghost orig = body@[iidx as int];
        proof {
            assert(instr == orig);
            assert(instr_ok(*hooks, finfo, globals_g, params@, results@, n0, orig));
            lemma_fold_begins(
                *hooks,
                finfo,
                globals_g,
                params@,
                results@,
                fidx as int,
                nbr0,
                locals0,
                body@,
                iidx as int,
            );
            assert(begins_ok_step(st_pre.begins, orig));
            lemma_fold_locals_len(
                *hooks,
                finfo,
                globals_g,
                params@,
                results@,
                fidx as int,
                nbr0,
                locals0,
                body@,
                iidx as int,
            );
            lemma_extras_mono(finfo, results@, body@, 0, iidx as int);
            lemma_extras_mono(finfo, results@, body@, iidx + 1, n);
            assert(extras_upto(finfo, results@, body@, iidx + 1) == extras_upto(
                finfo,
                results@,
                body@,
                iidx as int,
            ) + extra_locals(finfo, results@, orig));
            lemma_fold_brs_len(
                *hooks,
                finfo,
                globals_g,
                params@,
                results@,
                fidx as int,
                nbr0,
                locals0,
                body@,
                iidx as int,
            );
            lemma_brs_mono(body@, iidx + 1, n);
            assert(brs_upto(body@, iidx + 1) == brs_upto(body@, iidx as int) + step_brs(
                orig,
            ).len());
        }
        instrument_one(
            hooks,
            &sinfo.functions,
            &sinfo.globals,
            &mut sinfo.br_tables,
            &mut instrumented,
            &mut begin_stack,
            params,
            results,
            locals,
            fidx,
            iidx,
            instr,
            Ghost(n0),
        );
        iidx = iidx + 1;
    }
    proof {
        assert(iidx == n);
    }
    instrumented
}



/// The control, parametric and memory-size instructions.
pub open spec fn is_ctrl(i: Instr) -> bool {
    match i {
        Instr::Block(_) | Instr::Loop(_) | Instr::If(_) | Instr::Else | Instr::End | Instr::Nop
            | Instr::Unreachable | Instr::Drop | Instr::Select | Instr::CurrentMemory(_)
            | Instr::GrowMemory(_) | Instr::Br(_) | Instr::BrIf(_) | Instr::BrTable(_, _) => true,
        _ => false,
    }
}

/// The local, global and constant instructions.
pub open spec fn is_vars(i: Instr) -> bool {
    match i {
        Instr::GetLocal(_) | Instr::SetLocal(_) | Instr::TeeLocal(_) | Instr::GetGlobal(_)
            | Instr::SetGlobal(_) | Instr::Const(_) => true,
        _ => false,
    }
}

/// The unary, binary, load and store instructions.
pub open spec fn is_num(i: Instr) -> bool {
    match i {
        Instr::Unary(_) | Instr::Binary(_) | Instr::Load(_, _) | Instr::Store(_, _) => true,
        _ => false,
    }
}

/// The call and return instructions.
pub open spec fn is_calls(i: Instr) -> bool {
    match i {
        Instr::Return | Instr::Call(_) | Instr::CallIndirect(_, _) => true,
        _ => false,
    }
}
/// Emits the instrumented replacement of one control, parametric or
/// memory-size instruction.
#[verifier::loop_isolation(false)]
#[verifier::rlimit(100)]
fn instrument_ctrl(
    hooks: &Hooks,
    sfuncs: &Vec<FunctionInfo>,
    globals: &Vec<ValType>,
    br_tables: &mut Vec<crate::static_info::BrTableInfo>,
    instrumented: &mut Vec<Instr>,
    begin_stack: &mut Vec<Begin>,
    params: &Vec<ValType>,
    results: &Vec<ValType>,
    locals: &mut Vec<ValType>,
    fidx: u32,
    iidx: usize,
    instr: Instr,
    Ghost(n0): Ghost<int>,
)
    requires
        is_ctrl(instr),
        prim_covered(*hooks),
        hooks.mono@.len() == crate::ops::MONO_COUNT,
        instr_ok(*hooks, sfuncs@, globals@, params@, results@, n0, instr),
        begins_ok_step(old(begin_stack)@, instr),
        n0 <= params@.len() + old(locals)@.len() as int,
        sfuncs@.len() < 0x8000_0000,
        fidx < 0x8000_0000,
        iidx < 0x8000_0000,
        params@.len() + old(locals)@.len() + extra_locals(sfuncs@, results@, instr) < 0x8000_0000,
        old(br_tables)@.len() + step_brs(instr).len() < 0x8000_0000,
    ensures
        final(instrumented)@ == old(instrumented)@ + step_emit(
            *hooks,
            sfuncs@,
            globals@,
            params@,
            results@,
            fidx as int,
            iidx as int,
            old(br_tables)@.len() as int,
            old(begin_stack)@,
            old(locals)@,
            instr,
        ),
        final(begin_stack)@ == begins_step(old(begin_stack)@, instr, iidx as int),
        final(locals)@ == old(locals)@ + step_local_tys(
            sfuncs@,
            globals@,
            params@,
            results@,
            old(locals)@,
            instr,
        ),
        final(br_tables)@.len() == old(br_tables)@.len() + step_brs(instr).len(),
        forall|k: int| 0 <= k < old(br_tables)@.len() ==> final(br_tables)@[k] == old(br_tables)@[k],
        forall|k: int|
            old(br_tables)@.len() <= k < final(br_tables)@.len() ==> br_matches(
                #[trigger] final(br_tables)@[k],
                step_brs(instr)[k - old(br_tables)@.len()],
            ),
{
    let n_params = params.len();
    let fi: i32 = fidx as i32;
    let ii: i32 = iidx as i32;
    let ghost begins0 = begin_stack@;
    let ghost locals0 = locals@;
    match instr {
        Instr::Block(bt) => {
            instrumented.push(Instr::Block(bt));
            instrumented.push(Instr::Const(Val::I32(fi)));
            instrumented.push(Instr::Const(Val::I32(ii)));
            instrumented.push(Instr::Call(hooks.begin_block_hook));
            begin_stack.push(Begin::Block(iidx as u32));
        },
        Instr::Loop(bt) => {
            instrumented.push(Instr::Loop(bt));
            instrumented.push(Instr::Const(Val::I32(fi)));
            instrumented.push(Instr::Const(Val::I32(ii)));
            instrumented.push(Instr::Call(hooks.begin_loop_hook));
            begin_stack.push(Begin::Loop(iidx as u32));
        },
        Instr::If(bt) => {
            let c = alloc_local(n_params, locals, ValType::I32);
            instrumented.push(Instr::TeeLocal(c));
            instrumented.push(Instr::Const(Val::I32(fi)));
            instrumented.push(Instr::Const(Val::I32(ii)));
            instrumented.push(Instr::GetLocal(c));
            instrumented.push(Instr::Call(hooks.if_hook));
            instrumented.push(Instr::If(bt));
            instrumented.push(Instr::Const(Val::I32(fi)));
            instrumented.push(Instr::Const(Val::I32(ii)));
            instrumented.push(Instr::Call(hooks.begin_if_hook));
            begin_stack.push(Begin::If(iidx as u32));
        },
        Instr::Else => {
            let b = match begin_stack.pop() {
                Some(Begin::If(b)) => b,
                _ => {
                    proof {
                        assert(false);
                    }
                    0
                },
            };
            instrumented.push(Instr::Const(Val::I32(fi)));
            instrumented.push(Instr::Const(Val::I32(ii)));
            instrumented.push(Instr::Const(Val::I32(b as i32)));
            instrumented.push(Instr::Call(hooks.end_else_hook));
            instrumented.push(Instr::Else);
            instrumented.push(Instr::Const(Val::I32(fi)));
            instrumented.push(Instr::Const(Val::I32(ii)));
            instrumented.push(Instr::Call(hooks.begin_else_hook));
            begin_stack.push(Begin::Else(iidx as u32));
        },
        Instr::End => {
            let b = match begin_stack.pop() {
                Some(b) => b,
                None => {
                    proof {
                        assert(false);
                    }
                    Begin::Function
                },
            };
            instrumented.push(Instr::Const(Val::I32(fi)));
            instrumented.push(Instr::Const(Val::I32(ii)));
            match b {
                Begin::Function => {
                    instrumented.push(Instr::Call(hooks.end_function_hook));
                },
                Begin::Block(bi) => {
                    instrumented.push(Instr::Const(Val::I32(bi as i32)));
                    instrumented.push(Instr::Call(hooks.end_block_hook));
                },
                Begin::Loop(bi) => {
                    instrumented.push(Instr::Const(Val::I32(bi as i32)));
                    instrumented.push(Instr::Call(hooks.end_loop_hook));
                },
                Begin::If(bi) => {
                    instrumented.push(Instr::Const(Val::I32(bi as i32)));
                    instrumented.push(Instr::Call(hooks.end_if_hook));
                },
                Begin::Else(bi) => {
                    instrumented.push(Instr::Const(Val::I32(bi as i32)));
                    instrumented.push(Instr::Call(hooks.end_else_hook));
                },
            }
            instrumented.push(Instr::End);
        },
        Instr::Nop => {
            instrumented.push(Instr::Nop);
            instrumented.push(Instr::Const(Val::I32(fi)));
            instrumented.push(Instr::Const(Val::I32(ii)));
            instrumented.push(Instr::Call(hooks.nop_hook));
        },
        Instr::Unreachable => {
            instrumented.push(Instr::Unreachable);
            instrumented.push(Instr::Const(Val::I32(fi)));
            instrumented.push(Instr::Const(Val::I32(ii)));
            instrumented.push(Instr::Call(hooks.unreachable_hook));
        },
        Instr::Drop => {
            instrumented.push(Instr::Drop);
            instrumented.push(Instr::Const(Val::I32(fi)));
            instrumented.push(Instr::Const(Val::I32(ii)));
            instrumented.push(Instr::Call(hooks.drop_hook));
        },
        Instr::Select => {
            let c = alloc_local(n_params, locals, ValType::I32);
            instrumented.push(Instr::TeeLocal(c));
            instrumented.push(Instr::Select);
            instrumented.push(Instr::Const(Val::I32(fi)));
            instrumented.push(Instr::Const(Val::I32(ii)));
            instrumented.push(Instr::GetLocal(c));
            instrumented.push(Instr::Call(hooks.select_hook));
        },
        Instr::CurrentMemory(m) => {
            let r = alloc_local(n_params, locals, ValType::I32);
            instrumented.push(Instr::CurrentMemory(m));
            instrumented.push(Instr::TeeLocal(r));
            instrumented.push(Instr::Const(Val::I32(fi)));
            instrumented.push(Instr::Const(Val::I32(ii)));
            instrumented.push(Instr::GetLocal(r));
            instrumented.push(Instr::Call(hooks.current_memory_hook));
        },
        Instr::GrowMemory(m) => {
            let inp = alloc_local(n_params, locals, ValType::I32);
            let r = alloc_local(n_params, locals, ValType::I32);
            instrumented.push(Instr::TeeLocal(inp));
            instrumented.push(Instr::GrowMemory(m));
            instrumented.push(Instr::TeeLocal(r));
            instrumented.push(Instr::Const(Val::I32(fi)));
            instrumented.push(Instr::Const(Val::I32(ii)));
            instrumented.push(Instr::GetLocal(inp));
            instrumented.push(Instr::GetLocal(r));
            instrumented.push(Instr::Call(hooks.grow_memory_hook));
        },
        Instr::Br(l) => {
            let target = crate::control::label_to_instr_idx(&begin_stack, l);
            instrumented.push(Instr::Const(Val::I32(fi)));
            instrumented.push(Instr::Const(Val::I32(ii)));
            instrumented.push(Instr::Const(Val::I32(l as i32)));
            instrumented.push(Instr::Const(Val::I32(target as i32)));
            instrumented.push(Instr::Call(hooks.br_hook));
            instrumented.push(Instr::Br(l));
        },
        Instr::BrIf(l) => {
            let target = crate::control::label_to_instr_idx(&begin_stack, l);
            let c = alloc_local(n_params, locals, ValType::I32);
            instrumented.push(Instr::TeeLocal(c));
            instrumented.push(Instr::Const(Val::I32(fi)));
            instrumented.push(Instr::Const(Val::I32(ii)));
            instrumented.push(Instr::Const(Val::I32(l as i32)));
            instrumented.push(Instr::Const(Val::I32(target as i32)));
            instrumented.push(Instr::GetLocal(c));
            instrumented.push(Instr::Call(hooks.br_if_hook));
            instrumented.push(Instr::BrIf(l));
        },
        Instr::BrTable(ts, d) => {
            let mut targets: Vec<crate::static_info::LabelAndLocation> = Vec::new();
            let mut q: usize = 0;
            while q < ts.len()
                invariant
                    0 <= q <= ts@.len(),
                    targets@.len() == q,
                    forall|z: int|
                        0 <= z < q ==> targets@[z] == (crate::static_info::LabelAndLocation {
                            label: ts@[z],
                            location: 0u32,
                        }),
                decreases ts@.len() - q,
            {
                targets.push(crate::static_info::LabelAndLocation::new(ts[q]));
                q = q + 1;
            }
            let info = crate::static_info::BrTableInfo::new(
                targets,
                crate::static_info::LabelAndLocation::new(d),
            );
            br_tables.push(info);
            let t = alloc_local(n_params, locals, ValType::I32);
            instrumented.push(Instr::TeeLocal(t));
            instrumented.push(Instr::Const(Val::I32(fi)));
            instrumented.push(Instr::Const(Val::I32(ii)));
            instrumented.push(Instr::Const(Val::I32((br_tables.len() - 1) as i32)));
            instrumented.push(Instr::GetLocal(t));
            instrumented.push(Instr::Call(hooks.br_table_hook));
            instrumented.push(Instr::BrTable(ts, d));
        },
        _ => {
            proof {
                assert(false);
            }
        },
    }
    proof {
        assert(instrumented@ =~= old(instrumented)@ + step_emit(
            *hooks,
            sfuncs@,
            globals@,
            params@,
            results@,
            fidx as int,
            iidx as int,
            old(br_tables)@.len() as int,
            begins0,
            locals0,
            instr,
        ));
        assert(begin_stack@ =~= begins_step(begins0, instr, iidx as int));
        assert(locals@ =~= locals0 + step_local_tys(
            sfuncs@,
            globals@,
            params@,
            results@,
            locals0,
            instr,
        ));
    }
}

/// Emits the instrumented replacement of one local, global or constant
/// instruction.
#[verifier::loop_isolation(false)]
#[verifier::rlimit(100)]
fn instrument_vars(
    hooks: &Hooks,
    sfuncs: &Vec<FunctionInfo>,
    globals: &Vec<ValType>,
    br_tables: &mut Vec<crate::static_info::BrTableInfo>,
    instrumented: &mut Vec<Instr>,
    begin_stack: &mut Vec<Begin>,
    params: &Vec<ValType>,
    results: &Vec<ValType>,
    locals: &mut Vec<ValType>,
    fidx: u32,
    iidx: usize,
    instr: Instr,
    Ghost(n0): Ghost<int>,
)
    requires
        is_vars(instr),
        prim_covered(*hooks),
        hooks.mono@.len() == crate::ops::MONO_COUNT,
        instr_ok(*hooks, sfuncs@, globals@, params@, results@, n0, instr),
        begins_ok_step(old(begin_stack)@, instr),
        n0 <= params@.len() + old(locals)@.len() as int,
        sfuncs@.len() < 0x8000_0000,
        fidx < 0x8000_0000,
        iidx < 0x8000_0000,
        params@.len() + old(locals)@.len() + extra_locals(sfuncs@, results@, instr) < 0x8000_0000,
        old(br_tables)@.len() + step_brs(instr).len() < 0x8000_0000,
    ensures
        final(instrumented)@ == old(instrumented)@ + step_emit(
            *hooks,
            sfuncs@,
            globals@,
            params@,
            results@,
            fidx as int,
            iidx as int,
            old(br_tables)@.len() as int,
            old(begin_stack)@,
            old(locals)@,
            instr,
        ),
        final(begin_stack)@ == begins_step(old(begin_stack)@, instr, iidx as int),
        final(locals)@ == old(locals)@ + step_local_tys(
            sfuncs@,
            globals@,
            params@,
            results@,
            old(locals)@,
            instr,
        ),
        final(br_tables)@.len() == old(br_tables)@.len() + step_brs(instr).len(),
        forall|k: int| 0 <= k < old(br_tables)@.len() ==> final(br_tables)@[k] == old(br_tables)@[k],
        forall|k: int|
            old(br_tables)@.len() <= k < final(br_tables)@.len() ==> br_matches(
                #[trigger] final(br_tables)@[k],
                step_brs(instr)[k - old(br_tables)@.len()],
            ),
{
    let n_params = params.len();
    let fi: i32 = fidx as i32;
    let ii: i32 = iidx as i32;
    let ghost begins0 = begin_stack@;
    let ghost locals0 = locals@;
    match instr {
        Instr::GetLocal(k) => {
            let ty = lookup_local_ty(params, locals, k);
            instrumented.push(Instr::GetLocal(k));
            instrumented.push(Instr::Const(Val::I32(fi)));
            instrumented.push(Instr::Const(Val::I32(ii)));
            instrumented.push(Instr::Const(Val::I32(k as i32)));
            let mut conv = crate::convert::convert_i64_instr(Instr::GetLocal(k), ty);
            instrumented.append(&mut conv);
            let mut tys: Vec<ValType> = Vec::new();
            tys.push(ty);
            proof {
                assert(tys@ =~= seq![ty]);
            }
            let hook_call = hooks.poly.get_call(&Instr::GetLocal(k), tys);
            instrumented.push(hook_call);
        },
        Instr::SetLocal(k) => {
            let ty = lookup_local_ty(params, locals, k);
            instrumented.push(Instr::SetLocal(k));
            instrumented.push(Instr::Const(Val::I32(fi)));
            instrumented.push(Instr::Const(Val::I32(ii)));
            instrumented.push(Instr::Const(Val::I32(k as i32)));
            let mut conv = crate::convert::convert_i64_instr(Instr::GetLocal(k), ty);
            instrumented.append(&mut conv);
            let mut tys: Vec<ValType> = Vec::new();
            tys.push(ty);
            proof {
                assert(tys@ =~= seq![ty]);
            }
            let hook_call = hooks.poly.get_call(&Instr::SetLocal(k), tys);
            instrumented.push(hook_call);
        },
        Instr::TeeLocal(k) => {
            let ty = lookup_local_ty(params, locals, k);
            instrumented.push(Instr::TeeLocal(k));
            instrumented.push(Instr::Const(Val::I32(fi)));
            instrumented.push(Instr::Const(Val::I32(ii)));
            instrumented.push(Instr::Const(Val::I32(k as i32)));
            let mut conv = crate::convert::convert_i64_instr(Instr::GetLocal(k), ty);
            instrumented.append(&mut conv);
            let mut tys: Vec<ValType> = Vec::new();
            tys.push(ty);
            proof {
                assert(tys@ =~= seq![ty]);
            }
            let hook_call = hooks.poly.get_call(&Instr::TeeLocal(k), tys);
            instrumented.push(hook_call);
        },
        Instr::GetGlobal(g) => {
            let ty = globals[g as usize];
            instrumented.push(Instr::GetGlobal(g));
            instrumented.push(Instr::Const(Val::I32(fi)));
            instrumented.push(Instr::Const(Val::I32(ii)));
            instrumented.push(Instr::Const(Val::I32(g as i32)));
            let mut conv = crate::convert::convert_i64_instr(Instr::GetGlobal(g), ty);
            instrumented.append(&mut conv);
            let mut tys: Vec<ValType> = Vec::new();
            tys.push(ty);
            proof {
                assert(tys@ =~= seq![ty]);
            }
            let hook_call = hooks.poly.get_call(&Instr::GetGlobal(g), tys);
            instrumented.push(hook_call);
        },
        Instr::SetGlobal(g) => {
            let ty = globals[g as usize];
            instrumented.push(Instr::SetGlobal(g));
            instrumented.push(Instr::Const(Val::I32(fi)));
            instrumented.push(Instr::Const(Val::I32(ii)));
            instrumented.push(Instr::Const(Val::I32(g as i32)));
            let mut conv = crate::convert::convert_i64_instr(Instr::GetGlobal(g), ty);
            instrumented.append(&mut conv);
            let mut tys: Vec<ValType> = Vec::new();
            tys.push(ty);
            proof {
                assert(tys@ =~= seq![ty]);
            }
            let hook_call = hooks.poly.get_call(&Instr::SetGlobal(g), tys);
            instrumented.push(hook_call);
        },
        Instr::Const(v) => {
            instrumented.push(Instr::Const(Val::I32(fi)));
            instrumented.push(Instr::Const(Val::I32(ii)));
            let ty = v.ty();
            let mut conv = crate::convert::convert_i64_instr(Instr::Const(v), ty);
            instrumented.append(&mut conv);
            let mono_idx = crate::ops::mono_index(crate::ops::kind_of(&Instr::Const(v)));
            proof {
                crate::ops::lemma_mono_index_at(spec_kind_of(Instr::Const(v)));
            }
            instrumented.push(Instr::Call(hooks.mono[mono_idx]));
            instrumented.push(Instr::Const(v));
        },
        _ => {
            proof {
                assert(false);
            }
        },
    }
    proof {
        assert(instrumented@ =~= old(instrumented)@ + step_emit(
            *hooks,
            sfuncs@,
            globals@,
            params@,
            results@,
            fidx as int,
            iidx as int,
            old(br_tables)@.len() as int,
            begins0,
            locals0,
            instr,
        ));
        assert(begin_stack@ =~= begins_step(begins0, instr, iidx as int));
        assert(locals@ =~= locals0 + step_local_tys(
            sfuncs@,
            globals@,
            params@,
            results@,
            locals0,
            instr,
        ));
    }
}

/// Emits the instrumented replacement of one unary, binary, load or store
/// instruction.
#[verifier::loop_isolation(false)]
#[verifier::rlimit(100)]
fn instrument_num(
    hooks: &Hooks,
    sfuncs: &Vec<FunctionInfo>,
    globals: &Vec<ValType>,
    br_tables: &mut Vec<crate::static_info::BrTableInfo>,
    instrumented: &mut Vec<Instr>,
    begin_stack: &mut Vec<Begin>,
    params: &Vec<ValType>,
    results: &Vec<ValType>,
    locals: &mut Vec<ValType>,
    fidx: u32,
    iidx: usize,
    instr: Instr,
    Ghost(n0): Ghost<int>,
)
    requires
        is_num(instr),
        prim_covered(*hooks),
        hooks.mono@.len() == crate::ops::MONO_COUNT,
        instr_ok(*hooks, sfuncs@, globals@, params@, results@, n0, instr),
        begins_ok_step(old(begin_stack)@, instr),
        n0 <= params@.len() + old(locals)@.len() as int,
        sfuncs@.len() < 0x8000_0000,
        fidx < 0x8000_0000,
        iidx < 0x8000_0000,
        params@.len() + old(locals)@.len() + extra_locals(sfuncs@, results@, instr) < 0x8000_0000,
        old(br_tables)@.len() + step_brs(instr).len() < 0x8000_0000,
    ensures
        final(instrumented)@ == old(instrumented)@ + step_emit(
            *hooks,
            sfuncs@,
            globals@,
            params@,
            results@,
            fidx as int,
            iidx as int,
            old(br_tables)@.len() as int,
            old(begin_stack)@,
            old(locals)@,
            instr,
        ),
        final(begin_stack)@ == begins_step(old(begin_stack)@, instr, iidx as int),
        final(locals)@ == old(locals)@ + step_local_tys(
            sfuncs@,
            globals@,
            params@,
            results@,
            old(locals)@,
            instr,
        ),
        final(br_tables)@.len() == old(br_tables)@.len() + step_brs(instr).len(),
        forall|k: int| 0 <= k < old(br_tables)@.len() ==> final(br_tables)@[k] == old(br_tables)@[k],
        forall|k: int|
            old(br_tables)@.len() <= k < final(br_tables)@.len() ==> br_matches(
                #[trigger] final(br_tables)@[k],
                step_brs(instr)[k - old(br_tables)@.len()],
            ),
{
    let n_params = params.len();
    let fi: i32 = fidx as i32;
    let ii: i32 = iidx as i32;
    let ghost begins0 = begin_stack@;
    let ghost locals0 = locals@;
    match instr {
        Instr::Unary(op) => {
            let tys2 = crate::ops::unop_tys(op);
            let inp = alloc_local(n_params, locals, tys2.0);
            let r = alloc_local(n_params, locals, tys2.1);
            instrumented.push(Instr::TeeLocal(inp));
            instrumented.push(Instr::Unary(op));
            instrumented.push(Instr::TeeLocal(r));
            instrumented.push(Instr::Const(Val::I32(fi)));
            instrumented.push(Instr::Const(Val::I32(ii)));
            let mut idxv: Vec<u32> = Vec::new();
            idxv.push(inp);
            idxv.push(r);
            let mut tyv: Vec<ValType> = Vec::new();
            tyv.push(tys2.0);
            tyv.push(tys2.1);
            let mut rest = crate::spill::restore_locals_with_i64_handling(
                &idxv,
                tyv.as_slice(),
            );
            instrumented.append(&mut rest);
            let mono_idx = crate::ops::mono_index(crate::ops::kind_of(&Instr::Unary(op)));
            proof {
                crate::ops::lemma_mono_index_at(spec_kind_of(Instr::Unary(op)));
                assert(idxv@ =~= seq![inp, r]);
                assert(tyv@ =~= seq![
                    crate::ops::spec_unop_tys(op).0,
                    crate::ops::spec_unop_tys(op).1,
                ]);
            }
            instrumented.push(Instr::Call(hooks.mono[mono_idx]));
        },
        Instr::Binary(op) => {
            let tys3 = crate::ops::binop_tys(op);
            let a = alloc_local(n_params, locals, tys3.0);
            let b = alloc_local(n_params, locals, tys3.1);
            let r = alloc_local(n_params, locals, tys3.2);
            let mut idxv: Vec<u32> = Vec::new();
            idxv.push(a);
            idxv.push(b);
            let mut save = crate::spill::save_stack_to_locals(&idxv);
            instrumented.append(&mut save);
            instrumented.push(Instr::Binary(op));
            instrumented.push(Instr::TeeLocal(r));
            instrumented.push(Instr::Const(Val::I32(fi)));
            instrumented.push(Instr::Const(Val::I32(ii)));
            let mut idxv3: Vec<u32> = Vec::new();
            idxv3.push(a);
            idxv3.push(b);
            idxv3.push(r);
            let mut tyv: Vec<ValType> = Vec::new();
            tyv.push(tys3.0);
            tyv.push(tys3.1);
            tyv.push(tys3.2);
            let mut rest = crate::spill::restore_locals_with_i64_handling(
                &idxv3,
                tyv.as_slice(),
            );
            instrumented.append(&mut rest);
            let mono_idx = crate::ops::mono_index(crate::ops::kind_of(&Instr::Binary(op)));
            proof {
                crate::ops::lemma_mono_index_at(spec_kind_of(Instr::Binary(op)));
                assert(idxv@ =~= seq![a, b]);
                assert(idxv3@ =~= seq![a, b, r]);
                assert(tyv@ =~= seq![
                    crate::ops::spec_binop_tys(op).0,
                    crate::ops::spec_binop_tys(op).1,
                    crate::ops::spec_binop_tys(op).2,
                ]);
            }
            instrumented.push(Instr::Call(hooks.mono[mono_idx]));
        },
        Instr::Load(op, ma) => {
            let ty = crate::ops::load_ty(op);
            let a = alloc_local(n_params, locals, ValType::I32);
            let v = alloc_local(n_params, locals, ty);
            instrumented.push(Instr::TeeLocal(a));
            instrumented.push(Instr::Load(op, ma));
            instrumented.push(Instr::TeeLocal(v));
            instrumented.push(Instr::Const(Val::I32(fi)));
            instrumented.push(Instr::Const(Val::I32(ii)));
            instrumented.push(Instr::Const(Val::I32(ma.offset as i32)));
            instrumented.push(Instr::Const(Val::I32(ma.alignment as i32)));
            let mut idxv: Vec<u32> = Vec::new();
            idxv.push(a);
            idxv.push(v);
            let mut tyv: Vec<ValType> = Vec::new();
            tyv.push(ValType::I32);
            tyv.push(ty);
            let mut rest = crate::spill::restore_locals_with_i64_handling(
                &idxv,
                tyv.as_slice(),
            );
            instrumented.append(&mut rest);
            let mono_idx = crate::ops::mono_index(crate::ops::kind_of(&Instr::Load(op, ma)));
            proof {
                crate::ops::lemma_mono_index_at(spec_kind_of(Instr::Load(op, ma)));
                assert(idxv@ =~= seq![a, v]);
                assert(tyv@ =~= seq![ValType::I32, spec_load_ty(op)]);
            }
            instrumented.push(Instr::Call(hooks.mono[mono_idx]));
        },
        Instr::Store(op, ma) => {
            let ty = crate::ops::store_ty(op);
            let a = alloc_local(n_params, locals, ValType::I32);
            let v = alloc_local(n_params, locals, ty);
            let mut idxv: Vec<u32> = Vec::new();
            idxv.push(a);
            idxv.push(v);
            let mut save = crate::spill::save_stack_to_locals(&idxv);
            instrumented.append(&mut save);
            instrumented.push(Instr::Store(op, ma));
            instrumented.push(Instr::Const(Val::I32(fi)));
            instrumented.push(Instr::Const(Val::I32(ii)));
            instrumented.push(Instr::Const(Val::I32(ma.offset as i32)));
            instrumented.push(Instr::Const(Val::I32(ma.alignment as i32)));
            let mut tyv: Vec<ValType> = Vec::new();
            tyv.push(ValType::I32);
            tyv.push(ty);
            let mut rest = crate::spill::restore_locals_with_i64_handling(
                &idxv,
                tyv.as_slice(),
            );
            instrumented.append(&mut rest);
            let mono_idx = crate::ops::mono_index(crate::ops::kind_of(&Instr::Store(op, ma)));
            proof {
                crate::ops::lemma_mono_index_at(spec_kind_of(Instr::Store(op, ma)));
                assert(idxv@ =~= seq![a, v]);
                assert(tyv@ =~= seq![ValType::I32, spec_store_ty(op)]);
            }
            instrumented.push(Instr::Call(hooks.mono[mono_idx]));
        },
        _ => {
            proof {
                assert(false);
            }
        },
    }
    proof {
        assert(instrumented@ =~= old(instrumented)@ + step_emit(
            *hooks,
            sfuncs@,
            globals@,
            params@,
            results@,
            fidx as int,
            iidx as int,
            old(br_tables)@.len() as int,
            begins0,
            locals0,
            instr,
        ));
        assert(begin_stack@ =~= begins_step(begins0, instr, iidx as int));
        assert(locals@ =~= locals0 + step_local_tys(
            sfuncs@,
            globals@,
            params@,
            results@,
            locals0,
            instr,
        ));
    }
}

/// Emits the instrumented replacement of a `return`.
#[verifier::loop_isolation(false)]
#[verifier::rlimit(100)]
fn instrument_return(
    hooks: &Hooks,
    sfuncs: &Vec<FunctionInfo>,
    globals: &Vec<ValType>,
    br_tables: &mut Vec<crate::static_info::BrTableInfo>,
    instrumented: &mut Vec<Instr>,
    begin_stack: &mut Vec<Begin>,
    params: &Vec<ValType>,
    results: &Vec<ValType>,
    locals: &mut Vec<ValType>,
    fidx: u32,
    iidx: usize,
    instr: Instr,
    Ghost(n0): Ghost<int>,
)
    requires
        instr is Return,
        prim_covered(*hooks),
        hooks.mono@.len() == crate::ops::MONO_COUNT,
        instr_ok(*hooks, sfuncs@, globals@, params@, results@, n0, instr),
        begins_ok_step(old(begin_stack)@, instr),
        n0 <= params@.len() + old(locals)@.len() as int,
        sfuncs@.len() < 0x8000_0000,
        fidx < 0x8000_0000,
        iidx < 0x8000_0000,
        params@.len() + old(locals)@.len() + extra_locals(sfuncs@, results@, instr) < 0x8000_0000,
        old(br_tables)@.len() + step_brs(instr).len() < 0x8000_0000,
    ensures
        final(instrumented)@ == old(instrumented)@ + step_emit(
            *hooks,
            sfuncs@,
            globals@,
            params@,
            results@,
            fidx as int,
            iidx as int,
            old(br_tables)@.len() as int,
            old(begin_stack)@,
            old(locals)@,
            instr,
        ),
        final(begin_stack)@ == begins_step(old(begin_stack)@, instr, iidx as int),
        final(locals)@ == old(locals)@ + step_local_tys(
            sfuncs@,
            globals@,
            params@,
            results@,
            old(locals)@,
            instr,
        ),
        final(br_tables)@.len() == old(br_tables)@.len() + step_brs(instr).len(),
        forall|k: int| 0 <= k < old(br_tables)@.len() ==> final(br_tables)@[k] == old(br_tables)@[k],
        forall|k: int|
            old(br_tables)@.len() <= k < final(br_tables)@.len() ==> br_matches(
                #[trigger] final(br_tables)@[k],
                step_brs(instr)[k - old(br_tables)@.len()],
            ),
{
    let n_params = params.len();
    let fi: i32 = fidx as i32;
    let ii: i32 = iidx as i32;
    let ghost begins0 = begin_stack@;
    let ghost locals0 = locals@;
    match instr {
        Instr::Return => {
            let result_tmps = alloc_locals(n_params, locals, results.as_slice());
            let mut save = crate::spill::save_stack_to_locals(&result_tmps);
            instrumented.append(&mut save);
            instrumented.push(Instr::Const(Val::I32(fi)));
            instrumented.push(Instr::Const(Val::I32(ii)));
            let mut rest = crate::spill::restore_locals_with_i64_handling(
                &result_tmps,
                results.as_slice(),
            );
            instrumented.append(&mut rest);
            let hook_call = hooks.poly.get_call(&Instr::Return, crate::ast::copy_tys(results));
            instrumented.push(hook_call);
            instrumented.push(Instr::Return);
        },
        _ => {
            proof {
                assert(false);
            }
        },
    }
    proof {
        assert(instrumented@ =~= old(instrumented)@ + step_emit(
            *hooks,
            sfuncs@,
            globals@,
            params@,
            results@,
            fidx as int,
            iidx as int,
            old(br_tables)@.len() as int,
            begins0,
            locals0,
            instr,
        ));
        assert(begin_stack@ =~= begins_step(begins0, instr, iidx as int));
        assert(locals@ =~= locals0 + step_local_tys(
            sfuncs@,
            globals@,
            params@,
            results@,
            locals0,
            instr,
        ));
    }
}


/// Emits the instrumented replacement of a direct call.
#[verifier::loop_isolation(false)]
#[verifier::rlimit(100)]
fn instrument_call(
    hooks: &Hooks,
    sfuncs: &Vec<FunctionInfo>,
    globals: &Vec<ValType>,
    br_tables: &mut Vec<crate::static_info::BrTableInfo>,
    instrumented: &mut Vec<Instr>,
    begin_stack: &mut Vec<Begin>,
    params: &Vec<ValType>,
    results: &Vec<ValType>,
    locals: &mut Vec<ValType>,
    fidx: u32,
    iidx: usize,
    instr: Instr,
    Ghost(n0): Ghost<int>,
)
    requires
        instr is Call,
        prim_covered(*hooks),
        hooks.mono@.len() == crate::ops::MONO_COUNT,
        instr_ok(*hooks, sfuncs@, globals@, params@, results@, n0, instr),
        begins_ok_step(old(begin_stack)@, instr),
        n0 <= params@.len() + old(locals)@.len() as int,
        sfuncs@.len() < 0x8000_0000,
        fidx < 0x8000_0000,
        iidx < 0x8000_0000,
        params@.len() + old(locals)@.len() + extra_locals(sfuncs@, results@, instr) < 0x8000_0000,
        old(br_tables)@.len() + step_brs(instr).len() < 0x8000_0000,
    ensures
        final(instrumented)@ == old(instrumented)@ + step_emit(
            *hooks,
            sfuncs@,
            globals@,
            params@,
            results@,
            fidx as int,
            iidx as int,
            old(br_tables)@.len() as int,
            old(begin_stack)@,
            old(locals)@,
            instr,
        ),
        final(begin_stack)@ == begins_step(old(begin_stack)@, instr, iidx as int),
        final(locals)@ == old(locals)@ + step_local_tys(
            sfuncs@,
            globals@,
            params@,
            results@,
            old(locals)@,
            instr,
        ),
        final(br_tables)@.len() == old(br_tables)@.len() + step_brs(instr).len(),
        forall|k: int| 0 <= k < old(br_tables)@.len() ==> final(br_tables)@[k] == old(br_tables)@[k],
        forall|k: int|
            old(br_tables)@.len() <= k < final(br_tables)@.len() ==> br_matches(
                #[trigger] final(br_tables)@[k],
                step_brs(instr)[k - old(br_tables)@.len()],
            ),
{
    let n_params = params.len();
    let fi: i32 = fidx as i32;
    let ii: i32 = iidx as i32;
    let ghost begins0 = begin_stack@;
    let ghost locals0 = locals@;
    match instr {
        Instr::Call(t) => {
            let arg_tys = crate::ast::copy_tys(&sfuncs[t as usize].type_.params);
            let result_tys = crate::ast::copy_tys(&sfuncs[t as usize].type_.results);
            let arg_tmps = alloc_locals(n_params, locals, arg_tys.as_slice());
            let result_tmps = alloc_locals(n_params, locals, result_tys.as_slice());
            let mut save = crate::spill::save_stack_to_locals(&arg_tmps);
            instrumented.append(&mut save);
            instrumented.push(Instr::Const(Val::I32(fi)));
            instrumented.push(Instr::Const(Val::I32(ii)));
            instrumented.push(Instr::Const(Val::I32(t as i32)));
            let mut rest = crate::spill::restore_locals_with_i64_handling(
                &arg_tmps,
                arg_tys.as_slice(),
            );
            instrumented.append(&mut rest);
            let hook_call = hooks.poly.get_call(
                &Instr::Call(t),
                crate::ast::copy_tys(&arg_tys),
            );
            instrumented.push(hook_call);
            instrumented.push(Instr::Call(t));
            let mut save2 = crate::spill::save_stack_to_locals(&result_tmps);
            instrumented.append(&mut save2);
            instrumented.push(Instr::Const(Val::I32(fi)));
            instrumented.push(Instr::Const(Val::I32(ii)));
            let mut rest2 = crate::spill::restore_locals_with_i64_handling(
                &result_tmps,
                result_tys.as_slice(),
            );
            instrumented.append(&mut rest2);
            let cr = crate::hooks::cr_get(&hooks.call_result, &result_tys);
            instrumented.push(Instr::Call(cr));
        },
        _ => {
            proof {
                assert(false);
            }
        },
    }
    proof {
        assert(instrumented@ =~= old(instrumented)@ + step_emit(
            *hooks,
            sfuncs@,
            globals@,
            params@,
            results@,
            fidx as int,
            iidx as int,
            old(br_tables)@.len() as int,
            begins0,
            locals0,
            instr,
        ));
        assert(begin_stack@ =~= begins_step(begins0, instr, iidx as int));
        assert(locals@ =~= locals0 + step_local_tys(
            sfuncs@,
            globals@,
            params@,
            results@,
            locals0,
            instr,
        ));
    }
}


/// Emits the instrumented replacement of an indirect call.
#[verifier::loop_isolation(false)]
#[verifier::rlimit(100)]
fn instrument_call_indirect(
    hooks: &Hooks,
    sfuncs: &Vec<FunctionInfo>,
    globals: &Vec<ValType>,
    br_tables: &mut Vec<crate::static_info::BrTableInfo>,
    instrumented: &mut Vec<Instr>,
    begin_stack: &mut Vec<Begin>,
    params: &Vec<ValType>,
    results: &Vec<ValType>,
    locals: &mut Vec<ValType>,
    fidx: u32,
    iidx: usize,
    instr: Instr,
    Ghost(n0): Ghost<int>,
)
    requires
        instr is CallIndirect,
        prim_covered(*hooks),
        hooks.mono@.len() == crate::ops::MONO_COUNT,
        instr_ok(*hooks, sfuncs@, globals@, params@, results@, n0, instr),
        begins_ok_step(old(begin_stack)@, instr),
        n0 <= params@.len() + old(locals)@.len() as int,
        sfuncs@.len() < 0x8000_0000,
        fidx < 0x8000_0000,
        iidx < 0x8000_0000,
        params@.len() + old(locals)@.len() + extra_locals(sfuncs@, results@, instr) < 0x8000_0000,
        old(br_tables)@.len() + step_brs(instr).len() < 0x8000_0000,
    ensures
        final(instrumented)@ == old(instrumented)@ + step_emit(
            *hooks,
            sfuncs@,
            globals@,
            params@,
            results@,
            fidx as int,
            iidx as int,
            old(br_tables)@.len() as int,
            old(begin_stack)@,
            old(locals)@,
            instr,
        ),
        final(begin_stack)@ == begins_step(old(begin_stack)@, instr, iidx as int),
        final(locals)@ == old(locals)@ + step_local_tys(
            sfuncs@,
            globals@,
            params@,
            results@,
            old(locals)@,
            instr,
        ),
        final(br_tables)@.len() == old(br_tables)@.len() + step_brs(instr).len(),
        forall|k: int| 0 <= k < old(br_tables)@.len() ==> final(br_tables)@[k] == old(br_tables)@[k],
        forall|k: int|
            old(br_tables)@.len() <= k < final(br_tables)@.len() ==> br_matches(
                #[trigger] final(br_tables)@[k],
                step_brs(instr)[k - old(br_tables)@.len()],
            ),
{
    let n_params = params.len();
    let fi: i32 = fidx as i32;
    let ii: i32 = iidx as i32;
    let ghost begins0 = begin_stack@;
    let ghost locals0 = locals@;
    match instr {
        Instr::CallIndirect(ft, tbl) => {
            let ttmp = alloc_local(n_params, locals, ValType::I32);
            let arg_tmps = alloc_locals(n_params, locals, ft.params.as_slice());
            let result_tmps = alloc_locals(n_params, locals, ft.results.as_slice());
            instrumented.push(Instr::SetLocal(ttmp));
            let mut save = crate::spill::save_stack_to_locals(&arg_tmps);
            instrumented.append(&mut save);
            instrumented.push(Instr::GetLocal(ttmp));
            instrumented.push(Instr::Const(Val::I32(fi)));
            instrumented.push(Instr::Const(Val::I32(ii)));
            instrumented.push(Instr::GetLocal(ttmp));
            let mut rest = crate::spill::restore_locals_with_i64_handling(
                &arg_tmps,
                ft.params.as_slice(),
            );
            instrumented.append(&mut rest);
            let result_tys = crate::ast::copy_tys(&ft.results);
            let hook_call = hooks.poly.get_call(
                &Instr::CallIndirect(crate::ops::FunctionType::new(Vec::new(), Vec::new()), 0),
                crate::ast::copy_tys(&ft.params),
            );
            instrumented.push(hook_call);
            instrumented.push(Instr::CallIndirect(ft, tbl));
            let mut save2 = crate::spill::save_stack_to_locals(&result_tmps);
            instrumented.append(&mut save2);
            instrumented.push(Instr::Const(Val::I32(fi)));
            instrumented.push(Instr::Const(Val::I32(ii)));
            let mut rest2 = crate::spill::restore_locals_with_i64_handling(
                &result_tmps,
                result_tys.as_slice(),
            );
            instrumented.append(&mut rest2);
            let cr = crate::hooks::cr_get(&hooks.call_result, &result_tys);
            instrumented.push(Instr::Call(cr));
        },
        _ => {
            proof {
                assert(false);
            }
        },
    }
    proof {
        assert(instrumented@ =~= old(instrumented)@ + step_emit(
            *hooks,
            sfuncs@,
            globals@,
            params@,
            results@,
            fidx as int,
            iidx as int,
            old(br_tables)@.len() as int,
            begins0,
            locals0,
            instr,
        ));
        assert(begin_stack@ =~= begins_step(begins0, instr, iidx as int));
        assert(locals@ =~= locals0 + step_local_tys(
            sfuncs@,
            globals@,
            params@,
            results@,
            locals0,
            instr,
        ));
    }
}


/// Emits the instrumented replacement of one call or return instruction.
#[verifier::loop_isolation(false)]
fn instrument_calls(
    hooks: &Hooks,
    sfuncs: &Vec<FunctionInfo>,
    globals: &Vec<ValType>,
    br_tables: &mut Vec<crate::static_info::BrTableInfo>,
    instrumented: &mut Vec<Instr>,
    begin_stack: &mut Vec<Begin>,
    params: &Vec<ValType>,
    results: &Vec<ValType>,
    locals: &mut Vec<ValType>,
    fidx: u32,
    iidx: usize,
    instr: Instr,
    Ghost(n0): Ghost<int>,
)
    requires
        is_calls(instr),
        prim_covered(*hooks),
        hooks.mono@.len() == crate::ops::MONO_COUNT,
        instr_ok(*hooks, sfuncs@, globals@, params@, results@, n0, instr),
        begins_ok_step(old(begin_stack)@, instr),
        n0 <= params@.len() + old(locals)@.len() as int,
        sfuncs@.len() < 0x8000_0000,
        fidx < 0x8000_0000,
        iidx < 0x8000_0000,
        params@.len() + old(locals)@.len() + extra_locals(sfuncs@, results@, instr) < 0x8000_0000,
        old(br_tables)@.len() + step_brs(instr).len() < 0x8000_0000,
    ensures
        final(instrumented)@ == old(instrumented)@ + step_emit(
            *hooks,
            sfuncs@,
            globals@,
            params@,
            results@,
            fidx as int,
            iidx as int,
            old(br_tables)@.len() as int,
            old(begin_stack)@,
            old(locals)@,
            instr,
        ),
        final(begin_stack)@ == begins_step(old(begin_stack)@, instr, iidx as int),
        final(locals)@ == old(locals)@ + step_local_tys(
            sfuncs@,
            globals@,
            params@,
            results@,
            old(locals)@,
            instr,
        ),
        final(br_tables)@.len() == old(br_tables)@.len() + step_brs(instr).len(),
        forall|k: int| 0 <= k < old(br_tables)@.len() ==> final(br_tables)@[k] == old(br_tables)@[k],
        forall|k: int|
            old(br_tables)@.len() <= k < final(br_tables)@.len() ==> br_matches(
                #[trigger] final(br_tables)@[k],
                step_brs(instr)[k - old(br_tables)@.len()],
            ),
{
    let n_params = params.len();
    let fi: i32 = fidx as i32;
    let ii: i32 = iidx as i32;
    let ghost begins0 = begin_stack@;
    let ghost locals0 = locals@;
    match &instr {
        Instr::Return => {
            instrument_return(
                hooks,
                sfuncs,
                globals,
                br_tables,
                instrumented,
                begin_stack,
                params,
                results,
                locals,
                fidx,
                iidx,
                instr,
                Ghost(n0),
            );
        },
        Instr::Call(_) => {
            instrument_call(
                hooks,
                sfuncs,
                globals,
                br_tables,
                instrumented,
                begin_stack,
                params,
                results,
                locals,
                fidx,
                iidx,
                instr,
                Ghost(n0),
            );
        },
        _ => {
            instrument_call_indirect(
                hooks,
                sfuncs,
                globals,
                br_tables,
                instrumented,
                begin_stack,
                params,
                results,
                locals,
                fidx,
                iidx,
                instr,
                Ghost(n0),
            );
        },
    }
}

/// Emits the instrumented replacement of one original instruction, updating
/// the region stack, the scratch locals and the branch-table side table
/// exactly as the rewrite fold does.
fn instrument_one(
    hooks: &Hooks,
    sfuncs: &Vec<FunctionInfo>,
    globals: &Vec<ValType>,
    br_tables: &mut Vec<crate::static_info::BrTableInfo>,
    instrumented: &mut Vec<Instr>,
    begin_stack: &mut Vec<Begin>,
    params: &Vec<ValType>,
    results: &Vec<ValType>,
    locals: &mut Vec<ValType>,
    fidx: u32,
    iidx: usize,
    instr: Instr,
    Ghost(n0): Ghost<int>,
)
    requires
        prim_covered(*hooks),
        hooks.mono@.len() == crate::ops::MONO_COUNT,
        instr_ok(*hooks, sfuncs@, globals@, params@, results@, n0, instr),
        begins_ok_step(old(begin_stack)@, instr),
        n0 <= params@.len() + old(locals)@.len() as int,
        sfuncs@.len() < 0x8000_0000,
        fidx < 0x8000_0000,
        iidx < 0x8000_0000,
        params@.len() + old(locals)@.len() + extra_locals(sfuncs@, results@, instr) < 0x8000_0000,
        old(br_tables)@.len() + step_brs(instr).len() < 0x8000_0000,
    ensures
        final(instrumented)@ == old(instrumented)@ + step_emit(
            *hooks,
            sfuncs@,
            globals@,
            params@,
            results@,
            fidx as int,
            iidx as int,
            old(br_tables)@.len() as int,
            old(begin_stack)@,
            old(locals)@,
            instr,
        ),
        final(begin_stack)@ == begins_step(old(begin_stack)@, instr, iidx as int),
        final(locals)@ == old(locals)@ + step_local_tys(
            sfuncs@,
            globals@,
            params@,
            results@,
            old(locals)@,
            instr,
        ),
        final(br_tables)@.len() == old(br_tables)@.len() + step_brs(instr).len(),
        forall|k: int| 0 <= k < old(br_tables)@.len() ==> final(br_tables)@[k] == old(br_tables)@[k],
        forall|k: int|
            old(br_tables)@.len() <= k < final(br_tables)@.len() ==> br_matches(
                #[trigger] final(br_tables)@[k],
                step_brs(instr)[k - old(br_tables)@.len()],
            ),
{
    match &instr {
        Instr::GetLocal(_) | Instr::SetLocal(_) | Instr::TeeLocal(_) | Instr::GetGlobal(_)
            | Instr::SetGlobal(_) | Instr::Const(_) => {
            instrument_vars(
                hooks,
                sfuncs,
                globals,
                br_tables,
                instrumented,
                begin_stack,
                params,
                results,
                locals,
                fidx,
                iidx,
                instr,
                Ghost(n0),
            );
        },
        Instr::Unary(_) | Instr::Binary(_) | Instr::Load(_, _) | Instr::Store(_, _) => {
            instrument_num(
                hooks,
                sfuncs,
                globals,
                br_tables,
                instrumented,
                begin_stack,
                params,
                results,
                locals,
                fidx,
                iidx,
                instr,
                Ghost(n0),
            );
        },
        Instr::Return | Instr::Call(_) | Instr::CallIndirect(_, _) => {
            instrument_calls(
                hooks,
                sfuncs,
                globals,
                br_tables,
                instrumented,
                begin_stack,
                params,
                results,
                locals,
                fidx,
                iidx,
                instr,
                Ghost(n0),
            );
        },
        _ => {
            instrument_ctrl(
                hooks,
                sfuncs,
                globals,
                br_tables,
                instrumented,
                begin_stack,
                params,
                results,
                locals,
                fidx,
                iidx,
                instr,
                Ghost(n0),
            );
        },
    }
}

/// The type of local slot `k` of a function with these parameters and
/// locals.
fn lookup_local_ty(params: &Vec<ValType>, locals: &Vec<ValType>, k: u32) -> (t: ValType)
    requires
        k < params@.len() + locals@.len(),
    ensures
        t == local_ty_at(params@, locals@, k as int),
{
    if (k as usize) < params.len() {
        params[k as usize]
    } else {
        locals[k as usize - params.len()]
    }
}

} // verus!
