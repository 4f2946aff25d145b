use vstd::prelude::*;

use vstd::string::StringExecFns;

use crate::ast::{Code, Function, Module};
use crate::control::{begins_ok_step, spec_begins};
use crate::hooks::{build_hooks, is_hooks_import, Hooks};
use crate::json::spec_json_info;
use crate::ops::{Instr, InstrKind, ValType, MONO_COUNT};
use crate::rewrite::{
    body_ok, br_matches, brs_upto, extras_upto, instr_ok, instrument_function, prim_covered,
    rw_fold,
};
use crate::static_info::{BrTableInfo, FunctionInfo, ModuleInfo};

verus! {

/// The per-instruction conditions a module must meet before any hooks exist:
/// indices in range, immediates that fit a 32-bit constant, and for each
/// indirect call a type that some function of the module shares, so that a
/// hook will have been monomorphized for it.
pub open spec fn m_instr_ok(
    funcs: Seq<Function>,
    globals: Seq<ValType>,
    n0: int,
    i: Instr,
) -> bool {
    match i {
        Instr::GetLocal(k) => k < n0 && k < 0x8000_0000,
        Instr::SetLocal(k) => k < n0 && k < 0x8000_0000,
        Instr::TeeLocal(k) => k < n0 && k < 0x8000_0000,
        Instr::GetGlobal(g) => g < globals.len() && g < 0x8000_0000,
        Instr::SetGlobal(g) => g < globals.len() && g < 0x8000_0000,
        Instr::Call(t) => t < funcs.len() && t < 0x8000_0000,
        Instr::CallIndirect(ft, _) => {
            &&& exists|j: int|
                0 <= j < funcs.len() && (#[trigger] funcs[j]).type_.params@ == ft.params@
            &&& exists|j: int|
                0 <= j < funcs.len() && (#[trigger] funcs[j]).type_.results@ == ft.results@
        },
        Instr::Br(l) => l < 0x8000_0000,
        Instr::BrIf(l) => l < 0x8000_0000,
        Instr::Load(_, ma) => ma.offset < 0x8000_0000 && ma.alignment < 0x8000_0000,
        Instr::Store(_, ma) => ma.offset < 0x8000_0000 && ma.alignment < 0x8000_0000,
        _ => true,
    }
}

/// `extra_locals`, stated over the module's own function list.
pub open spec fn m_extra_locals(funcs: Seq<Function>, results: Seq<ValType>, i: Instr) -> int {
    match i {
        Instr::If(_) => 1,
        Instr::Select => 1,
        Instr::CurrentMemory(_) => 1,
        Instr::GrowMemory(_) => 2,
        Instr::BrIf(_) => 1,
        Instr::BrTable(_, _) => 1,
        Instr::Return => results.len() as int,
        Instr::Call(t) => funcs[t as int].type_.params@.len() + funcs[
            t as int
        ].type_.results@.len() as int,
        Instr::CallIndirect(ft, _) => 1 + ft.params@.len() + ft.results@.len() as int,
        Instr::Unary(_) => 2,
        Instr::Binary(_) => 3,
        Instr::Load(_, _) => 2,
        Instr::Store(_, _) => 2,
        _ => 0,
    }
}

/// `extras_upto`, stated over the module's own function list.
pub open spec fn m_extras_upto(
    funcs: Seq<Function>,
    results: Seq<ValType>,
    body: Seq<Instr>,
    n: int,
) -> int
    decreases n,
{
    if n <= 0 {
        0
    } else {
        m_extras_upto(funcs, results, body, n - 1) + m_extra_locals(funcs, results, body[n - 1])
    }
}

/// One function body the pass can rewrite, stated without the hooks.
pub open spec fn fn_wf(funcs: Seq<Function>, globals: Seq<ValType>, f: Function) -> bool {
    f.code is Some ==> {
        let params = f.type_.params@;
        let results = f.type_.results@;
        let body = f.code->0.body@;
        let n0 = params.len() + f.code->0.locals@.len() as int;
        &&& body.len() < 0x8000_0000
        &&& forall|k: int|
            0 <= k < body.len() ==> m_instr_ok(funcs, globals, n0, #[trigger] body[k])
        &&& forall|k: int|
            0 <= k < body.len() ==> begins_ok_step(#[trigger] spec_begins(body, k), body[k])
        &&& spec_begins(body, body.len() as int).len() == 0
        &&& n0 + m_extras_upto(funcs, results, body, body.len() as int) < 0x8000_0000
    }
}

/// How many `br_table` instructions the coded bodies of the first `i`
/// functions hold, all together: the side-table index space.
pub open spec fn total_brs(funcs: Seq<Function>, i: int) -> int
    decreases i,
{
    if i <= 0 {
        0
    } else {
        total_brs(funcs, i - 1) + if funcs[i - 1].code is Some {
            brs_upto(funcs[i - 1].code->0.body@, funcs[i - 1].code->0.body@.len() as int)
        } else {
            0
        }
    }
}

/// A module the pass accepts: index spaces small enough that every emitted
/// 32-bit constant and every appended hook index fits, and every body
/// well nested with valid references.
pub open spec fn module_rewritable(m: Module) -> bool {
    &&& m.functions@.len() * 8 + 400 < u32::MAX
    &&& m.functions@.len() < 0x8000_0000
    &&& forall|i: int|
        0 <= i < m.functions@.len() ==> fn_wf(m.functions@, m.globals@, #[trigger] m.functions@[i])
    &&& total_brs(m.functions@, m.functions@.len() as int) < 0x8000_0000
}

proof fn lemma_extras_bridge(
    finfo: Seq<FunctionInfo>,
    funcs: Seq<Function>,
    globals: Seq<ValType>,
    results: Seq<ValType>,
    n0: int,
    body: Seq<Instr>,
    n: int,
)
    requires
        0 <= n <= body.len(),
        finfo.len() == funcs.len(),
        forall|i: int|
            0 <= i < funcs.len() ==> {
                &&& (#[trigger] finfo[i]).type_.params@ == funcs[i].type_.params@
                &&& finfo[i].type_.results@ == funcs[i].type_.results@
            },
        forall|k: int|
            0 <= k < body.len() ==> m_instr_ok(funcs, globals, n0, #[trigger] body[k]),
    ensures
        extras_upto(finfo, results, body, n) == m_extras_upto(funcs, results, body, n),
    decreases n,
{
    if n > 0 {
        lemma_extras_bridge(finfo, funcs, globals, results, n0, body, n - 1);
    }
}

proof fn lemma_body_ok_bridge(
    h: Hooks,
    finfo: Seq<FunctionInfo>,
    funcs: Seq<Function>,
    globals: Seq<ValType>,
    fi: int,
    n0: int,
    body: Seq<Instr>,
)
    requires
        h.covers(funcs),
        finfo.len() == funcs.len(),
        forall|i: int|
            0 <= i < funcs.len() ==> {
                &&& (#[trigger] finfo[i]).type_.params@ == funcs[i].type_.params@
                &&& finfo[i].type_.results@ == funcs[i].type_.results@
            },
        0 <= fi < funcs.len(),
        forall|k: int|
            0 <= k < body.len() ==> m_instr_ok(funcs, globals, n0, #[trigger] body[k]),
        forall|k: int|
            0 <= k < body.len() ==> begins_ok_step(#[trigger] spec_begins(body, k), body[k]),
        spec_begins(body, body.len() as int).len() == 0,
    ensures
        body_ok(
            h,
            finfo,
            globals,
            funcs[fi].type_.params@,
            funcs[fi].type_.results@,
            n0,
            body,
        ),
{
    let params = funcs[fi].type_.params@;
    let results = funcs[fi].type_.results@;
    assert forall|k: int| 0 <= k < body.len() implies instr_ok(
        h,
        finfo,
        globals,
        params,
        results,
        n0,
        #[trigger] body[k],
    ) by {
        let i = body[k];
        assert(m_instr_ok(funcs, globals, n0, i));
        if i is Return {
            assert(h.poly.spec_contains(InstrKind::Return, funcs[fi].type_.results@));
            assert(crate::hooks::cr_contains(h.call_result@, funcs[fi].type_.results@));
        } else if i is Call {
            let t = i->Call_0;
            assert(h.poly.spec_contains(InstrKind::Call, funcs[t as int].type_.params@));
            assert(finfo[t as int].type_.params@ == funcs[t as int].type_.params@);
            assert(crate::hooks::cr_contains(h.call_result@, funcs[t as int].type_.results@));
        } else if i is CallIndirect {
            let ft = i->CallIndirect_0;
            let j1 = choose|j: int|
                0 <= j < funcs.len() && (#[trigger] funcs[j]).type_.params@ == ft.params@;
            assert(h.poly.spec_contains(InstrKind::CallIndirect, funcs[j1].type_.params@));
            let j2 = choose|j: int|
                0 <= j < funcs.len() && (#[trigger] funcs[j]).type_.results@ == ft.results@;
            assert(crate::hooks::cr_contains(h.call_result@, funcs[j2].type_.results@));
        } else {
        }
    }
}

/// Everything `add_hooks` promises of the rewritten module, the hook
/// registry it added, and the returned side table: the hooks are imports of
/// the stated signatures at the consecutive indices after the original
/// functions; every coded body is replaced by exactly its rewrite fold; the
/// side table lists every `br_table`'s labels in pass order; and the string
/// is its JSON rendering.
pub open spec fn add_hooks_post(
    old_m: Module,
    new_m: Module,
    h: Hooks,
    finfo: Seq<FunctionInfo>,
    brs: Seq<BrTableInfo>,
    s: String,
) -> bool {
    let orig = old_m.functions@;
    &&& finfo.len() == orig.len()
    &&& forall|i: int|
        0 <= i < orig.len() ==> {
            &&& (#[trigger] finfo[i]).type_.params@ == orig[i].type_.params@
            &&& finfo[i].type_.results@ == orig[i].type_.results@
        }
    &&& h.wf(new_m.functions@)
    &&& h.positioned(orig.len() as int)
    &&& h.covers(orig)
    &&& prim_covered(h)
    &&& new_m.functions@.len() == orig.len() + h.poly.entries@.len() + h.call_result@.len() + 20
        + MONO_COUNT
    &&& forall|i: int|
        orig.len() <= i < new_m.functions@.len() ==> is_hooks_import(
            #[trigger] new_m.functions@[i],
        )
    &&& forall|i: int|
        0 <= i < orig.len() ==> {
            let f = #[trigger] new_m.functions@[i];
            &&& f.type_ == orig[i].type_
            &&& f.import == orig[i].import
            &&& f.export == orig[i].export
            &&& (orig[i].code is None ==> f.code is None)
            &&& (orig[i].code is Some ==> f.code is Some && {
                let st = rw_fold(
                    h,
                    finfo,
                    old_m.globals@,
                    orig[i].type_.params@,
                    orig[i].type_.results@,
                    i,
                    total_brs(orig, i),
                    orig[i].code->0.locals@,
                    orig[i].code->0.body@,
                    orig[i].code->0.body@.len() as int,
                );
                &&& f.code->0.body@ == st.out
                &&& f.code->0.locals@ == st.locals
            })
        }
    &&& new_m.globals == old_m.globals
    &&& new_m.tables@.len() == old_m.tables@.len()
    &&& forall|t: int|
        0 <= t < old_m.tables@.len() ==> {
            let e = (#[trigger] new_m.tables@[t]).export;
            &&& (old_m.tables@[t].export is Some ==> e == old_m.tables@[t].export)
            &&& (old_m.tables@[t].export is None ==> e is Some && e->0@ == "table"@)
        }
    &&& brs.len() == total_brs(orig, orig.len() as int)
    &&& forall|i: int, k: int|
        0 <= i < orig.len() && orig[i].code is Some && 0 <= k < rw_fold(
            h,
            finfo,
            old_m.globals@,
            orig[i].type_.params@,
            orig[i].type_.results@,
            i,
            total_brs(orig, i),
            orig[i].code->0.locals@,
            orig[i].code->0.body@,
            orig[i].code->0.body@.len() as int,
        ).brs.len() ==> br_matches(
            #[trigger] brs[total_brs(orig, i) + k],
            rw_fold(
                h,
                finfo,
                old_m.globals@,
                orig[i].type_.params@,
                orig[i].type_.results@,
                i,
                total_brs(orig, i),
                orig[i].code->0.locals@,
                orig[i].code->0.body@,
                orig[i].code->0.body@.len() as int,
            ).brs[k],
        )
    &&& s@ == spec_json_info(finfo, old_m.globals@, brs)
}

/// Rewrites the module in place: exports the table, registers every hook as
/// an import, instruments every coded function body, and returns the side
/// table serialized as JSON.
#[verifier::loop_isolation(false)]
#[verifier::rlimit(100)]
pub fn add_hooks(module: &mut Module) -> (r: Option<String>)
    requires
        module_rewritable(*old(module)),
    ensures
        r is Some,
        exists|h: Hooks, finfo: Seq<FunctionInfo>, brs: Seq<BrTableInfo>|
            add_hooks_post(*old(module), *final(module), h, finfo, brs, r->0),
{
    let ghost orig = old(module).functions@;
    let ghost orig_globals = old(module).globals@;

    // export the table so the observer can resolve table indices
    let mut t: usize = 0;
    while t < module.tables.len()
        invariant
            0 <= t <= module.tables@.len(),
            module.functions == old(module).functions,
            module.globals == old(module).globals,
            module.tables@.len() == old(module).tables@.len(),
            forall|u: int| t <= u < module.tables@.len() ==> module.tables@[u] == old(module).tables@[u],
            forall|u: int|
                0 <= u < t ==> {
                    let e = (#[trigger] module.tables@[u]).export;
                    &&& (old(module).tables@[u].export is Some ==> e == old(module).tables@[u].export)
                    &&& (old(module).tables@[u].export is None ==> e is Some && e->0@ == "table"@)
                },
        decreases module.tables@.len() - t,
    {
        let tb = &mut module.tables[t];
        if tb.export.is_none() {
            tb.export = Some(String::from_str("table"));
        }
        t = t + 1;
    }

    let mut static_info = ModuleInfo::from_module(&*module);
    let hooks = build_hooks(module);
    let ghost finfo = static_info.functions@;
    let orig_len = static_info.functions.len();
    proof {
        assert(orig_len == orig.len());
        assert(static_info.globals@ == orig_globals);
        assert(prim_covered(hooks));
    }

    let mut fidx: usize = 0;
    while fidx < orig_len
        invariant
            0 <= fidx <= orig_len,
            orig_len == orig.len(),
            static_info.functions@ == finfo,
            static_info.globals@ == orig_globals,
            static_info.br_tables@.len() == total_brs(orig, fidx as int),
            module.functions@.len() == orig.len() + hooks.poly.entries@.len()
                + hooks.call_result@.len() + 20 + MONO_COUNT,
            module.globals == old(module).globals,
            module.tables@.len() == old(module).tables@.len(),
            forall|u: int|
                0 <= u < module.tables@.len() ==> {
                    let e = (#[trigger] module.tables@[u]).export;
                    &&& (old(module).tables@[u].export is Some ==> e == old(module).tables@[u].export)
                    &&& (old(module).tables@[u].export is None ==> e is Some && e->0@ == "table"@)
                },
            hooks.wf(module.functions@),
            hooks.positioned(orig.len() as int),
            hooks.covers(orig),
            forall|i: int|
                orig.len() <= i < module.functions@.len() ==> is_hooks_import(
                    #[trigger] module.functions@[i],
                ),
            forall|i: int|
                fidx <= i < orig.len() ==> #[trigger] module.functions@[i] == orig[i],
            forall|i: int|
                0 <= i < fidx ==> {
                    let f = #[trigger] module.functions@[i];
                    &&& f.type_ == orig[i].type_
                    &&& f.import == orig[i].import
                    &&& f.export == orig[i].export
                    &&& (orig[i].code is None ==> f.code is None)
                    &&& (orig[i].code is Some ==> f.code is Some && {
                        let st = rw_fold(
                            hooks,
                            finfo,
                            orig_globals,
                            orig[i].type_.params@,
                            orig[i].type_.results@,
                            i,
                            total_brs(orig, i),
                            orig[i].code->0.locals@,
                            orig[i].code->0.body@,
                            orig[i].code->0.body@.len() as int,
                        );
                        &&& f.code->0.body@ == st.out
                        &&& f.code->0.locals@ == st.locals
                    })
                },
            forall|i: int, k: int|
                0 <= i < fidx && orig[i].code is Some && 0 <= k < rw_fold(
                    hooks,
                    finfo,
                    orig_globals,
                    orig[i].type_.params@,
                    orig[i].type_.results@,
                    i,
                    total_brs(orig, i),
                    orig[i].code->0.locals@,
                    orig[i].code->0.body@,
                    orig[i].code->0.body@.len() as int,
                ).brs.len() ==> br_matches(
                    #[trigger] static_info.br_tables@[total_brs(orig, i) + k],
                    rw_fold(
                        hooks,
                        finfo,
                        orig_globals,
                        orig[i].type_.params@,
                        orig[i].type_.results@,
                        i,
                        total_brs(orig, i),
                        orig[i].code->0.locals@,
                        orig[i].code->0.body@,
                        orig[i].code->0.body@.len() as int,
                    ).brs[k],
                ),
        decreases orig_len - fidx,
    {
        let ghost nbr_pre = static_info.br_tables@.len() as int;
        let f = &mut module.functions[fidx];
        let code_opt = f.code.take();
        match code_opt {
            None => {
                proof {
                    assert(orig[fidx as int].code is None);
                    lemma_total_brs_step(orig, fidx as int);
                }
            },
            Some(code) => {
                let Code { locals: mut locals, body } = code;
                let ghost body_g = body@;
                let ghost locals_g = locals@;
                let params = crate::ast::copy_tys(&f.type_.params);
                let results = crate::ast::copy_tys(&f.type_.results);
                proof {
                    assert(fn_wf(orig, orig_globals, orig[fidx as int]));
                    lemma_body_ok_bridge(
                        hooks,
                        finfo,
                        orig,
                        orig_globals,
                        fidx as int,
                        params@.len() + locals_g.len() as int,
                        body_g,
                    );
                    lemma_extras_bridge(
                        finfo,
                        orig,
                        orig_globals,
                        results@,
                        params@.len() + locals_g.len() as int,
                        body_g,
                        body_g.len() as int,
                    );
                    crate::rewrite::lemma_fold_brs_len(
                        hooks,
                        finfo,
                        orig_globals,
                        params@,
                        results@,
                        fidx as int,
                        nbr_pre,
                        locals_g,
                        body_g,
                        body_g.len() as int,
                    );
                    lemma_total_brs_step(orig, fidx as int);
                    lemma_total_brs_mono(orig, fidx + 1, orig.len() as int);
                }
                let ghost pre_tables = static_info.br_tables@;
                let new_body = instrument_function(
                    &hooks,
                    &mut static_info,
                    &params,
                    &results,
                    &mut locals,
                    body,
                    fidx as u32,
                );
                f.code = Some(Code { locals, body: new_body });
                proof {
                    let st = rw_fold(
                        hooks,
                        finfo,
                        orig_globals,
                        orig[fidx as int].type_.params@,
                        orig[fidx as int].type_.results@,
                        fidx as int,
                        nbr_pre,
                        locals_g,
                        body_g,
                        body_g.len() as int,
                    );
                    assert forall|k: int| 0 <= k < st.brs.len() implies br_matches(
                        #[trigger] static_info.br_tables@[total_brs(orig, fidx as int) + k],
                        st.brs[k],
                    ) by {
                        assert(br_matches(
                            static_info.br_tables@[nbr_pre + k],
                            st.brs[(nbr_pre + k) - nbr_pre],
                        ));
                    }
                    assert(forall|k: int|
                        0 <= k < pre_tables.len() ==> static_info.br_tables@[k] == pre_tables[k]);
                    assert forall|i: int, k: int|
                        0 <= i < fidx && orig[i].code is Some && 0 <= k < rw_fold(
                            hooks,
                            finfo,
                            orig_globals,
                            orig[i].type_.params@,
                            orig[i].type_.results@,
                            i,
                            total_brs(orig, i),
                            orig[i].code->0.locals@,
                            orig[i].code->0.body@,
                            orig[i].code->0.body@.len() as int,
                        ).brs.len() implies br_matches(
                        #[trigger] static_info.br_tables@[total_brs(orig, i) + k],
                        rw_fold(
                            hooks,
                            finfo,
                            orig_globals,
                            orig[i].type_.params@,
                            orig[i].type_.results@,
                            i,
                            total_brs(orig, i),
                            orig[i].code->0.locals@,
                            orig[i].code->0.body@,
                            orig[i].code->0.body@.len() as int,
                        ).brs[k],
                    ) by {
                        crate::rewrite::lemma_fold_brs_len(
                            hooks,
                            finfo,
                            orig_globals,
                            orig[i].type_.params@,
                            orig[i].type_.results@,
                            i,
                            total_brs(orig, i),
                            orig[i].code->0.locals@,
                            orig[i].code->0.body@,
                            orig[i].code->0.body@.len() as int,
                        );
                        lemma_total_brs_step(orig, i);
                        lemma_total_brs_mono(orig, 0, i);
                        lemma_total_brs_mono(orig, i + 1, fidx as int);
                        assert(0 <= total_brs(orig, i) + k < nbr_pre);
                        assert(static_info.br_tables@[total_brs(orig, i) + k] == pre_tables[
                            total_brs(orig, i) + k
                        ]);
                    }
                }
            },
        }
        fidx = fidx + 1;
    }

    let json = crate::json::json_info(&static_info);
    let r = Some(json);
    proof {
        assert(add_hooks_post(
            *old(module),
            *module,
            hooks,
            finfo,
            static_info.br_tables@,
            r->0,
        ));
    }
    r
}

proof fn lemma_total_brs_step(funcs: Seq<Function>, i: int)
    requires
        0 <= i < funcs.len(),
    ensures
        total_brs(funcs, i + 1) == total_brs(funcs, i) + if funcs[i].code is Some {
            brs_upto(funcs[i].code->0.body@, funcs[i].code->0.body@.len() as int)
        } else {
            0
        },
{
}

proof fn lemma_total_brs_mono(funcs: Seq<Function>, n1: int, n2: int)
    requires
        0 <= n1 <= n2,
    ensures
        total_brs(funcs, n1) <= total_brs(funcs, n2),
    decreases n2,
{
    if n2 > 0 {
        if n1 == n2 {
            lemma_total_brs_mono(funcs, n1 - 1, n1 - 1);
        } else {
            lemma_total_brs_mono(funcs, n1, n2 - 1);
            if funcs[n2 - 1].code is Some {
                crate::rewrite::lemma_brs_mono(
                    funcs[n2 - 1].code->0.body@,
                    0,
                    funcs[n2 - 1].code->0.body@.len() as int,
                );
            }
        }
    }
}

} // verus!
