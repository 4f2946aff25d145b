use vstd::prelude::*;

use vstd::string::StringExecFns;

use crate::ast::{Function, Module};
use crate::convert::{convert_i64_types, spec_convert_tys};
use crate::names::append_mangled_tys;
use crate::ops::{
    kind_name, kind_of, mono_kind_at, mono_kind_for, spec_group_args, spec_kind_of, FunctionType,
    Instr, InstrKind, ValType, MONO_COUNT,
};

verus! {

/// An imported hook function of the given name: takes the two `i32`
/// location arguments, then the given argument types with every `i64`
/// expanded to two `i32`s, and returns nothing.
pub open spec fn hook_fn_ok(funcs: Seq<Function>, idx: u32, args: Seq<ValType>, name: Seq<char>) -> bool {
    &&& idx < funcs.len()
    &&& funcs[idx as int].type_.params@ == seq![ValType::I32, ValType::I32] + spec_convert_tys(
        args,
    )
    &&& funcs[idx as int].type_.results@.len() == 0
    &&& funcs[idx as int].code is None
    &&& is_hooks_import(funcs[idx as int])
    &&& import_name_of(funcs[idx as int])@ == name
}

/// An import from the observer module `"hooks"`.
pub open spec fn is_hooks_import(f: Function) -> bool {
    f.import matches Some(p) && p.0@ == "hooks"@
}

/// The import name of a function, for imported functions.
pub open spec fn import_name_of(f: Function) -> String {
    (f.import->0).1
}

/// Registers one hook import under module name `"hooks"`: its parameters are
/// the two `i32` location arguments followed by `arg_tys` with each `i64`
/// expanded into two `i32`s; hooks return nothing.
pub fn add_hook(module: &mut Module, name: String, arg_tys: &[ValType]) -> (idx: u32)
    requires
        old(module).functions@.len() < u32::MAX,
    ensures
        final(module).functions@.len() == old(module).functions@.len() + 1,
        forall|i: int|
            0 <= i < old(module).functions@.len() ==> final(module).functions@[i] == old(
                module,
            ).functions@[i],
        idx == old(module).functions@.len(),
        hook_fn_ok(final(module).functions@, idx, arg_tys@, name@),
        is_hooks_import(final(module).functions@.last()),
        import_name_of(final(module).functions@.last()) == name,
        final(module).functions@.last().export is None,
        final(module).globals == old(module).globals,
        final(module).tables == old(module).tables,
{
    let mut params: Vec<ValType> = Vec::new();
    params.push(ValType::I32);
    params.push(ValType::I32);
    let mut rest = convert_i64_types(arg_tys);
    params.append(&mut rest);
    proof {
        assert(params@ =~= seq![ValType::I32, ValType::I32] + spec_convert_tys(arg_tys@));
    }
    let ft = FunctionType::new(params, Vec::new());
    module.add_function_import(ft, String::from_str("hooks"), name)
}

/// Registers the monomorphic hook of one grouped instruction kind, named
/// after its mnemonic, with the group's argument types.
pub fn add_hook_from_instr(module: &mut Module, kind: InstrKind) -> (idx: u32)
    requires
        old(module).functions@.len() < u32::MAX,
        crate::ops::is_grouped(kind),
    ensures
        final(module).functions@.len() == old(module).functions@.len() + 1,
        forall|i: int|
            0 <= i < old(module).functions@.len() ==> final(module).functions@[i] == old(
                module,
            ).functions@[i],
        idx == old(module).functions@.len(),
        hook_fn_ok(
            final(module).functions@,
            idx,
            spec_group_args(kind),
            crate::ops::spec_kind_name(kind),
        ),
        is_hooks_import(final(module).functions@.last()),
        final(module).globals == old(module).globals,
        final(module).tables == old(module).tables,
{
    let name = String::from_str(kind_name(kind));
    let mut arg_tys: Vec<ValType> = Vec::new();
    match kind {
        InstrKind::Const(ty) => {
            arg_tys.push(ty);
        },
        InstrKind::Unary(op) => {
            let tys = crate::ops::unop_tys(op);
            arg_tys.push(tys.0);
            arg_tys.push(tys.1);
        },
        InstrKind::Binary(op) => {
            let tys = crate::ops::binop_tys(op);
            arg_tys.push(tys.0);
            arg_tys.push(tys.1);
            arg_tys.push(tys.2);
        },
        InstrKind::Load(op) => {
            arg_tys.push(ValType::I32);
            arg_tys.push(ValType::I32);
            arg_tys.push(ValType::I32);
            arg_tys.push(crate::ops::load_ty(op));
        },
        InstrKind::Store(op) => {
            arg_tys.push(ValType::I32);
            arg_tys.push(ValType::I32);
            arg_tys.push(ValType::I32);
            arg_tys.push(crate::ops::store_ty(op));
        },
        _ => {
            proof {
                assert(false);
            }
        },
    }
    proof {
        assert(arg_tys@ =~= spec_group_args(kind));
    }
    add_hook(module, name, arg_tys.as_slice())
}

/// The extra leading hook argument of a polymorphic instruction kind: the
/// slot index for locals and globals, the target function index for `call`,
/// the target table index for `call_indirect`; `return` has none.
pub open spec fn poly_prefix(k: InstrKind) -> Seq<ValType> {
    if k == InstrKind::Return {
        Seq::empty()
    } else {
        seq![ValType::I32]
    }
}

/// The first registered hook for the given discriminant and type vector.
pub open spec fn spec_lookup(
    entries: Seq<(InstrKind, Vec<ValType>, u32)>,
    k: InstrKind,
    tys: Seq<ValType>,
) -> Option<u32>
    decreases entries.len(),
{
    if entries.len() == 0 {
        None
    } else if entries[0].0 == k && entries[0].1@ == tys {
        Some(entries[0].2)
    } else {
        spec_lookup(entries.drop_first(), k, tys)
    }
}

proof fn lemma_lookup_from(
    entries: Seq<(InstrKind, Vec<ValType>, u32)>,
    k: InstrKind,
    tys: Seq<ValType>,
    i: int,
)
    requires
        0 <= i < entries.len(),
        forall|j: int|
            0 <= j < i ==> !((#[trigger] entries[j]).0 == k && entries[j].1@ == tys),
        entries[i].0 == k,
        entries[i].1@ == tys,
    ensures
        spec_lookup(entries, k, tys) == Some(entries[i].2),
    decreases i,
{
    if i == 0 {
    } else {
        assert(entries.drop_first()[i - 1] == entries[i]);
        assert(forall|j: int|
            0 <= j < i - 1 ==> (#[trigger] entries.drop_first()[j]) == entries[j + 1]);
        lemma_lookup_from(entries.drop_first(), k, tys, i - 1);
    }
}

/// The monomorphization table of a polymorphic instruction: one hook per
/// (instruction discriminant, operand-type vector) pair, in registration
/// order.
pub struct PolymorphicHookMap {
    pub entries: Vec<(InstrKind, Vec<ValType>, u32)>,
}

impl PolymorphicHookMap {
    pub open spec fn spec_contains(self, k: InstrKind, tys: Seq<ValType>) -> bool {
        exists|j: int|
            0 <= j < self.entries@.len() && (#[trigger] self.entries@[j]).0 == k
                && self.entries@[j].1@ == tys
    }

    /// The hook this map hands out for the given discriminant and types.
    pub open spec fn spec_hook(self, k: InstrKind, tys: Seq<ValType>) -> u32 {
        spec_lookup(self.entries@, k, tys)->0
    }

    pub fn new() -> (r: PolymorphicHookMap)
        ensures
            r.entries@.len() == 0,
    {
        PolymorphicHookMap { entries: Vec::new() }
    }

    /// Registers one hook per given type vector for the instruction's
    /// discriminant: each hook's name is the mnemonic mangled with the type
    /// vector, its arguments are the non-polymorphic arguments followed by
    /// the type vector.
    #[verifier::loop_isolation(false)]
    pub fn add(
        &mut self,
        module: &mut Module,
        instr: Instr,
        non_poly_args: &[ValType],
        tys: &[Vec<ValType>],
    )
        requires
            old(module).functions@.len() + tys@.len() < u32::MAX,
            non_poly_args@ == poly_prefix(spec_kind_of(instr)),
        ensures
            final(module).functions@.len() == old(module).functions@.len() + tys@.len(),
            forall|i: int|
                0 <= i < old(module).functions@.len() ==> final(module).functions@[i] == old(
                    module,
                ).functions@[i],
            final(module).globals == old(module).globals,
            final(module).tables == old(module).tables,
            final(self).entries@.len() == old(self).entries@.len() + tys@.len(),
            forall|j: int|
                0 <= j < old(self).entries@.len() ==> final(self).entries@[j] == old(
                    self,
                ).entries@[j],
            forall|j: int|
                old(self).entries@.len() <= j < final(self).entries@.len() ==> {
                    &&& (#[trigger] final(self).entries@[j]).0 == spec_kind_of(instr)
                    &&& final(self).entries@[j].1@ == (tys@[j - old(self).entries@.len()])@
                    &&& final(self).entries@[j].2 == old(module).functions@.len() + (j - old(
                        self,
                    ).entries@.len())
                },
            forall|j: int|
                old(self).entries@.len() <= j < final(self).entries@.len() ==> hook_fn_ok(
                    final(module).functions@,
                    (#[trigger] final(self).entries@[j]).2,
                    poly_prefix(final(self).entries@[j].0) + final(self).entries@[j].1@,
                    crate::names::spec_mangled(
                        crate::ops::spec_kind_name(final(self).entries@[j].0),
                        final(self).entries@[j].1@,
                    ),
                ),
            forall|j: int|
                old(module).functions@.len() <= j < final(module).functions@.len()
                    ==> is_hooks_import(#[trigger] final(module).functions@[j]),
    {
        let kind = kind_of(&instr);
        let mut t: usize = 0;
        while t < tys.len()
            invariant
                0 <= t <= tys@.len(),
                old(module).functions@.len() + tys@.len() < u32::MAX,
                module.functions@.len() == old(module).functions@.len() + t,
                forall|i: int|
                    0 <= i < old(module).functions@.len() ==> module.functions@[i] == old(
                        module,
                    ).functions@[i],
                module.globals == old(module).globals,
                module.tables == old(module).tables,
                self.entries@.len() == old(self).entries@.len() + t,
                forall|j: int|
                    0 <= j < old(self).entries@.len() ==> self.entries@[j] == old(self).entries@[j],
                forall|j: int|
                    old(self).entries@.len() <= j < self.entries@.len() ==> {
                        &&& (#[trigger] self.entries@[j]).0 == spec_kind_of(instr)
                        &&& self.entries@[j].1@ == (tys@[j - old(self).entries@.len()])@
                        &&& self.entries@[j].2 == old(module).functions@.len() + (j - old(
                            self,
                        ).entries@.len())
                    },
                forall|j: int|
                    old(self).entries@.len() <= j < self.entries@.len() ==> hook_fn_ok(
                        module.functions@,
                        (#[trigger] self.entries@[j]).2,
                        poly_prefix(self.entries@[j].0) + self.entries@[j].1@,
                        crate::names::spec_mangled(
                            crate::ops::spec_kind_name(self.entries@[j].0),
                            self.entries@[j].1@,
                        ),
                    ),
                forall|j: int|
                    old(module).functions@.len() <= j < module.functions@.len()
                        ==> is_hooks_import(#[trigger] module.functions@[j]),
                kind == spec_kind_of(instr),
            decreases tys@.len() - t,
        {
            let ghost pre_funcs = module.functions@;
            let hook_name = append_mangled_tys(
                String::from_str(kind_name(kind)),
                tys[t].as_slice(),
            );
            let mut args: Vec<ValType> = Vec::new();
            let mut i: usize = 0;
            while i < non_poly_args.len()
                invariant
                    0 <= i <= non_poly_args@.len(),
                    args@ == non_poly_args@.take(i as int),
                decreases non_poly_args@.len() - i,
            {
                args.push(non_poly_args[i]);
                i = i + 1;
                proof {
                    assert(non_poly_args@.take(i as int) =~= non_poly_args@.take(
                        i as int - 1,
                    ).push(non_poly_args@[i - 1]));
                }
            }
            proof {
                assert(non_poly_args@.take(non_poly_args@.len() as int) =~= non_poly_args@);
            }
            let mut i: usize = 0;
            let tv = &tys[t];
            while i < tv.len()
                invariant
                    0 <= i <= tv@.len(),
                    args@ == non_poly_args@ + tv@.take(i as int),
                decreases tv@.len() - i,
            {
                args.push(tv[i]);
                i = i + 1;
                proof {
                    assert(tv@.take(i as int) =~= tv@.take(i as int - 1).push(tv@[i - 1]));
                    assert(non_poly_args@ + tv@.take(i as int) =~= (non_poly_args@ + tv@.take(
                        i as int - 1,
                    )).push(tv@[i - 1]));
                }
            }
            proof {
                assert(tv@.take(tv@.len() as int) =~= tv@);
            }
            let hook_idx = add_hook(module, hook_name, args.as_slice());
            self.entries.push((kind, crate::ast::copy_tys(tv), hook_idx));
            t = t + 1;
            proof {
                assert(self.entries@.last().1@ == tv@);
                assert(poly_prefix(self.entries@.last().0) + self.entries@.last().1@
                    =~= non_poly_args@ + tv@);
                assert(hook_fn_ok(
                    module.functions@,
                    self.entries@.last().2,
                    poly_prefix(self.entries@.last().0) + self.entries@.last().1@,
                    crate::names::spec_mangled(
                        crate::ops::spec_kind_name(self.entries@.last().0),
                        self.entries@.last().1@,
                    ),
                ));
                assert forall|j: int|
                    old(self).entries@.len() <= j < self.entries@.len() - 1 implies hook_fn_ok(
                    module.functions@,
                    (#[trigger] self.entries@[j]).2,
                    poly_prefix(self.entries@[j].0) + self.entries@[j].1@,
                    crate::names::spec_mangled(
                        crate::ops::spec_kind_name(self.entries@[j].0),
                        self.entries@[j].1@,
                    ),
                ) by {
                    lemma_hook_ok_grow(
                        pre_funcs,
                        module.functions@,
                        self.entries@[j].2,
                        poly_prefix(self.entries@[j].0) + self.entries@[j].1@,
                        crate::names::spec_mangled(
                            crate::ops::spec_kind_name(self.entries@[j].0),
                            self.entries@[j].1@,
                        ),
                    );
                }
            }
        }
    }

    /// The call of the hook registered for this instruction's discriminant
    /// and the given operand types.
    pub fn get_call(&self, instr: &Instr, tys: Vec<ValType>) -> (r: Instr)
        requires
            self.spec_contains(spec_kind_of(*instr), tys@),
        ensures
            r == Instr::Call(self.spec_hook(spec_kind_of(*instr), tys@)),
    {
        let kind = kind_of(instr);
        let mut i: usize = 0;
        while i < self.entries.len()
            invariant
                0 <= i <= self.entries@.len(),
                self.spec_contains(spec_kind_of(*instr), tys@),
                kind == spec_kind_of(*instr),
                forall|j: int|
                    0 <= j < i ==> !((#[trigger] self.entries@[j]).0 == kind
                        && self.entries@[j].1@ == tys@),
            decreases self.entries@.len() - i,
        {
            let e = &self.entries[i];
            if e.0 == kind && tys_equal(&e.1, &tys) {
                proof {
                    lemma_lookup_from(self.entries@, kind, tys@, i as int);
                }
                return Instr::Call(e.2);
            }
            i = i + 1;
        }
        proof {
            let j = choose|j: int|
                0 <= j < self.entries@.len() && (#[trigger] self.entries@[j]).0 == kind
                    && self.entries@[j].1@ == tys@;
            assert(false);
        }
        Instr::Unreachable
    }
}

/// Whether two type vectors hold the same types in the same order.
pub fn tys_equal(a: &Vec<ValType>, b: &Vec<ValType>) -> (r: bool)
    ensures
        r <==> a@ == b@,
{
    if a.len() != b.len() {
        proof {
            assert(a@ != b@);
        }
        return false;
    }
    let mut i: usize = 0;
    while i < a.len()
        invariant
            0 <= i <= a@.len(),
            a@.len() == b@.len(),
            forall|j: int| 0 <= j < i ==> a@[j] == b@[j],
        decreases a@.len() - i,
    {
        if a[i] != b[i] {
            proof {
                assert(a@ != b@);
            }
            return false;
        }
        i = i + 1;
    }
    proof {
        assert(a@ =~= b@);
    }
    true
}

/// The first registered `call_result` hook for the given result-type vector.
pub open spec fn spec_cr_lookup(entries: Seq<(Vec<ValType>, u32)>, tys: Seq<ValType>) -> Option<
    u32,
>
    decreases entries.len(),
{
    if entries.len() == 0 {
        None
    } else if entries[0].0@ == tys {
        Some(entries[0].1)
    } else {
        spec_cr_lookup(entries.drop_first(), tys)
    }
}

pub open spec fn cr_contains(entries: Seq<(Vec<ValType>, u32)>, tys: Seq<ValType>) -> bool {
    exists|j: int| 0 <= j < entries.len() && (#[trigger] entries[j]).0@ == tys
}

proof fn lemma_cr_lookup_from(entries: Seq<(Vec<ValType>, u32)>, tys: Seq<ValType>, i: int)
    requires
        0 <= i < entries.len(),
        forall|j: int| 0 <= j < i ==> (#[trigger] entries[j]).0@ != tys,
        entries[i].0@ == tys,
    ensures
        spec_cr_lookup(entries, tys) == Some(entries[i].1),
    decreases i,
{
    if i == 0 {
    } else {
        assert(entries.drop_first()[i - 1] == entries[i]);
        assert(forall|j: int|
            0 <= j < i - 1 ==> (#[trigger] entries.drop_first()[j]) == entries[j + 1]);
        lemma_cr_lookup_from(entries.drop_first(), tys, i - 1);
    }
}

/// Finds the `call_result` hook for the given result types.
pub fn cr_get(entries: &Vec<(Vec<ValType>, u32)>, tys: &Vec<ValType>) -> (r: u32)
    requires
        cr_contains(entries@, tys@),
    ensures
        r == spec_cr_lookup(entries@, tys@)->0,
{
    let mut i: usize = 0;
    while i < entries.len()
        invariant
            0 <= i <= entries@.len(),
            cr_contains(entries@, tys@),
            forall|j: int| 0 <= j < i ==> (#[trigger] entries@[j]).0@ != tys@,
        decreases entries@.len() - i,
    {
        let e = &entries[i];
        if tys_equal(&e.0, tys) {
            proof {
                lemma_cr_lookup_from(entries@, tys@, i as int);
            }
            return e.1;
        }
        i = i + 1;
    }
    proof {
        let j = choose|j: int| 0 <= j < entries@.len() && (#[trigger] entries@[j]).0@ == tys@;
        assert(false);
    }
    0
}

/// Whether a list of type vectors holds one whose view is `tys`.
pub open spec fn vecvec_contains(s: Seq<Vec<ValType>>, tys: Seq<ValType>) -> bool {
    exists|j: int| 0 <= j < s.len() && (#[trigger] s[j])@ == tys
}

/// Scans for a type vector with the given view.
fn vecvec_find(s: &Vec<Vec<ValType>>, tys: &Vec<ValType>) -> (r: bool)
    ensures
        r <==> vecvec_contains(s@, tys@),
{
    let mut i: usize = 0;
    while i < s.len()
        invariant
            0 <= i <= s@.len(),
            forall|j: int| 0 <= j < i ==> (#[trigger] s@[j])@ != tys@,
        decreases s@.len() - i,
    {
        if tys_equal(&s[i], tys) {
            return true;
        }
        i = i + 1;
    }
    false
}

/// Collects the distinct parameter-type vectors and the distinct result-type
/// vectors over all the module's functions: the alphabet over which the
/// polymorphic hooks are monomorphized. The canonical order that makes the
/// dedup and the hook naming deterministic is first occurrence in the
/// function index space.
pub fn collect_unique_tys(module: &Module) -> (r: (Vec<Vec<ValType>>, Vec<Vec<ValType>>))
    ensures
        forall|i: int|
            0 <= i < module.functions@.len() ==> vecvec_contains(
                r.0@,
                (#[trigger] module.functions@[i]).type_.params@,
            ) && vecvec_contains(r.1@, module.functions@[i].type_.results@),
        forall|j1: int, j2: int|
            0 <= j1 < j2 < r.0@.len() ==> (#[trigger] r.0@[j1])@ != (#[trigger] r.0@[j2])@,
        forall|j1: int, j2: int|
            0 <= j1 < j2 < r.1@.len() ==> (#[trigger] r.1@[j1])@ != (#[trigger] r.1@[j2])@,
        r.0@.len() <= module.functions@.len(),
        r.1@.len() <= module.functions@.len(),
{
    let mut args: Vec<Vec<ValType>> = Vec::new();
    let mut results: Vec<Vec<ValType>> = Vec::new();
    let mut i: usize = 0;
    while i < module.functions.len()
        invariant
            0 <= i <= module.functions@.len(),
            forall|j: int|
                0 <= j < i ==> vecvec_contains(
                    args@,
                    (#[trigger] module.functions@[j]).type_.params@,
                ) && vecvec_contains(results@, module.functions@[j].type_.results@),
            args@.len() <= i,
            results@.len() <= i,
            forall|j1: int, j2: int|
                0 <= j1 < j2 < args@.len() ==> (#[trigger] args@[j1])@ != (#[trigger] args@[j2])@,
            forall|j1: int, j2: int|
                0 <= j1 < j2 < results@.len() ==> (#[trigger] results@[j1])@ != (
                #[trigger] results@[j2])@,
        decreases module.functions@.len() - i,
    {
        let ghost pre_args = args@;
        let ghost pre_results = results@;
        let ft = &module.functions[i].type_;
        if !vecvec_find(&args, &ft.params) {
            args.push(crate::ast::copy_tys(&ft.params));
            proof {
                assert((args@[args@.len() - 1])@ == module.functions@[i as int].type_.params@);
                assert(vecvec_contains(args@, module.functions@[i as int].type_.params@));
            }
        }
        if !vecvec_find(&results, &ft.results) {
            results.push(crate::ast::copy_tys(&ft.results));
            proof {
                assert((results@[results@.len() - 1])@ == module.functions@[
                    i as int
                ].type_.results@);
                assert(vecvec_contains(results@, module.functions@[i as int].type_.results@));
            }
        }
        proof {
            assert(forall|j: int| 0 <= j < pre_args.len() ==> args@[j] == pre_args[j]);
            assert(forall|j: int| 0 <= j < pre_results.len() ==> results@[j] == pre_results[j]);
            assert(forall|j: int|
                0 <= j <= i ==> vecvec_contains(
                    args@,
                    (#[trigger] module.functions@[j]).type_.params@,
                ) && vecvec_contains(results@, module.functions@[j].type_.results@)) by {
                assert(forall|v: Seq<ValType>|
                    vecvec_contains(pre_args, v) ==> vecvec_contains(args@, v));
                assert(forall|v: Seq<ValType>|
                    vecvec_contains(pre_results, v) ==> vecvec_contains(results@, v));
            }
        }
        i = i + 1;
    }
    (args, results)
}

/// All hooks the pass registers: the polymorphic map, the `call_result`
/// family, the fixed singletons, and the monomorphic table indexed by the
/// registration order of the grouped kinds.
pub struct Hooks {
    pub poly: PolymorphicHookMap,
    pub call_result: Vec<(Vec<ValType>, u32)>,
    pub if_hook: u32,
    pub br_hook: u32,
    pub br_if_hook: u32,
    pub br_table_hook: u32,
    pub begin_function_hook: u32,
    pub end_function_hook: u32,
    pub begin_block_hook: u32,
    pub end_block_hook: u32,
    pub begin_loop_hook: u32,
    pub end_loop_hook: u32,
    pub begin_if_hook: u32,
    pub end_if_hook: u32,
    pub begin_else_hook: u32,
    pub end_else_hook: u32,
    pub nop_hook: u32,
    pub unreachable_hook: u32,
    pub drop_hook: u32,
    pub select_hook: u32,
    pub current_memory_hook: u32,
    pub grow_memory_hook: u32,
    pub mono: Vec<u32>,
}

impl Hooks {
    /// Every hook is an import in `funcs` with the right signature and the
    /// right name: the instruction's mnemonic, mangled with the operand-type
    /// suffixes for the polymorphic and `call_result` families.
    pub open spec fn wf(self, funcs: Seq<Function>) -> bool {
        &&& forall|j: int|
            0 <= j < self.poly.entries@.len() ==> hook_fn_ok(
                funcs,
                (#[trigger] self.poly.entries@[j]).2,
                poly_prefix(self.poly.entries@[j].0) + self.poly.entries@[j].1@,
                crate::names::spec_mangled(
                    crate::ops::spec_kind_name(self.poly.entries@[j].0),
                    self.poly.entries@[j].1@,
                ),
            )
        &&& forall|j: int|
            0 <= j < self.call_result@.len() ==> hook_fn_ok(
                funcs,
                (#[trigger] self.call_result@[j]).1,
                self.call_result@[j].0@,
                crate::names::spec_mangled("call_result"@, self.call_result@[j].0@),
            )
        &&& self.mono@.len() == MONO_COUNT
        &&& forall|j: int|
            0 <= j < MONO_COUNT as int ==> hook_fn_ok(
                funcs,
                #[trigger] self.mono@[j],
                spec_group_args(mono_kind_at(j)),
                crate::ops::spec_kind_name(mono_kind_at(j)),
            )
        &&& hook_fn_ok(funcs, self.if_hook, seq![ValType::I32], "if_"@)
        &&& hook_fn_ok(funcs, self.br_hook, seq![ValType::I32, ValType::I32], "br"@)
        &&& hook_fn_ok(
            funcs,
            self.br_if_hook,
            seq![ValType::I32, ValType::I32, ValType::I32],
            "br_if"@,
        )
        &&& hook_fn_ok(funcs, self.br_table_hook, seq![ValType::I32, ValType::I32], "br_table"@)
        &&& hook_fn_ok(funcs, self.begin_function_hook, Seq::empty(), "begin_function"@)
        &&& hook_fn_ok(funcs, self.end_function_hook, Seq::empty(), "end_function"@)
        &&& hook_fn_ok(funcs, self.begin_block_hook, Seq::empty(), "begin_block"@)
        &&& hook_fn_ok(funcs, self.end_block_hook, seq![ValType::I32], "end_block"@)
        &&& hook_fn_ok(funcs, self.begin_loop_hook, Seq::empty(), "begin_loop"@)
        &&& hook_fn_ok(funcs, self.end_loop_hook, seq![ValType::I32], "end_loop"@)
        &&& hook_fn_ok(funcs, self.begin_if_hook, Seq::empty(), "begin_if"@)
        &&& hook_fn_ok(funcs, self.end_if_hook, seq![ValType::I32], "end_if"@)
        &&& hook_fn_ok(funcs, self.begin_else_hook, Seq::empty(), "begin_else"@)
        &&& hook_fn_ok(funcs, self.end_else_hook, seq![ValType::I32], "end_else"@)
        &&& hook_fn_ok(funcs, self.nop_hook, Seq::empty(), "nop"@)
        &&& hook_fn_ok(funcs, self.unreachable_hook, Seq::empty(), "unreachable"@)
        &&& hook_fn_ok(funcs, self.drop_hook, Seq::empty(), "drop"@)
        &&& hook_fn_ok(funcs, self.select_hook, seq![ValType::I32], "select"@)
        &&& hook_fn_ok(funcs, self.current_memory_hook, seq![ValType::I32], "current_memory"@)
        &&& hook_fn_ok(
            funcs,
            self.grow_memory_hook,
            seq![ValType::I32, ValType::I32],
            "grow_memory"@,
        )
    }

    /// Hook indices are the consecutive function indices right after the
    /// original functions, in registration order: the polymorphic hooks, the
    /// `call_result` hooks, the twenty fixed hooks, then the monomorphic
    /// table. In particular all hooks are distinct and none collides with an
    /// original function index.
    pub open spec fn positioned(self, orig_len: int) -> bool {
        let cr_base = orig_len + self.poly.entries@.len();
        let fbase = cr_base + self.call_result@.len();
        &&& forall|j: int|
            0 <= j < self.poly.entries@.len() ==> (#[trigger] self.poly.entries@[j]).2 == orig_len
                + j
        &&& forall|j: int|
            0 <= j < self.call_result@.len() ==> (#[trigger] self.call_result@[j]).1 == cr_base + j
        &&& self.if_hook == fbase
        &&& self.br_hook == fbase + 1
        &&& self.br_if_hook == fbase + 2
        &&& self.br_table_hook == fbase + 3
        &&& self.begin_function_hook == fbase + 4
        &&& self.end_function_hook == fbase + 5
        &&& self.begin_block_hook == fbase + 6
        &&& self.end_block_hook == fbase + 7
        &&& self.begin_loop_hook == fbase + 8
        &&& self.end_loop_hook == fbase + 9
        &&& self.begin_if_hook == fbase + 10
        &&& self.end_if_hook == fbase + 11
        &&& self.begin_else_hook == fbase + 12
        &&& self.end_else_hook == fbase + 13
        &&& self.nop_hook == fbase + 14
        &&& self.unreachable_hook == fbase + 15
        &&& self.drop_hook == fbase + 16
        &&& self.select_hook == fbase + 17
        &&& self.current_memory_hook == fbase + 18
        &&& self.grow_memory_hook == fbase + 19
        &&& self.mono@.len() == MONO_COUNT
        &&& forall|j: int|
            0 <= j < MONO_COUNT as int ==> #[trigger] self.mono@[j] == fbase + 20 + j
    }

    /// The polymorphic hooks cover every operand-type vector the bodies of a
    /// module with these function types can ask for.
    pub open spec fn covers(self, funcs: Seq<Function>) -> bool {
        &&& forall|i: int|
            0 <= i < funcs.len() ==> {
                &&& self.poly.spec_contains(
                    InstrKind::Return,
                    (#[trigger] funcs[i]).type_.results@,
                )
                &&& self.poly.spec_contains(InstrKind::Call, funcs[i].type_.params@)
                &&& self.poly.spec_contains(InstrKind::CallIndirect, funcs[i].type_.params@)
                &&& cr_contains(self.call_result@, funcs[i].type_.results@)
            }
        &&& forall|t: ValType|
            {
                &&& self.poly.spec_contains(InstrKind::GetLocal, #[trigger] seq![t])
                &&& self.poly.spec_contains(InstrKind::SetLocal, seq![t])
                &&& self.poly.spec_contains(InstrKind::TeeLocal, seq![t])
                &&& self.poly.spec_contains(InstrKind::GetGlobal, seq![t])
                &&& self.poly.spec_contains(InstrKind::SetGlobal, seq![t])
            }
    }
}

proof fn lemma_hook_ok_grow(
    f1: Seq<Function>,
    f2: Seq<Function>,
    idx: u32,
    args: Seq<ValType>,
    name: Seq<char>,
)
    requires
        hook_fn_ok(f1, idx, args, name),
        f1.len() <= f2.len(),
        forall|i: int| 0 <= i < f1.len() ==> f2[i] == f1[i],
    ensures
        hook_fn_ok(f2, idx, args, name),
{
}

/// The argument types of the twenty fixed hooks, in registration order:
/// `if_`, `br`, `br_if`, `br_table`, the five begin/end pairs, `nop`,
/// `unreachable`, `drop`, `select`, `current_memory`, `grow_memory`.
pub open spec fn fixed_args_at(k: int) -> Seq<ValType> {
    if k == 0 {
        seq![ValType::I32]
    } else if k == 1 {
        seq![ValType::I32, ValType::I32]
    } else if k == 2 {
        seq![ValType::I32, ValType::I32, ValType::I32]
    } else if k == 3 {
        seq![ValType::I32, ValType::I32]
    } else if k == 7 || k == 9 || k == 11 || k == 13 {
        seq![ValType::I32]
    } else if k == 17 || k == 18 {
        seq![ValType::I32]
    } else if k == 19 {
        seq![ValType::I32, ValType::I32]
    } else {
        Seq::empty()
    }
}

/// The names of the twenty fixed hooks, in registration order.
pub open spec fn fixed_name_at(k: int) -> Seq<char> {
    if k == 0 {
        "if_"@
    } else if k == 1 {
        "br"@
    } else if k == 2 {
        "br_if"@
    } else if k == 3 {
        "br_table"@
    } else if k == 4 {
        "begin_function"@
    } else if k == 5 {
        "end_function"@
    } else if k == 6 {
        "begin_block"@
    } else if k == 7 {
        "end_block"@
    } else if k == 8 {
        "begin_loop"@
    } else if k == 9 {
        "end_loop"@
    } else if k == 10 {
        "begin_if"@
    } else if k == 11 {
        "end_if"@
    } else if k == 12 {
        "begin_else"@
    } else if k == 13 {
        "end_else"@
    } else if k == 14 {
        "nop"@
    } else if k == 15 {
        "unreachable"@
    } else if k == 16 {
        "drop"@
    } else if k == 17 {
        "select"@
    } else if k == 18 {
        "current_memory"@
    } else {
        "grow_memory"@
    }
}

fn fixed_name_for(k: usize) -> (r: String)
    requires
        k < 20,
    ensures
        r@ == fixed_name_at(k as int),
{
    if k == 0 {
        String::from_str("if_")
    } else if k == 1 {
        String::from_str("br")
    } else if k == 2 {
        String::from_str("br_if")
    } else if k == 3 {
        String::from_str("br_table")
    } else if k == 4 {
        String::from_str("begin_function")
    } else if k == 5 {
        String::from_str("end_function")
    } else if k == 6 {
        String::from_str("begin_block")
    } else if k == 7 {
        String::from_str("end_block")
    } else if k == 8 {
        String::from_str("begin_loop")
    } else if k == 9 {
        String::from_str("end_loop")
    } else if k == 10 {
        String::from_str("begin_if")
    } else if k == 11 {
        String::from_str("end_if")
    } else if k == 12 {
        String::from_str("begin_else")
    } else if k == 13 {
        String::from_str("end_else")
    } else if k == 14 {
        String::from_str("nop")
    } else if k == 15 {
        String::from_str("unreachable")
    } else if k == 16 {
        String::from_str("drop")
    } else if k == 17 {
        String::from_str("select")
    } else if k == 18 {
        String::from_str("current_memory")
    } else {
        String::from_str("grow_memory")
    }
}

fn fixed_args_for(k: usize) -> (r: Vec<ValType>)
    requires
        k < 20,
    ensures
        r@ == fixed_args_at(k as int),
{
    let mut r: Vec<ValType> = Vec::new();
    if k == 0 {
        r.push(ValType::I32);
    } else if k == 1 {
        r.push(ValType::I32);
        r.push(ValType::I32);
    } else if k == 2 {
        r.push(ValType::I32);
        r.push(ValType::I32);
        r.push(ValType::I32);
    } else if k == 3 {
        r.push(ValType::I32);
        r.push(ValType::I32);
    } else if k == 7 || k == 9 || k == 11 || k == 13 {
        r.push(ValType::I32);
    } else if k == 17 || k == 18 {
        r.push(ValType::I32);
    } else if k == 19 {
        r.push(ValType::I32);
        r.push(ValType::I32);
    }
    proof {
        assert(r@ =~= fixed_args_at(k as int));
    }
    r
}

/// Builds the whole hook registry: registers every hook as an import of the
/// module and records its index. Hooks take the consecutive function indices
/// right after the original functions, in a fixed registration order: the
/// polymorphic hooks, the `call_result` family, the twenty fixed hooks, then
/// the monomorphic table.
#[verifier::rlimit(100)]
#[verifier::loop_isolation(false)]
pub fn build_hooks(module: &mut Module) -> (h: Hooks)
    requires
        old(module).functions@.len() * 8 + 400 < u32::MAX,
    ensures
        forall|i: int|
            0 <= i < old(module).functions@.len() ==> final(module).functions@[i] == old(
                module,
            ).functions@[i],
        final(module).globals == old(module).globals,
        final(module).tables == old(module).tables,
        h.wf(final(module).functions@),
        h.positioned(old(module).functions@.len() as int),
        h.covers(old(module).functions@),
        final(module).functions@.len() == old(module).functions@.len() + h.poly.entries@.len()
            + h.call_result@.len() + 20 + MONO_COUNT,
        forall|j: int|
            old(module).functions@.len() <= j < final(module).functions@.len()
                ==> is_hooks_import(#[trigger] final(module).functions@[j]),
{
    let ghost orig_funcs = old(module).functions@;
    let ghost orig_len = old(module).functions@.len() as int;
    let (unique_arg_tys, unique_result_tys) = collect_unique_tys(module);
    let ghost n_a = unique_arg_tys@.len() as int;
    let ghost n_r = unique_result_tys@.len() as int;

    let mut i32arg: Vec<ValType> = Vec::new();
    i32arg.push(ValType::I32);
    let empty_args: Vec<ValType> = Vec::new();
    proof {
        assert(i32arg@ =~= seq![ValType::I32]);
        assert(empty_args@ =~= Seq::<ValType>::empty());
    }

    let mut primitive_tys: Vec<Vec<ValType>> = Vec::new();
    let mut t0: Vec<ValType> = Vec::new();
    t0.push(ValType::I32);
    primitive_tys.push(t0);
    let mut t1: Vec<ValType> = Vec::new();
    t1.push(ValType::I64);
    primitive_tys.push(t1);
    let mut t2: Vec<ValType> = Vec::new();
    t2.push(ValType::F32);
    primitive_tys.push(t2);
    let mut t3: Vec<ValType> = Vec::new();
    t3.push(ValType::F64);
    primitive_tys.push(t3);
    proof {
        assert(primitive_tys@.len() == 4);
        assert((primitive_tys@[0])@ =~= seq![ValType::I32]);
        assert((primitive_tys@[1])@ =~= seq![ValType::I64]);
        assert((primitive_tys@[2])@ =~= seq![ValType::F32]);
        assert((primitive_tys@[3])@ =~= seq![ValType::F64]);
    }

    let mut polymorphic_hooks = PolymorphicHookMap::new();
    polymorphic_hooks.add(
        module,
        Instr::Return,
        empty_args.as_slice(),
        unique_result_tys.as_slice(),
    );
    let ghost e0 = polymorphic_hooks.entries@;
    let ghost f0 = module.functions@;
    polymorphic_hooks.add(module, Instr::GetLocal(0), i32arg.as_slice(), primitive_tys.as_slice());
    let ghost e1 = polymorphic_hooks.entries@;
    let ghost f1 = module.functions@;
    polymorphic_hooks.add(module, Instr::SetLocal(0), i32arg.as_slice(), primitive_tys.as_slice());
    let ghost e2 = polymorphic_hooks.entries@;
    let ghost f2 = module.functions@;
    polymorphic_hooks.add(module, Instr::TeeLocal(0), i32arg.as_slice(), primitive_tys.as_slice());
    let ghost e3 = polymorphic_hooks.entries@;
    let ghost f3 = module.functions@;
    polymorphic_hooks.add(
        module,
        Instr::GetGlobal(0),
        i32arg.as_slice(),
        primitive_tys.as_slice(),
    );
    let ghost e4 = polymorphic_hooks.entries@;
    let ghost f4 = module.functions@;
    polymorphic_hooks.add(
        module,
        Instr::SetGlobal(0),
        i32arg.as_slice(),
        primitive_tys.as_slice(),
    );
    let ghost e5 = polymorphic_hooks.entries@;
    let ghost f5 = module.functions@;
    polymorphic_hooks.add(module, Instr::Call(0), i32arg.as_slice(), unique_arg_tys.as_slice());
    let ghost e6 = polymorphic_hooks.entries@;
    let ghost f6 = module.functions@;
    polymorphic_hooks.add(
        module,
        Instr::CallIndirect(FunctionType::new(Vec::new(), Vec::new()), 0),
        i32arg.as_slice(),
        unique_arg_tys.as_slice(),
    );
    let ghost ep = polymorphic_hooks.entries@;
    let ghost fp = module.functions@;
    let ghost n_poly = polymorphic_hooks.entries@.len() as int;

    proof {
        assert(n_poly == n_r + 20 + 2 * n_a);
        assert(fp.len() == orig_len + n_poly);
        assert(e0.len() == n_r && f0.len() == orig_len + n_r);
        assert(e1.len() == n_r + 4 && f1.len() == orig_len + n_r + 4);
        assert(e2.len() == n_r + 8 && f2.len() == orig_len + n_r + 8);
        assert(e3.len() == n_r + 12 && f3.len() == orig_len + n_r + 12);
        assert(e4.len() == n_r + 16 && f4.len() == orig_len + n_r + 16);
        assert(e5.len() == n_r + 20 && f5.len() == orig_len + n_r + 20);
        assert(e6.len() == n_r + 20 + n_a && f6.len() == orig_len + n_r + 20 + n_a);
        assert(forall|j: int| 0 <= j < e6.len() ==> #[trigger] ep[j] == e6[j]);
        assert(forall|j: int| 0 <= j < e5.len() ==> #[trigger] ep[j] == e5[j]);
        assert(forall|j: int| 0 <= j < e4.len() ==> #[trigger] ep[j] == e4[j]);
        assert(forall|j: int| 0 <= j < e3.len() ==> #[trigger] ep[j] == e3[j]);
        assert(forall|j: int| 0 <= j < e2.len() ==> #[trigger] ep[j] == e2[j]);
        assert(forall|j: int| 0 <= j < e1.len() ==> #[trigger] ep[j] == e1[j]);
        assert(forall|j: int| 0 <= j < e0.len() ==> #[trigger] ep[j] == e0[j]);
        assert(forall|i: int| 0 <= i < f6.len() ==> #[trigger] fp[i] == f6[i]);
        assert(forall|i: int| 0 <= i < f5.len() ==> #[trigger] fp[i] == f5[i]);
        assert(forall|i: int| 0 <= i < f4.len() ==> #[trigger] fp[i] == f4[i]);
        assert(forall|i: int| 0 <= i < f3.len() ==> #[trigger] fp[i] == f3[i]);
        assert(forall|i: int| 0 <= i < f2.len() ==> #[trigger] fp[i] == f2[i]);
        assert(forall|i: int| 0 <= i < f1.len() ==> #[trigger] fp[i] == f1[i]);
        assert(forall|i: int| 0 <= i < f0.len() ==> #[trigger] fp[i] == f0[i]);
        assert forall|k: int| 0 <= k < n_poly implies {
            &&& hook_fn_ok(
                fp,
                (#[trigger] ep[k]).2,
                poly_prefix(ep[k].0) + ep[k].1@,
                crate::names::spec_mangled(crate::ops::spec_kind_name(ep[k].0), ep[k].1@),
            )
            &&& ep[k].2 == orig_len + k
        } by {
            if k < n_r {
                assert(ep[k] == e0[k]);
                lemma_hook_ok_grow(
                    f0,
                    fp,
                    ep[k].2,
                    poly_prefix(ep[k].0) + ep[k].1@,
                    crate::names::spec_mangled(crate::ops::spec_kind_name(ep[k].0), ep[k].1@),
                );
            } else if k < n_r + 4 {
                assert(ep[k] == e1[k]);
                lemma_hook_ok_grow(
                    f1,
                    fp,
                    ep[k].2,
                    poly_prefix(ep[k].0) + ep[k].1@,
                    crate::names::spec_mangled(crate::ops::spec_kind_name(ep[k].0), ep[k].1@),
                );
            } else if k < n_r + 8 {
                assert(ep[k] == e2[k]);
                lemma_hook_ok_grow(
                    f2,
                    fp,
                    ep[k].2,
                    poly_prefix(ep[k].0) + ep[k].1@,
                    crate::names::spec_mangled(crate::ops::spec_kind_name(ep[k].0), ep[k].1@),
                );
            } else if k < n_r + 12 {
                assert(ep[k] == e3[k]);
                lemma_hook_ok_grow(
                    f3,
                    fp,
                    ep[k].2,
                    poly_prefix(ep[k].0) + ep[k].1@,
                    crate::names::spec_mangled(crate::ops::spec_kind_name(ep[k].0), ep[k].1@),
                );
            } else if k < n_r + 16 {
                assert(ep[k] == e4[k]);
                lemma_hook_ok_grow(
                    f4,
                    fp,
                    ep[k].2,
                    poly_prefix(ep[k].0) + ep[k].1@,
                    crate::names::spec_mangled(crate::ops::spec_kind_name(ep[k].0), ep[k].1@),
                );
            } else if k < n_r + 20 {
                assert(ep[k] == e5[k]);
                lemma_hook_ok_grow(
                    f5,
                    fp,
                    ep[k].2,
                    poly_prefix(ep[k].0) + ep[k].1@,
                    crate::names::spec_mangled(crate::ops::spec_kind_name(ep[k].0), ep[k].1@),
                );
            } else if k < n_r + 20 + n_a {
                assert(ep[k] == e6[k]);
                lemma_hook_ok_grow(
                    f6,
                    fp,
                    ep[k].2,
                    poly_prefix(ep[k].0) + ep[k].1@,
                    crate::names::spec_mangled(crate::ops::spec_kind_name(ep[k].0), ep[k].1@),
                );
            } else {
            }
        }
    }

    let mut call_result: Vec<(Vec<ValType>, u32)> = Vec::new();
    let mut j: usize = 0;
    while j < unique_result_tys.len()
        invariant
            0 <= j <= unique_result_tys@.len(),
            module.functions@.len() == orig_len + n_poly + j,
            fp.len() == orig_len + n_poly,
            forall|i: int| 0 <= i < fp.len() ==> module.functions@[i] == fp[i],
            orig_len + n_poly + unique_result_tys@.len() < u32::MAX,
            call_result@.len() == j,
            forall|k: int|
                0 <= k < j ==> (#[trigger] call_result@[k]).1 == orig_len + n_poly + k,
            forall|k: int|
                0 <= k < j ==> (#[trigger] call_result@[k]).0@ == (unique_result_tys@[k])@,
            forall|k: int|
                0 <= k < j ==> hook_fn_ok(
                    module.functions@,
                    (#[trigger] call_result@[k]).1,
                    call_result@[k].0@,
                    crate::names::spec_mangled("call_result"@, call_result@[k].0@),
                ),
            forall|i: int|
                orig_len + n_poly <= i < module.functions@.len() ==> is_hooks_import(
                    #[trigger] module.functions@[i],
                ),
            module.globals == old(module).globals,
            module.tables == old(module).tables,
        decreases unique_result_tys@.len() - j,
    {
        let ghost pre_funcs = module.functions@;
        let tys = &unique_result_tys[j];
        let name = append_mangled_tys(String::from_str("call_result"), tys.as_slice());
        let idx = add_hook(module, name, tys.as_slice());
        call_result.push((crate::ast::copy_tys(tys), idx));
        j = j + 1;
        proof {
            assert forall|k: int| 0 <= k < j - 1 implies hook_fn_ok(
                module.functions@,
                (#[trigger] call_result@[k]).1,
                call_result@[k].0@,
                crate::names::spec_mangled("call_result"@, call_result@[k].0@),
            ) by {
                lemma_hook_ok_grow(
                    pre_funcs,
                    module.functions@,
                    call_result@[k].1,
                    call_result@[k].0@,
                    crate::names::spec_mangled("call_result"@, call_result@[k].0@),
                );
            }
            assert(hook_fn_ok(
                module.functions@,
                call_result@.last().1,
                call_result@.last().0@,
                crate::names::spec_mangled("call_result"@, call_result@.last().0@),
            ));
        }
    }
    let ghost fc = module.functions@;

    let mut fixed_v: Vec<u32> = Vec::new();
    let mut k: usize = 0;
    while k < 20
        invariant
            0 <= k <= 20,
            module.functions@.len() == orig_len + n_poly + n_r + k,
            fc.len() == orig_len + n_poly + n_r,
            forall|i: int| 0 <= i < fc.len() ==> module.functions@[i] == fc[i],
            orig_len + n_poly + n_r + 20 < u32::MAX,
            fixed_v@.len() == k,
            forall|k2: int|
                0 <= k2 < k ==> #[trigger] fixed_v@[k2] == orig_len + n_poly + n_r + k2,
            forall|k2: int|
                0 <= k2 < k ==> hook_fn_ok(
                    module.functions@,
                    #[trigger] fixed_v@[k2],
                    fixed_args_at(k2),
                    fixed_name_at(k2),
                ),
            forall|i: int|
                orig_len + n_poly + n_r <= i < module.functions@.len() ==> is_hooks_import(
                    #[trigger] module.functions@[i],
                ),
            module.globals == old(module).globals,
            module.tables == old(module).tables,
        decreases 20 - k,
    {
        let ghost pre_funcs = module.functions@;
        let name = fixed_name_for(k);
        let args = fixed_args_for(k);
        let idx = add_hook(module, name, args.as_slice());
        fixed_v.push(idx);
        k = k + 1;
        proof {
            assert forall|k2: int| 0 <= k2 < k - 1 implies hook_fn_ok(
                module.functions@,
                #[trigger] fixed_v@[k2],
                fixed_args_at(k2),
                fixed_name_at(k2),
            ) by {
                lemma_hook_ok_grow(
                    pre_funcs,
                    module.functions@,
                    fixed_v@[k2],
                    fixed_args_at(k2),
                    fixed_name_at(k2),
                );
            }
            assert(hook_fn_ok(
                module.functions@,
                fixed_v@.last(),
                fixed_args_at(k - 1),
                fixed_name_at(k - 1),
            ));
        }
    }
    let ghost ff = module.functions@;

    let mut mono: Vec<u32> = Vec::new();
    let mut m: usize = 0;
    while m < MONO_COUNT
        invariant
            0 <= m <= MONO_COUNT,
            module.functions@.len() == orig_len + n_poly + n_r + 20 + m,
            ff.len() == orig_len + n_poly + n_r + 20,
            forall|i: int| 0 <= i < ff.len() ==> module.functions@[i] == ff[i],
            orig_len + n_poly + n_r + 20 + MONO_COUNT < u32::MAX,
            mono@.len() == m,
            forall|k2: int|
                0 <= k2 < m ==> #[trigger] mono@[k2] == orig_len + n_poly + n_r + 20 + k2,
            forall|k2: int|
                0 <= k2 < m ==> hook_fn_ok(
                    module.functions@,
                    #[trigger] mono@[k2],
                    spec_group_args(mono_kind_at(k2)),
                    crate::ops::spec_kind_name(mono_kind_at(k2)),
                ),
            forall|i: int|
                orig_len + n_poly + n_r + 20 <= i < module.functions@.len() ==> is_hooks_import(
                    #[trigger] module.functions@[i],
                ),
            module.globals == old(module).globals,
            module.tables == old(module).tables,
        decreases MONO_COUNT - m,
    {
        let ghost pre_funcs = module.functions@;
        let kind = mono_kind_for(m);
        let idx = add_hook_from_instr(module, kind);
        mono.push(idx);
        m = m + 1;
        proof {
            assert forall|k2: int| 0 <= k2 < m - 1 implies hook_fn_ok(
                module.functions@,
                #[trigger] mono@[k2],
                spec_group_args(mono_kind_at(k2)),
                crate::ops::spec_kind_name(mono_kind_at(k2)),
            ) by {
                lemma_hook_ok_grow(
                    pre_funcs,
                    module.functions@,
                    mono@[k2],
                    spec_group_args(mono_kind_at(k2)),
                    crate::ops::spec_kind_name(mono_kind_at(k2)),
                );
            }
            assert(hook_fn_ok(
                module.functions@,
                mono@.last(),
                spec_group_args(mono_kind_at(m - 1)),
                crate::ops::spec_kind_name(mono_kind_at(m - 1)),
            ));
        }
    }
    let ghost fm = module.functions@;

    let h = Hooks {
        poly: polymorphic_hooks,
        call_result,
        if_hook: fixed_v[0],
        br_hook: fixed_v[1],
        br_if_hook: fixed_v[2],
        br_table_hook: fixed_v[3],
        begin_function_hook: fixed_v[4],
        end_function_hook: fixed_v[5],
        begin_block_hook: fixed_v[6],
        end_block_hook: fixed_v[7],
        begin_loop_hook: fixed_v[8],
        end_loop_hook: fixed_v[9],
        begin_if_hook: fixed_v[10],
        end_if_hook: fixed_v[11],
        begin_else_hook: fixed_v[12],
        end_else_hook: fixed_v[13],
        nop_hook: fixed_v[14],
        unreachable_hook: fixed_v[15],
        drop_hook: fixed_v[16],
        select_hook: fixed_v[17],
        current_memory_hook: fixed_v[18],
        grow_memory_hook: fixed_v[19],
        mono,
    };

    proof {
        // every earlier hook survives the later phases unchanged
        assert forall|kk: int| 0 <= kk < h.poly.entries@.len() implies hook_fn_ok(
            fm,
            (#[trigger] h.poly.entries@[kk]).2,
            poly_prefix(h.poly.entries@[kk].0) + h.poly.entries@[kk].1@,
            crate::names::spec_mangled(
                crate::ops::spec_kind_name(h.poly.entries@[kk].0),
                h.poly.entries@[kk].1@,
            ),
        ) by {
            lemma_hook_ok_grow(
                fp,
                fm,
                h.poly.entries@[kk].2,
                poly_prefix(h.poly.entries@[kk].0) + h.poly.entries@[kk].1@,
                crate::names::spec_mangled(
                    crate::ops::spec_kind_name(h.poly.entries@[kk].0),
                    h.poly.entries@[kk].1@,
                ),
            );
        }
        assert forall|kk: int| 0 <= kk < h.call_result@.len() implies hook_fn_ok(
            fm,
            (#[trigger] h.call_result@[kk]).1,
            h.call_result@[kk].0@,
            crate::names::spec_mangled("call_result"@, h.call_result@[kk].0@),
        ) by {
            lemma_hook_ok_grow(
                fc,
                fm,
                h.call_result@[kk].1,
                h.call_result@[kk].0@,
                crate::names::spec_mangled("call_result"@, h.call_result@[kk].0@),
            );
        }
        assert forall|kk: int| 0 <= kk < 20 implies hook_fn_ok(
            fm,
            #[trigger] fixed_v@[kk],
            fixed_args_at(kk),
            fixed_name_at(kk),
        ) by {
            lemma_hook_ok_grow(ff, fm, fixed_v@[kk], fixed_args_at(kk), fixed_name_at(kk));
        }
        assert(fixed_args_at(0) =~= seq![ValType::I32]);
        assert(fixed_args_at(1) =~= seq![ValType::I32, ValType::I32]);
        assert(fixed_args_at(2) =~= seq![ValType::I32, ValType::I32, ValType::I32]);
        assert(fixed_args_at(3) =~= seq![ValType::I32, ValType::I32]);
        assert(fixed_args_at(7) =~= seq![ValType::I32]);
        assert(fixed_args_at(9) =~= seq![ValType::I32]);
        assert(fixed_args_at(11) =~= seq![ValType::I32]);
        assert(fixed_args_at(13) =~= seq![ValType::I32]);
        assert(fixed_args_at(17) =~= seq![ValType::I32]);
        assert(fixed_args_at(18) =~= seq![ValType::I32]);
        assert(fixed_args_at(19) =~= seq![ValType::I32, ValType::I32]);
        assert(h.wf(fm));
        assert(h.positioned(orig_len));

        // coverage of the polymorphic hooks
        assert forall|i: int| 0 <= i < orig_funcs.len() implies {
            &&& h.poly.spec_contains(InstrKind::Return, (#[trigger] orig_funcs[i]).type_.results@)
            &&& h.poly.spec_contains(InstrKind::Call, orig_funcs[i].type_.params@)
            &&& h.poly.spec_contains(InstrKind::CallIndirect, orig_funcs[i].type_.params@)
            &&& cr_contains(h.call_result@, orig_funcs[i].type_.results@)
        } by {
            let jr = choose|jj: int|
                0 <= jj < unique_result_tys@.len() && (#[trigger] unique_result_tys@[jj])@
                    == orig_funcs[i].type_.results@;
            assert((h.poly.entries@[jr]).0 == InstrKind::Return && h.poly.entries@[jr].1@
                == orig_funcs[i].type_.results@);
            assert((h.call_result@[jr]).0@ == orig_funcs[i].type_.results@);
            let ja = choose|jj: int|
                0 <= jj < unique_arg_tys@.len() && (#[trigger] unique_arg_tys@[jj])@
                    == orig_funcs[i].type_.params@;
            assert((h.poly.entries@[n_r + 20 + ja]).0 == InstrKind::Call && h.poly.entries@[n_r
                + 20 + ja].1@ == orig_funcs[i].type_.params@);
            assert((h.poly.entries@[n_r + 20 + n_a + ja]).0 == InstrKind::CallIndirect
                && h.poly.entries@[n_r + 20 + n_a + ja].1@ == orig_funcs[i].type_.params@);
        }
        assert forall|t: ValType|
            {
                &&& h.poly.spec_contains(InstrKind::GetLocal, #[trigger] seq![t])
                &&& h.poly.spec_contains(InstrKind::SetLocal, seq![t])
                &&& h.poly.spec_contains(InstrKind::TeeLocal, seq![t])
                &&& h.poly.spec_contains(InstrKind::GetGlobal, seq![t])
                &&& h.poly.spec_contains(InstrKind::SetGlobal, seq![t])
            } by {
            let d: int = if t == ValType::I32 {
                0
            } else if t == ValType::I64 {
                1
            } else if t == ValType::F32 {
                2
            } else {
                3
            };
            assert((primitive_tys@[d])@ == seq![t]);
            assert((h.poly.entries@[n_r + d]).0 == InstrKind::GetLocal && h.poly.entries@[n_r
                + d].1@ == seq![t]);
            assert((h.poly.entries@[n_r + 4 + d]).0 == InstrKind::SetLocal && h.poly.entries@[n_r
                + 4 + d].1@ == seq![t]);
            assert((h.poly.entries@[n_r + 8 + d]).0 == InstrKind::TeeLocal && h.poly.entries@[n_r
                + 8 + d].1@ == seq![t]);
            assert((h.poly.entries@[n_r + 12 + d]).0 == InstrKind::GetGlobal && h.poly.entries@[
                n_r + 12 + d
            ].1@ == seq![t]);
            assert((h.poly.entries@[n_r + 16 + d]).0 == InstrKind::SetGlobal && h.poly.entries@[
                n_r + 16 + d
            ].1@ == seq![t]);
        }
        assert(h.covers(orig_funcs));

        assert(forall|i: int| 0 <= i < ff.len() ==> #[trigger] fm[i] == ff[i]);
        assert(forall|i: int| 0 <= i < fc.len() ==> #[trigger] fm[i] == fc[i]);
        assert(forall|i: int| 0 <= i < fp.len() ==> #[trigger] fm[i] == fp[i]);
        assert forall|j: int| orig_len <= j < fm.len() implies is_hooks_import(
            #[trigger] fm[j],
        ) by {
            if j < f0.len() {
                assert(fm[j] == fp[j] && fp[j] == f0[j]);
                assert(is_hooks_import(f0[j]));
            } else if j < f1.len() {
                assert(fm[j] == fp[j] && fp[j] == f1[j]);
                assert(is_hooks_import(f1[j]));
            } else if j < f2.len() {
                assert(fm[j] == fp[j] && fp[j] == f2[j]);
                assert(is_hooks_import(f2[j]));
            } else if j < f3.len() {
                assert(fm[j] == fp[j] && fp[j] == f3[j]);
                assert(is_hooks_import(f3[j]));
            } else if j < f4.len() {
                assert(fm[j] == fp[j] && fp[j] == f4[j]);
                assert(is_hooks_import(f4[j]));
            } else if j < f5.len() {
                assert(fm[j] == fp[j] && fp[j] == f5[j]);
                assert(is_hooks_import(f5[j]));
            } else if j < f6.len() {
                assert(fm[j] == fp[j] && fp[j] == f6[j]);
                assert(is_hooks_import(f6[j]));
            } else if j < fp.len() {
                assert(fm[j] == fp[j]);
                assert(is_hooks_import(fp[j]));
            } else if j < fc.len() {
                assert(fm[j] == fc[j]);
                assert(is_hooks_import(fc[j]));
            } else if j < ff.len() {
                assert(fm[j] == ff[j]);
                assert(is_hooks_import(ff[j]));
            } else {
                assert(is_hooks_import(fm[j]));
            }
        }
    }
    h
}

} // verus!
