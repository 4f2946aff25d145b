use vstd::prelude::*;

use crate::ast::Module;
use crate::ops::{FunctionType, ValType};

verus! {

/// A branch-table entry: the label as written in the instruction, and a
/// location slot that a follow-on pass fills in; this pass records zero.
#[derive(Clone, Copy, PartialEq, Eq, Structural, Debug)]
pub struct LabelAndLocation {
    pub label: u32,
    pub location: u32,
}

impl LabelAndLocation {
    pub fn new(label: u32) -> (r: LabelAndLocation)
        ensures
            r == (LabelAndLocation { label, location: 0u32 }),
    {
        LabelAndLocation { label, location: 0 }
    }
}

/// The side-table entry for one rewritten `br_table`: its target labels in
/// order, and the default target.
#[derive(Clone, PartialEq, Debug)]
pub struct BrTableInfo {
    pub targets: Vec<LabelAndLocation>,
    pub default_target: LabelAndLocation,
}

impl BrTableInfo {
    pub fn new(targets: Vec<LabelAndLocation>, default_target: LabelAndLocation) -> (r: BrTableInfo)
        ensures
            r.targets == targets,
            r.default_target == default_target,
    {
        BrTableInfo { targets, default_target }
    }
}

/// Static facts about one function: its type.
#[derive(Clone, PartialEq, Debug)]
pub struct FunctionInfo {
    pub type_: FunctionType,
}

/// The module-level side table the pass returns: the function types, the
/// global-type vector, and one `BrTableInfo` per rewritten `br_table`, in the
/// order the pass met them.
#[derive(Clone, PartialEq, Debug)]
pub struct ModuleInfo {
    pub functions: Vec<FunctionInfo>,
    pub globals: Vec<ValType>,
    pub br_tables: Vec<BrTableInfo>,
}

impl ModuleInfo {
    /// Derives the side table from the module before any hooks are added:
    /// one entry per function, carrying its type; the global types; and no
    /// branch tables yet.
    pub fn from_module(module: &Module) -> (mi: ModuleInfo)
        ensures
            mi.functions@.len() == module.functions@.len(),
            forall|i: int|
                0 <= i < module.functions@.len() ==> {
                    &&& (#[trigger] mi.functions@[i]).type_.params@
                        == module.functions@[i].type_.params@
                    &&& mi.functions@[i].type_.results@ == module.functions@[i].type_.results@
                },
            mi.globals@ == module.globals@,
            mi.br_tables@.len() == 0,
    {
        let mut functions: Vec<FunctionInfo> = Vec::new();
        let mut i: usize = 0;
        while i < module.functions.len()
            invariant
                0 <= i <= module.functions@.len(),
                functions@.len() == i,
                forall|j: int|
                    0 <= j < i ==> {
                        &&& (#[trigger] functions@[j]).type_.params@
                            == module.functions@[j].type_.params@
                        &&& functions@[j].type_.results@ == module.functions@[j].type_.results@
                    },
            decreases module.functions@.len() - i,
        {
            let ft = &module.functions[i].type_;
            let info = FunctionInfo {
                type_: FunctionType {
                    params: crate::ast::copy_tys(&ft.params),
                    results: crate::ast::copy_tys(&ft.results),
                },
            };
            functions.push(info);
            i = i + 1;
        }
        let globals = crate::ast::copy_tys(&module.globals);
        ModuleInfo { functions, globals, br_tables: Vec::new() }
    }
}

} // verus!
