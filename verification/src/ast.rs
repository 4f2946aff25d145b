use vstd::prelude::*;

use crate::ops::{FunctionType, Instr, ValType};

verus! {

/// A function body: the extra locals declared by the function (parameters are
/// not repeated here) and the ordered instruction sequence, which ends with
/// the function's closing `end`.
pub struct Code {
    pub locals: Vec<ValType>,
    pub body: Vec<Instr>,
}

/// A function of the module: its type, an import name for imported functions
/// (which carry no code), a body for defined functions, and an export name.
pub struct Function {
    pub type_: FunctionType,
    pub import: Option<(String, String)>,
    pub code: Option<Code>,
    pub export: Option<String>,
}

/// The module's single table, with its export name if it has one.
pub struct Table {
    pub export: Option<String>,
}

/// The mutable module the pass rewrites: functions (imports and definitions
/// share one index space, in order), the global-type vector, and the tables.
pub struct Module {
    pub functions: Vec<Function>,
    pub globals: Vec<ValType>,
    pub tables: Vec<Table>,
}

impl Function {
    /// The type of local slot `idx`: parameters occupy the low indices,
    /// declared locals follow.
    pub open spec fn spec_local_type(self, idx: int) -> ValType {
        if idx < self.type_.params@.len() {
            self.type_.params@[idx]
        } else {
            self.code->0.locals@[idx - self.type_.params@.len()]
        }
    }

    /// How many local slots the function has (parameters included).
    pub open spec fn spec_n_locals(self) -> int {
        self.type_.params@.len() + self.code->0.locals@.len() as int
    }

    pub fn local_type(&self, idx: u32) -> (t: ValType)
        requires
            self.code is Some,
            idx < self.spec_n_locals(),
        ensures
            t == self.spec_local_type(idx as int),
    {
        let n_params = self.type_.params.len();
        if (idx as usize) < n_params {
            self.type_.params[idx as usize]
        } else {
            match &self.code {
                Some(code) => code.locals[idx as usize - n_params],
                None => ValType::I32,
            }
        }
    }

    /// Appends one fresh local of the given type and returns its slot index.
    pub fn add_fresh_local(&mut self, ty: ValType) -> (idx: u32)
        requires
            old(self).code is Some,
            old(self).spec_n_locals() < u32::MAX,
        ensures
            final(self).code is Some,
            final(self).code->0.locals@ == old(self).code->0.locals@.push(ty),
            final(self).code->0.body == old(self).code->0.body,
            final(self).type_ == old(self).type_,
            final(self).import == old(self).import,
            final(self).export == old(self).export,
            idx == old(self).spec_n_locals(),
    {
        let n_params = self.type_.params.len();
        match &mut self.code {
            Some(code) => {
                let idx = n_params + code.locals.len();
                code.locals.push(ty);
                idx as u32
            },
            None => 0,
        }
    }

    /// Appends one fresh local per given type; the returned indices are
    /// consecutive, in the order of the types.
    pub fn add_fresh_locals(&mut self, tys: &[ValType]) -> (idxs: Vec<u32>)
        requires
            old(self).code is Some,
            old(self).spec_n_locals() + tys@.len() < u32::MAX,
        ensures
            final(self).code is Some,
            final(self).code->0.locals@ == old(self).code->0.locals@ + tys@,
            final(self).code->0.body == old(self).code->0.body,
            final(self).type_ == old(self).type_,
            final(self).import == old(self).import,
            final(self).export == old(self).export,
            idxs@.len() == tys@.len(),
            forall|i: int|
                0 <= i < tys@.len() ==> idxs@[i] == old(self).spec_n_locals() + i,
    {
        let mut idxs: Vec<u32> = Vec::new();
        let mut i: usize = 0;
        while i < tys.len()
            invariant
                0 <= i <= tys@.len(),
                self.code is Some,
                self.code->0.locals@ == old(self).code->0.locals@ + tys@.take(i as int),
                self.code->0.body == old(self).code->0.body,
                self.type_ == old(self).type_,
                self.import == old(self).import,
                self.export == old(self).export,
                old(self).spec_n_locals() + tys@.len() < u32::MAX,
                idxs@.len() == i,
                forall|j: int| 0 <= j < i ==> idxs@[j] == old(self).spec_n_locals() + j,
            decreases tys@.len() - i,
        {
            let idx = self.add_fresh_local(tys[i]);
            idxs.push(idx);
            i = i + 1;
            proof {
                assert(tys@.take(i as int) =~= tys@.take(i as int - 1).push(tys@[i - 1]));
            }
        }
        proof {
            assert(tys@.take(tys@.len() as int) =~= tys@);
        }
        idxs
    }
}

impl Module {
    /// Appends an imported function of the given type under the given import
    /// module and name, and returns its index in the function index space.
    pub fn add_function_import(&mut self, type_: FunctionType, module: String, name: String) -> (idx: u32)
        requires
            old(self).functions@.len() < u32::MAX,
        ensures
            final(self).functions@ == old(self).functions@.push(
                (Function { type_, import: Some((module, name)), code: None, export: None }),
            ),
            final(self).globals == old(self).globals,
            final(self).tables == old(self).tables,
            idx == old(self).functions@.len(),
    {
        let idx = self.functions.len() as u32;
        self.functions.push(
            Function { type_, import: Some((module, name)), code: None, export: None },
        );
        idx
    }
}

/// An exact copy of a value-type vector.
pub fn copy_tys(v: &Vec<ValType>) -> (r: Vec<ValType>)
    ensures
        r@ == v@,
{
    let mut r: Vec<ValType> = Vec::new();
    let mut i: usize = 0;
    while i < v.len()
        invariant
            0 <= i <= v@.len(),
            r@ == v@.take(i as int),
        decreases v@.len() - i,
    {
        r.push(v[i]);
        i = i + 1;
        proof {
            assert(v@.take(i as int) =~= v@.take(i as int - 1).push(v@[i - 1]));
        }
    }
    proof {
        assert(v@.take(v@.len() as int) =~= v@);
    }
    r
}

/// An exact copy of a label vector.
pub fn copy_labels(v: &Vec<u32>) -> (r: Vec<u32>)
    ensures
        r@ == v@,
{
    let mut r: Vec<u32> = Vec::new();
    let mut i: usize = 0;
    while i < v.len()
        invariant
            0 <= i <= v@.len(),
            r@ == v@.take(i as int),
        decreases v@.len() - i,
    {
        r.push(v[i]);
        i = i + 1;
        proof {
            assert(v@.take(i as int) =~= v@.take(i as int - 1).push(v@[i - 1]));
        }
    }
    proof {
        assert(v@.take(v@.len() as int) =~= v@);
    }
    r
}

} // verus!
