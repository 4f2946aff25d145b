use vstd::prelude::*;

use vstd::string::StringExecFns;

use crate::ops::ValType;

verus! {

/// The name-mangling suffix a single operand type adds to a hook name.
pub open spec fn spec_ty_suffix(t: ValType) -> Seq<char> {
    match t {
        ValType::I32 => "_i32"@,
        ValType::I64 => "_i64"@,
        ValType::F32 => "_f32"@,
        ValType::F64 => "_f64"@,
    }
}

/// The suffixes of a whole type vector, concatenated in order.
pub open spec fn spec_suffixes(tys: Seq<ValType>) -> Seq<char>
    decreases tys.len(),
{
    if tys.len() == 0 {
        Seq::empty()
    } else {
        spec_ty_suffix(tys[0]) + spec_suffixes(tys.drop_first())
    }
}

/// A hook name mangled with its operand-type vector: the base name followed
/// by one `_i32` / `_i64` / `_f32` / `_f64` suffix per type, in order.
pub open spec fn spec_mangled(name: Seq<char>, tys: Seq<ValType>) -> Seq<char> {
    name + spec_suffixes(tys)
}

pub proof fn lemma_suffixes_push(tys: Seq<ValType>, t: ValType)
    ensures
        spec_suffixes(tys.push(t)) == spec_suffixes(tys) + spec_ty_suffix(t),
    decreases tys.len(),
{
    if tys.len() == 0 {
        assert(tys.push(t).drop_first() =~= Seq::<ValType>::empty());
        assert(spec_suffixes(Seq::<ValType>::empty()) =~= Seq::<char>::empty());
        assert(spec_suffixes(tys.push(t)) =~= spec_ty_suffix(t));
        assert(spec_suffixes(tys) + spec_ty_suffix(t) =~= spec_ty_suffix(t));
    } else {
        assert(tys.push(t).drop_first() =~= tys.drop_first().push(t));
        lemma_suffixes_push(tys.drop_first(), t);
        assert(spec_suffixes(tys.push(t)) =~= spec_suffixes(tys) + spec_ty_suffix(t));
    }
}

/// Appends the type-vector suffix to a hook name.
pub fn append_mangled_tys(name: String, tys: &[ValType]) -> (r: String)
    ensures
        r@ == spec_mangled(name@, tys@),
{
    let mut r = name;
    let mut i: usize = 0;
    while i < tys.len()
        invariant
            0 <= i <= tys@.len(),
            r@ == spec_mangled(name@, tys@.take(i as int)),
        decreases tys@.len() - i,
    {
        match tys[i] {
            ValType::I32 => r.append("_i32"),
            ValType::I64 => r.append("_i64"),
            ValType::F32 => r.append("_f32"),
            ValType::F64 => r.append("_f64"),
        }
        i = i + 1;
        proof {
            assert(tys@.take(i as int) =~= tys@.take(i as int - 1).push(tys@[i - 1]));
            lemma_suffixes_push(tys@.take(i as int - 1), tys@[i - 1]);
            assert(r@ =~= spec_mangled(name@, tys@.take(i as int)));
        }
    }
    proof {
        assert(tys@.take(tys@.len() as int) =~= tys@);
    }
    r
}

} // verus!
