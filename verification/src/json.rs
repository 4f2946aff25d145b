use vstd::prelude::*;

use vstd::string::StringExecFns;

use crate::ops::ValType;
use crate::static_info::{BrTableInfo, FunctionInfo, LabelAndLocation, ModuleInfo};

verus! {

/// One decimal digit as text.
pub open spec fn spec_digit(n: int) -> Seq<char> {
    if n == 0 {
        "0"@
    } else if n == 1 {
        "1"@
    } else if n == 2 {
        "2"@
    } else if n == 3 {
        "3"@
    } else if n == 4 {
        "4"@
    } else if n == 5 {
        "5"@
    } else if n == 6 {
        "6"@
    } else if n == 7 {
        "7"@
    } else if n == 8 {
        "8"@
    } else {
        "9"@
    }
}

/// A number in decimal, most significant digit first, no leading zeros.
pub open spec fn spec_dec(n: int) -> Seq<char>
    decreases n,
{
    if n < 10 {
        spec_digit(n)
    } else {
        spec_dec(n / 10) + spec_digit(n % 10)
    }
}

fn digit_str(n: u32) -> (r: &'static str)
    requires
        n < 10,
    ensures
        r@ == spec_digit(n as int),
{
    if n == 0 {
        "0"
    } else if n == 1 {
        "1"
    } else if n == 2 {
        "2"
    } else if n == 3 {
        "3"
    } else if n == 4 {
        "4"
    } else if n == 5 {
        "5"
    } else if n == 6 {
        "6"
    } else if n == 7 {
        "7"
    } else if n == 8 {
        "8"
    } else {
        "9"
    }
}

/// Renders a number in decimal.
pub fn dec_string(n: u32) -> (r: String)
    ensures
        r@ == spec_dec(n as int),
    decreases n,
{
    if n < 10 {
        String::from_str(digit_str(n))
    } else {
        let mut s = dec_string(n / 10);
        s.append(digit_str(n % 10));
        s
    }
}

/// A value type as a JSON string token.
pub open spec fn spec_json_ty(t: ValType) -> Seq<char> {
    match t {
        ValType::I32 => "\"i32\""@,
        ValType::I64 => "\"i64\""@,
        ValType::F32 => "\"f32\""@,
        ValType::F64 => "\"f64\""@,
    }
}

fn json_ty(t: ValType) -> (r: &'static str)
    ensures
        r@ == spec_json_ty(t),
{
    match t {
        ValType::I32 => "\"i32\"",
        ValType::I64 => "\"i64\"",
        ValType::F32 => "\"f32\"",
        ValType::F64 => "\"f64\"",
    }
}

/// The comma-separated value types from index `i` on.
pub open spec fn spec_tys_from(tys: Seq<ValType>, i: int) -> Seq<char>
    decreases tys.len() - i,
{
    if i < 0 || i >= tys.len() {
        Seq::empty()
    } else if i == tys.len() - 1 {
        spec_json_ty(tys[i])
    } else {
        spec_json_ty(tys[i]) + ","@ + spec_tys_from(tys, i + 1)
    }
}

/// A value-type vector as a JSON array.
pub open spec fn spec_json_tys(tys: Seq<ValType>) -> Seq<char> {
    "["@ + spec_tys_from(tys, 0) + "]"@
}

fn json_tys_from(tys: &Vec<ValType>, i: usize) -> (r: String)
    requires
        i <= tys@.len(),
    ensures
        r@ == spec_tys_from(tys@, i as int),
    decreases tys@.len() - i,
{
    if i >= tys.len() {
        String::new()
    } else if i == tys.len() - 1 {
        String::from_str(json_ty(tys[i]))
    } else {
        let mut s = String::from_str(json_ty(tys[i]));
        s.append(",");
        let rest = json_tys_from(tys, i + 1);
        s.append(rest.as_str());
        s
    }
}

/// Renders a value-type vector as a JSON array.
pub fn json_tys(tys: &Vec<ValType>) -> (r: String)
    ensures
        r@ == spec_json_tys(tys@),
{
    let mut s = String::from_str("[");
    let inner = json_tys_from(tys, 0);
    s.append(inner.as_str());
    s.append("]");
    s
}

/// One function entry: its type with parameter and result lists.
pub open spec fn spec_json_fn(f: FunctionInfo) -> Seq<char> {
    "{\"type\":{\"params\":"@ + spec_json_tys(f.type_.params@) + ",\"results\":"@ + spec_json_tys(
        f.type_.results@,
    ) + "}}"@
}

/// The comma-separated function entries from index `i` on.
pub open spec fn spec_fns_from(fs: Seq<FunctionInfo>, i: int) -> Seq<char>
    decreases fs.len() - i,
{
    if i < 0 || i >= fs.len() {
        Seq::empty()
    } else if i == fs.len() - 1 {
        spec_json_fn(fs[i])
    } else {
        spec_json_fn(fs[i]) + ","@ + spec_fns_from(fs, i + 1)
    }
}

fn json_fn(f: &FunctionInfo) -> (r: String)
    ensures
        r@ == spec_json_fn(*f),
{
    let mut s = String::from_str("{\"type\":{\"params\":");
    let p = json_tys(&f.type_.params);
    s.append(p.as_str());
    s.append(",\"results\":");
    let q = json_tys(&f.type_.results);
    s.append(q.as_str());
    s.append("}}");
    s
}

fn json_fns_from(fs: &Vec<FunctionInfo>, i: usize) -> (r: String)
    requires
        i <= fs@.len(),
    ensures
        r@ == spec_fns_from(fs@, i as int),
    decreases fs@.len() - i,
{
    if i >= fs.len() {
        String::new()
    } else if i == fs.len() - 1 {
        json_fn(&fs[i])
    } else {
        let mut s = json_fn(&fs[i]);
        s.append(",");
        let rest = json_fns_from(fs, i + 1);
        s.append(rest.as_str());
        s
    }
}

/// A label-and-location pair as a JSON object.
pub open spec fn spec_json_lal(l: LabelAndLocation) -> Seq<char> {
    "{\"label\":"@ + spec_dec(l.label as int) + ",\"location\":"@ + spec_dec(l.location as int)
        + "}"@
}

fn json_lal(l: &LabelAndLocation) -> (r: String)
    ensures
        r@ == spec_json_lal(*l),
{
    let mut s = String::from_str("{\"label\":");
    let a = dec_string(l.label);
    s.append(a.as_str());
    s.append(",\"location\":");
    let b = dec_string(l.location);
    s.append(b.as_str());
    s.append("}");
    s
}

/// The comma-separated label pairs from index `i` on.
pub open spec fn spec_lals_from(ls: Seq<LabelAndLocation>, i: int) -> Seq<char>
    decreases ls.len() - i,
{
    if i < 0 || i >= ls.len() {
        Seq::empty()
    } else if i == ls.len() - 1 {
        spec_json_lal(ls[i])
    } else {
        spec_json_lal(ls[i]) + ","@ + spec_lals_from(ls, i + 1)
    }
}

fn json_lals_from(ls: &Vec<LabelAndLocation>, i: usize) -> (r: String)
    requires
        i <= ls@.len(),
    ensures
        r@ == spec_lals_from(ls@, i as int),
    decreases ls@.len() - i,
{
    if i >= ls.len() {
        String::new()
    } else if i == ls.len() - 1 {
        json_lal(&ls[i])
    } else {
        let mut s = json_lal(&ls[i]);
        s.append(",");
        let rest = json_lals_from(ls, i + 1);
        s.append(rest.as_str());
        s
    }
}

/// One branch-table entry: its targets in order, then the default target.
pub open spec fn spec_json_br(b: BrTableInfo) -> Seq<char> {
    "{\"targets\":["@ + spec_lals_from(b.targets@, 0) + "],\"default\":"@ + spec_json_lal(
        b.default_target,
    ) + "}"@
}

/// The comma-separated branch-table entries from index `i` on.
pub open spec fn spec_brs_from(bs: Seq<BrTableInfo>, i: int) -> Seq<char>
    decreases bs.len() - i,
{
    if i < 0 || i >= bs.len() {
        Seq::empty()
    } else if i == bs.len() - 1 {
        spec_json_br(bs[i])
    } else {
        spec_json_br(bs[i]) + ","@ + spec_brs_from(bs, i + 1)
    }
}

fn json_br(b: &BrTableInfo) -> (r: String)
    ensures
        r@ == spec_json_br(*b),
{
    let mut s = String::from_str("{\"targets\":[");
    let t = json_lals_from(&b.targets, 0);
    s.append(t.as_str());
    s.append("],\"default\":");
    let d = json_lal(&b.default_target);
    s.append(d.as_str());
    s.append("}");
    s
}

fn json_brs_from(bs: &Vec<BrTableInfo>, i: usize) -> (r: String)
    requires
        i <= bs@.len(),
    ensures
        r@ == spec_brs_from(bs@, i as int),
    decreases bs@.len() - i,
{
    if i >= bs.len() {
        String::new()
    } else if i == bs.len() - 1 {
        json_br(&bs[i])
    } else {
        let mut s = json_br(&bs[i]);
        s.append(",");
        let rest = json_brs_from(bs, i + 1);
        s.append(rest.as_str());
        s
    }
}

/// The whole side table as one JSON object: the function types, the global
/// types, and the branch tables, in that key order, with no whitespace.
pub open spec fn spec_json_info(
    fs: Seq<FunctionInfo>,
    gs: Seq<ValType>,
    bs: Seq<BrTableInfo>,
) -> Seq<char> {
    "{\"functions\":["@ + spec_fns_from(fs, 0) + "],\"globals\":"@ + spec_json_tys(gs)
        + ",\"br_tables\":["@ + spec_brs_from(bs, 0) + "]}"@
}

/// Serializes the side table to JSON.
pub fn json_info(info: &ModuleInfo) -> (r: String)
    ensures
        r@ == spec_json_info(info.functions@, info.globals@, info.br_tables@),
{
    let mut s = String::from_str("{\"functions\":[");
    let f = json_fns_from(&info.functions, 0);
    s.append(f.as_str());
    s.append("],\"globals\":");
    let g = json_tys(&info.globals);
    s.append(g.as_str());
    s.append(",\"br_tables\":[");
    let b = json_brs_from(&info.br_tables, 0);
    s.append(b.as_str());
    s.append("]}");
    s
}

} // verus!
