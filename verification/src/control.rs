use vstd::prelude::*;

use crate::ops::{Instr, InstrKind};

verus! {

/// An open structured region, tagged with the static index (within the
/// current function's original body) of the instruction that opened it. The
/// function's own region corresponds to no instruction.
#[derive(Clone, Copy, PartialEq, Eq, Structural, Debug)]
pub enum Begin {
    Function,
    Block(u32),
    Loop(u32),
    If(u32),
    Else(u32),
}

/// How one original instruction at index `iidx` changes the stack of open
/// regions.
pub open spec fn begins_step(st: Seq<Begin>, i: Instr, iidx: int) -> Seq<Begin> {
    match i {
        Instr::Block(_) => st.push(Begin::Block(iidx as u32)),
        Instr::Loop(_) => st.push(Begin::Loop(iidx as u32)),
        Instr::If(_) => st.push(Begin::If(iidx as u32)),
        Instr::Else => st.drop_last().push(Begin::Else(iidx as u32)),
        Instr::End => st.drop_last(),
        _ => st,
    }
}

/// Whether the instruction meets the stack of open regions it runs under:
/// `else` must close an `if`, `end` must close something, and a branch label
/// must name an enclosing region.
pub open spec fn begins_ok_step(st: Seq<Begin>, i: Instr) -> bool {
    match i {
        Instr::Else => st.len() > 0 && st.last() is If,
        Instr::End => st.len() > 0,
        Instr::Br(l) => l < st.len(),
        Instr::BrIf(l) => l < st.len(),
        _ => true,
    }
}

/// The stack of open regions after the first `n` instructions of `body`,
/// starting from the function's own sentinel region.
pub open spec fn spec_begins(body: Seq<Instr>, n: int) -> Seq<Begin>
    decreases n,
{
    if n <= 0 {
        seq![Begin::Function]
    } else {
        begins_step(spec_begins(body, n - 1), body[n - 1], n - 1)
    }
}

/// Well-nested bodies: every instruction meets the regions open at its index,
/// and the final `end` closes the function's own region, leaving none open.
pub open spec fn spec_body_nested(body: Seq<Instr>) -> bool {
    &&& forall|k: int|
        0 <= k < body.len() ==> begins_ok_step(#[trigger] spec_begins(body, k), body[k])
    &&& spec_begins(body, body.len() as int).len() == 0
}

/// Where a branch with the given label, taken under the given stack of open
/// regions, is reported to land: the begin-index of the `label`-th enclosing
/// region, counted from the innermost; the function's own region counts as
/// index zero.
pub open spec fn spec_label_target(st: Seq<Begin>, label: int) -> u32 {
    match st[st.len() - 1 - label] {
        Begin::Function => 0u32,
        Begin::Block(i) => i,
        Begin::Loop(i) => i,
        Begin::If(i) => i,
        Begin::Else(i) => i,
    }
}

/// Resolves a branch label to the begin-index of its target region. For a
/// `loop` this is the back-edge target; for the forward regions it is the
/// region's begin, standing in for the index of its `end`.
pub fn label_to_instr_idx(begin_stack: &Vec<Begin>, label: u32) -> (r: u32)
    requires
        label < begin_stack@.len(),
    ensures
        r == spec_label_target(begin_stack@, label as int),
{
    let pos = begin_stack.len() - 1 - (label as usize);
    match begin_stack[pos] {
        Begin::Function => 0,
        Begin::Block(i) => i,
        Begin::Loop(i) => i,
        Begin::If(i) => i,
        Begin::Else(i) => i,
    }
}

/// How many structured regions an instruction opens or reopens: `block`,
/// `loop`, `if` and `else` each begin one.
pub open spec fn opens_region(k: InstrKind) -> bool {
    k == InstrKind::Block || k == InstrKind::Loop || k == InstrKind::If || k == InstrKind::Else
}

} // verus!
