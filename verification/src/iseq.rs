//! A function of bytecode, and the discovery of its basic blocks.
//!
//! A call takes three records: `MethodCall`, `MethodArgs`, and a record of
//! cache data that holds no instruction.  A basic block starts at every
//! record that a branch names.

use vstd::prelude::*;
use crate::ids::{BcPc, FuncId, IdentId};
use crate::inst::{decode, Bc, BcOp};

verus! {

/// A function of bytecode.
#[derive(Debug)]
pub struct ISeqInfo {
    /// ID of this function.
    pub id: FuncId,
    pub name: Option<IdentId>,
    /// Bytecode.
    pub bytecode: Vec<Bc>,
    /// The address of the first record.
    pub base: BcPc,
    /// The number of slots, `self` included.
    pub reg_num: usize,
    /// The number of slots that hold `self` and the arguments.
    pub arg_num: usize,
    /// The number of local variables, arguments included.
    pub local_num: usize,
}

/// The number of records that the instruction at `pos` takes: three for a
/// call, else one.
pub open spec fn width(bytecode: Seq<Bc>, pos: int) -> int {
    if decode(bytecode[pos]) matches Some(BcOp::MethodCall(_, _)) {
        3
    } else {
        1
    }
}

/// The place of the instruction after the one at `pos`; the end of the
/// bytecode where a call is cut short.
pub open spec fn next_pos(bytecode: Seq<Bc>, pos: int) -> int {
    if pos + width(bytecode, pos) <= bytecode.len() {
        pos + width(bytecode, pos)
    } else {
        bytecode.len() as int
    }
}

/// The record that the branch at `pos` names; `None` where the record at
/// `pos` holds no branch or the branch leaves the function.
pub open spec fn branch_target(bytecode: Seq<Bc>, pos: int) -> Option<int> {
    let disp = match decode(bytecode[pos]) {
        Some(BcOp::Br(disp)) => Some(disp),
        Some(BcOp::CondBr(_, disp, _, _)) => Some(disp),
        _ => None,
    };
    match disp {
        Some(d) => if 0 <= pos + 1 + d <= bytecode.len() {
            Some(pos + 1 + d)
        } else {
            None
        },
        None => None,
    }
}

/// The branches from `pos` on that name the record `target`, in order.
pub open spec fn branches_to(bytecode: Seq<Bc>, pos: int, target: int) -> Seq<usize>
    decreases bytecode.len() - pos,
{
    if pos < 0 || pos >= bytecode.len() {
        seq![]
    } else {
        let rest = branches_to(bytecode, next_pos(bytecode, pos), target);
        if branch_target(bytecode, pos) == Some(target) {
            seq![pos as usize] + rest
        } else {
            rest
        }
    }
}

/// The number of records below `n` that some branch names.
pub open spec fn blocks_below(bytecode: Seq<Bc>, n: int) -> int
    decreases n,
{
    if n <= 0 {
        0
    } else {
        blocks_below(bytecode, n - 1) + if branches_to(bytecode, 0, n - 1).len() > 0 {
            1int
        } else {
            0int
        }
    }
}

/// What is known of the record `i` as the start of a basic block: nothing
/// where no branch names it, else the block's number, counted from 1, and
/// the branches that name it.
pub open spec fn bb_info_at(bytecode: Seq<Bc>, i: int) -> Option<(usize, Seq<usize>)> {
    let srcs = branches_to(bytecode, 0, i);
    if srcs.len() > 0 {
        Some(((blocks_below(bytecode, i) + 1) as usize, srcs))
    } else {
        None
    }
}

/// The plain content of a table of basic blocks.
pub open spec fn bb_view(info: Seq<Option<(usize, Vec<usize>)>>) -> Seq<Option<(usize, Seq<usize>)>> {
    info.map_values(
        |e: Option<(usize, Vec<usize>)>|
            match e {
                Some(p) => Some((p.0, p.1@)),
                None => None,
            },
    )
}

impl ISeqInfo {
    /// The addresses of all records, and of the few after them that the
    /// code generator names, fit in 64 bits, and the slots can be numbered
    /// in 16 bits.
    pub open spec fn wf(&self) -> bool {
        &&& 32 <= self.base.0
        &&& self.base.0 + 16 * self.bytecode@.len() + 128 <= u64::MAX
        &&& self.bytecode@.len() < usize::MAX - 3
        &&& self.arg_num <= self.reg_num <= 0x1_0000
        &&& self.local_num < self.reg_num
        &&& self.local_num < 0xffff
    }

    /// A function of bytecode; `None` where the addresses, or the numbers of
    /// slots, do not fit.
    pub fn new(
        id: FuncId,
        name: Option<IdentId>,
        bytecode: Vec<Bc>,
        base: BcPc,
        reg_num: usize,
        arg_num: usize,
        local_num: usize,
    ) -> (r: Option<ISeqInfo>)
        ensures
            r is Some <==> (ISeqInfo { id, name, bytecode, base, reg_num, arg_num, local_num }).wf(),
            r matches Some(f) ==> f == (ISeqInfo { id, name, bytecode, base, reg_num, arg_num, local_num }),
    {
        let n = bytecode.len();
        if n < usize::MAX - 3 && base.0 >= 32 && base.0 <= u64::MAX - 128 && (n as u64) <= (u64::MAX - 128 - base.0) / 16
            && arg_num <= reg_num && reg_num <= 0x1_0000 && local_num < reg_num && local_num < 0xffff {
            Some(ISeqInfo { id, name, bytecode, base, reg_num, arg_num, local_num })
        } else {
            None
        }
    }

    pub fn total_reg_num(&self) -> (n: usize)
        ensures
            n == self.reg_num,
    {
        self.reg_num
    }

    pub fn total_arg_num(&self) -> (n: usize)
        ensures
            n == self.arg_num,
    {
        self.arg_num
    }

    pub open spec fn pc_spec(&self, idx: usize) -> BcPc {
        BcPc((self.base.0 + 16 * idx) as u64)
    }

    /// The address of the record `idx`.
    #[verifier::when_used_as_spec(pc_spec)]
    pub fn get_pc(&self, idx: usize) -> (pc: BcPc)
        requires
            self.wf(),
            idx <= self.bytecode@.len(),
        ensures
            pc == self.pc_spec(idx),
            pc.ok(),
            pc.next(1).ok(),
            pc.next(2).ok(),
            pc.prev().ok(),
    {
        BcPc(self.base.0 + 16 * (idx as u64))
    }

    /// The record that the branch at `pos` names, if the record holds a
    /// branch that stays inside the function.
    pub fn branch_target(&self, pos: usize) -> (r: Option<usize>)
        requires
            pos < self.bytecode@.len(),
        ensures
            r is Some <==> branch_target(self.bytecode@, pos as int) is Some,
            r matches Some(t) ==> branch_target(self.bytecode@, pos as int) == Some(t as int),
    {
        let disp = match BcOp::try_from_bc(&self.bytecode[pos]) {
            Some(BcOp::Br(disp)) => Some(disp),
            Some(BcOp::CondBr(_, disp, _, _)) => Some(disp),
            _ => None,
        };
        match disp {
            Some(d) => {
                let t = pos as i128 + 1 + d as i128;
                if 0 <= t && t <= self.bytecode.len() as i128 {
                    Some(t as usize)
                } else {
                    None
                }
            },
            None => None,
        }
    }

    /// The number of records that the instruction at `pos` takes.
    pub fn width(&self, pos: usize) -> (w: usize)
        requires
            pos < self.bytecode@.len(),
        ensures
            w == width(self.bytecode@, pos as int),
    {
        match BcOp::try_from_bc(&self.bytecode[pos]) {
            Some(BcOp::MethodCall(_, _)) => 3,
            _ => 1,
        }
    }

    /// For every record, and for the place after the last, whether a basic
    /// block starts there, and if so the block's number and the branches
    /// that lead to it.
    pub fn get_bb_info(&self) -> (info: Vec<Option<(usize, Vec<usize>)>>)
        requires
            self.bytecode@.len() < usize::MAX - 1,
        ensures
            info@.len() == self.bytecode@.len() + 1,
            forall|i: int|
                0 <= i <= self.bytecode@.len() ==> #[trigger] bb_view(info@)[i] == bb_info_at(
                    self.bytecode@,
                    i,
                ),
    {
        let n = self.bytecode.len();
        let ghost bc = self.bytecode@;
        let mut srcs: Vec<Vec<usize>> = Vec::new();
        let mut i: usize = 0;
        while i <= n
            invariant
                i <= n + 1,
                n < usize::MAX - 1,
                srcs@.len() == i,
                forall|k: int| 0 <= k < i ==> (#[trigger] srcs@[k])@.len() == 0,
            decreases n + 1 - i,
        {
            srcs.push(Vec::new());
            i += 1;
        }
        let mut pos: usize = 0;
        while pos < n
            invariant
                n == self.bytecode@.len(),
                bc == self.bytecode@,
                srcs@.len() == n + 1,
                forall|t: int|
                    0 <= t <= n ==> (#[trigger] srcs@[t])@ + branches_to(bc, pos as int, t)
                        == branches_to(bc, 0, t),
            decreases n - pos,
        {
            let w = self.width(pos);
            let ghost before = srcs@;
            let next = if w <= n - pos {
                pos + w
            } else {
                n
            };
            assert(next == next_pos(bc, pos as int));
            match self.branch_target(pos) {
                Some(t) => {
                    srcs[t].push(pos);
                    assert forall|u: int| 0 <= u <= n implies (#[trigger] srcs@[u])@ + branches_to(
                        bc,
                        next as int,
                        u,
                    ) == branches_to(bc, 0, u) by {
                        assert(before[u]@ + branches_to(bc, pos as int, u) == branches_to(bc, 0, u));
                        if u == t {
                            assert(before[u]@.push(pos) + branches_to(bc, next as int, u) =~= before[u]@
                                + (seq![pos] + branches_to(bc, next as int, u)));
                        } else {
                            assert(srcs@[u] == before[u]);
                        }
                    }
                },
                None => {
                    assert forall|u: int| 0 <= u <= n implies (#[trigger] srcs@[u])@ + branches_to(
                        bc,
                        next as int,
                        u,
                    ) == branches_to(bc, 0, u) by {
                        assert(before[u]@ + branches_to(bc, pos as int, u) == branches_to(bc, 0, u));
                    }
                },
            }
            pos = next;
        }
        assert forall|t: int| 0 <= t <= n implies (#[trigger] srcs@[t])@ == branches_to(bc, 0, t) by {
            assert(srcs@[t]@ + branches_to(bc, n as int, t) == branches_to(bc, 0, t));
            assert(srcs@[t]@ + Seq::<usize>::empty() =~= srcs@[t]@);
        }
        let mut info: Vec<Option<(usize, Vec<usize>)>> = Vec::new();
        let mut id: usize = 1;
        let mut i: usize = 0;
        while i <= n
            invariant
                i <= n + 1,
                n == self.bytecode@.len(),
                n < usize::MAX - 1,
                bc == self.bytecode@,
                srcs@.len() == n + 1,
                forall|t: int| 0 <= t <= n ==> (#[trigger] srcs@[t])@ == branches_to(bc, 0, t),
                info@.len() == i,
                id == blocks_below(bc, i as int) + 1,
                id <= i + 1,
                forall|k: int| 0 <= k < i ==> #[trigger] bb_view(info@)[k] == bb_info_at(bc, k),
            decreases n + 1 - i,
        {
            let ghost prev = info@;
            if srcs[i].len() > 0 {
                info.push(Some((id, srcs[i].clone())));
                id += 1;
            } else {
                info.push(None);
            }
            assert forall|k: int| 0 <= k < i + 1 implies #[trigger] bb_view(info@)[k] == bb_info_at(bc, k) by {
                if k < i {
                    assert(info@[k] == prev[k]);
                    assert(bb_view(prev)[k] == bb_info_at(bc, k));
                }
            }
            i += 1;
        }
        info
    }
}

} // verus!
