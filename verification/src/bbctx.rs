//! The abstract state of a basic block: which stack slots are mirrored in
//! which xmm register, and in which mode.

use vstd::prelude::*;
use crate::assembler::DestLabel;
use crate::ids::{ClassId, SlotId};

verus! {

/// Number of xmm registers that can back stack slots (xmm2 to xmm15).
pub const XMM_NUM: usize = 14;

/// How a stack slot is linked to an xmm register.
#[derive(Clone, Copy, Debug, PartialEq, Eq, Structural)]
pub enum LinkMode {
    /// The slot is a float whose current value lives in the register; the
    /// stack slot is stale until it is written back.
    XmmRW(u16),
    /// The register holds a copy of the slot as an unboxed double; the stack
    /// slot is current.
    XmmR(u16),
    /// Not linked: the value lives in the stack slot alone.
    Stack,
}

impl LinkMode {
    /// The register that the slot is linked to, if any.
    pub open spec fn xmm(self) -> Option<u16> {
        match self {
            LinkMode::XmmRW(f) => Some(f),
            LinkMode::XmmR(f) => Some(f),
            LinkMode::Stack => None,
        }
    }

    /// The join of the modes that two predecessors leave for one slot.  The
    /// register is the one of the first.
    pub open spec fn merge(self, other: LinkMode) -> LinkMode {
        match (self, other) {
            (LinkMode::XmmR(l), LinkMode::XmmR(_)) => LinkMode::XmmR(l),
            (LinkMode::XmmR(l), LinkMode::XmmRW(_)) => LinkMode::XmmR(l),
            (LinkMode::XmmRW(l), LinkMode::XmmR(_)) => LinkMode::XmmR(l),
            (LinkMode::XmmRW(l), LinkMode::XmmRW(_)) => LinkMode::XmmRW(l),
            _ => LinkMode::Stack,
        }
    }

    /// Joins two modes.
    pub fn merged(self, other: LinkMode) -> (m: LinkMode)
        ensures
            m == self.merge(other),
    {
        match (self, other) {
            (LinkMode::XmmR(l), LinkMode::XmmR(_)) => LinkMode::XmmR(l),
            (LinkMode::XmmR(l), LinkMode::XmmRW(_)) => LinkMode::XmmR(l),
            (LinkMode::XmmRW(l), LinkMode::XmmR(_)) => LinkMode::XmmR(l),
            (LinkMode::XmmRW(l), LinkMode::XmmRW(_)) => LinkMode::XmmRW(l),
            _ => LinkMode::Stack,
        }
    }
}

/// The link mode of every stack slot of a frame.
#[derive(Debug)]
pub struct StackSlotInfo(pub Vec<LinkMode>);

impl Clone for StackSlotInfo {
    fn clone(&self) -> (r: StackSlotInfo)
        ensures
            r.0@ == self.0@,
    {
        StackSlotInfo(self.0.clone())
    }
}

/// The slot-wise join of two slot tables, over the slots that both have.
pub open spec fn merge_slots(l: Seq<LinkMode>, r: Seq<LinkMode>) -> Seq<LinkMode> {
    Seq::new(
        l.len(),
        |i: int|
            if i < r.len() {
                l[i].merge(r[i])
            } else {
                l[i]
            },
    )
}

impl StackSlotInfo {
    /// Joins `other` into this table, slot by slot.
    pub fn merge(&mut self, other: &StackSlotInfo)
        ensures
            final(self).0@ == merge_slots(old(self).0@, other.0@),
    {
        let n = if self.0.len() < other.0.len() {
            self.0.len()
        } else {
            other.0.len()
        };
        let mut i: usize = 0;
        while i < n
            invariant
                i <= n,
                n <= other.0.len(),
                n <= old(self).0.len(),
                self.0.len() == old(self).0.len(),
                forall|k: int| 0 <= k < i ==> self.0@[k] == old(self).0@[k].merge(other.0@[k]),
                forall|k: int| i <= k < self.0.len() ==> self.0@[k] == old(self).0@[k],
            decreases n - i,
        {
            let m = self.0[i].merged(other.0[i]);
            self.0.set(i, m);
            i += 1;
        }
        assert(self.0@ =~= merge_slots(old(self).0@, other.0@));
    }

    /// The join of the slot tables that the pending edges into one block
    /// bring.
    pub fn merge_entries(entries: &Vec<BranchEntry>) -> (target: StackSlotInfo)
        requires
            entries.len() > 0,
        ensures
            target.0@ == merge_entries_upto(entries@, entries.len() as int),
    {
        let mut target = StackSlotInfo(entries[0].bbctx.stack_slot.0.clone());
        let mut i: usize = 1;
        while i < entries.len()
            invariant
                1 <= i <= entries.len(),
                target.0@ == merge_entries_upto(entries@, i as int),
            decreases entries.len() - i,
        {
            target.merge(&entries[i].bbctx.stack_slot);
            i += 1;
        }
        target
    }
}

/// The join of the slot tables of the first `n` entries.
pub open spec fn merge_entries_upto(entries: Seq<BranchEntry>, n: int) -> Seq<LinkMode>
    recommends
        1 <= n <= entries.len(),
    decreases n,
{
    if n <= 1 {
        entries[0].bbctx@.slots
    } else {
        merge_slots(merge_entries_upto(entries, n - 1), entries[n - 1].bbctx@.slots)
    }
}

/// A pending edge into a basic block: where it comes from, the state it
/// brings, and the label at which its fix-up code is to stand.
#[derive(Debug)]
pub struct BranchEntry {
    pub src_idx: usize,
    pub bbctx: BBContext,
    pub dest_label: DestLabel,
}

/// The test for a slot other than `reg`.
pub open spec fn other_than(reg: SlotId) -> spec_fn(SlotId) -> bool {
    |s: SlotId| s != reg
}

/// A filter lists nothing twice that was not listed twice before.
pub proof fn lemma_filter_no_duplicates(s: Seq<SlotId>, pred: spec_fn(SlotId) -> bool)
    requires
        s.no_duplicates(),
    ensures
        s.filter(pred).no_duplicates(),
    decreases s.len(),
{
    reveal(Seq::filter);
    if s.len() > 0 {
        let rest = s.drop_last();
        assert(rest.no_duplicates());
        lemma_filter_no_duplicates(rest, pred);
        let kept = rest.filter(pred);
        if pred(s.last()) {
            assert forall|i: int| 0 <= i < kept.len() implies kept[i] != s.last() by {
                lemma_filter_subset(rest, pred, i);
                let k = choose|k: int| 0 <= k < rest.len() && rest[k] == kept[i];
                assert(s[k] == rest[k]);
            }
            assert(s.filter(pred) =~= kept.push(s.last()));
        } else {
            assert(s.filter(pred) =~= kept);
        }
    }
}

/// Whatever a filter keeps stood in the sequence.
pub proof fn lemma_filter_subset(s: Seq<SlotId>, pred: spec_fn(SlotId) -> bool, i: int)
    requires
        0 <= i < s.filter(pred).len(),
    ensures
        s.contains(s.filter(pred)[i]),
        pred(s.filter(pred)[i]),
    decreases s.len(),
{
    reveal(Seq::filter);
    if s.len() > 0 {
        let rest = s.drop_last();
        if i < rest.filter(pred).len() {
            lemma_filter_subset(rest, pred, i);
            let k = choose|k: int| 0 <= k < rest.len() && rest[k] == rest.filter(pred)[i];
            assert(s[k] == s.filter(pred)[i]);
        } else {
            assert(s[s.len() - 1] == s.filter(pred)[i]);
        }
    }
}

/// One step of a write-back: the register and the stale slots it backs.
pub type WriteBackView = Seq<(u16, Seq<SlotId>)>;

/// The mathematical content of a [`BBContext`].
#[verifier::ext_equal]
pub struct BBView {
    /// The link mode of each slot.
    pub slots: Seq<LinkMode>,
    /// For each of the 14 registers, the slots it backs.
    pub xmm: Seq<Seq<SlotId>>,
    /// The class of `self` that the code is specialised on.
    pub self_class: ClassId,
    /// The number of local variables; they are the slots 1 to `local_num`.
    pub local_num: usize,
}

impl BBView {
    /// Both directions of the link agree: a linked slot is listed under its
    /// register, and every slot listed under a register is linked to it.  No
    /// slot is listed twice: the slots under a register are a set.
    pub open spec fn wf(self) -> bool {
        &&& self.xmm.len() == 14
        &&& forall|f: int| 0 <= f < 14 ==> (#[trigger] self.xmm[f]).no_duplicates()
        &&& forall|s: int|
            0 <= s < self.slots.len() && (#[trigger] self.slots[s]).xmm() is Some ==> {
                let f = self.slots[s].xmm()->0;
                f < 14 && s <= u16::MAX && self.xmm[f as int].contains(SlotId(s as u16))
            }
        &&& forall|f: int, k: int|
            0 <= f < 14 && 0 <= k < self.xmm[f].len() ==> {
                let s = #[trigger] self.xmm[f][k];
                s.0 < self.slots.len() && self.slots[s.0 as int].xmm() == Some(f as u16)
            }
    }

    /// No slot is linked.
    pub open spec fn empty(reg_num: nat, self_class: ClassId, local_num: usize) -> BBView {
        BBView {
            slots: Seq::new(reg_num, |i: int| LinkMode::Stack),
            xmm: Seq::new(14, |f: int| Seq::<SlotId>::empty()),
            self_class,
            local_num,
        }
    }

    /// The slot's mode.
    pub open spec fn mode(self, reg: SlotId) -> LinkMode {
        self.slots[reg.0 as int]
    }

    /// The slot's stack value is stale: the register holds the current one.
    pub open spec fn stale(self, reg: SlotId) -> bool {
        self.mode(reg) is XmmRW
    }

    /// The least register from `k` on that backs no slot; 14 if there is
    /// none.
    pub open spec fn vacant_from(self, k: int) -> int
        decreases 14 - k,
    {
        if k >= 14 {
            14
        } else if self.xmm[k].len() == 0 {
            k
        } else {
            self.vacant_from(k + 1)
        }
    }

    /// The least register that backs no slot; 14 if all are in use.
    pub open spec fn vacant(self) -> int {
        self.vacant_from(0)
    }

    /// The number of registers below `n` that back no slot.
    pub open spec fn vacant_upto(self, n: int) -> int
        decreases n,
    {
        if n <= 0 {
            0
        } else {
            self.vacant_upto(n - 1) + if self.xmm[n - 1].len() == 0 {
                1int
            } else {
                0int
            }
        }
    }

    /// The number of registers that back no slot.
    pub open spec fn vacant_count(self) -> int {
        self.vacant_upto(14)
    }

    /// `reg` linked to register `freg` in the given mode.
    pub open spec fn link(self, reg: SlotId, mode: LinkMode) -> BBView {
        let f = mode.xmm()->0 as int;
        BBView {
            slots: self.slots.update(reg.0 as int, mode),
            xmm: self.xmm.update(f, self.xmm[f].push(reg)),
            ..self
        }
    }

    /// `reg` unlinked from its register, if it has one.
    pub open spec fn dealloc(self, reg: SlotId) -> BBView {
        match self.mode(reg).xmm() {
            Some(f) => BBView {
                slots: self.slots.update(reg.0 as int, LinkMode::Stack),
                xmm: self.xmm.update(f as int, self.xmm[f as int].filter(other_than(reg))),
                ..self
            },
            None => self,
        }
    }

    /// Each of `regs` unlinked, in order.
    pub open spec fn dealloc_all(self, regs: Seq<SlotId>) -> BBView
        decreases regs.len(),
    {
        if regs.len() == 0 {
            self
        } else {
            self.dealloc_all(regs.drop_last()).dealloc(regs.last())
        }
    }

    /// The mode that names `l` where it named `r`, and `r` where it named `l`.
    pub open spec fn swap_mode(m: LinkMode, l: u16, r: u16) -> LinkMode {
        match m {
            LinkMode::XmmR(x) => LinkMode::XmmR(
                if x == l {
                    r
                } else if x == r {
                    l
                } else {
                    x
                },
            ),
            LinkMode::XmmRW(x) => LinkMode::XmmRW(
                if x == l {
                    r
                } else if x == r {
                    l
                } else {
                    x
                },
            ),
            LinkMode::Stack => LinkMode::Stack,
        }
    }

    /// The roles of registers `l` and `r` exchanged.
    pub open spec fn swap(self, l: u16, r: u16) -> BBView {
        BBView {
            slots: Seq::new(self.slots.len(), |i: int| Self::swap_mode(self.slots[i], l, r)),
            xmm: self.xmm.update(l as int, self.xmm[r as int]).update(r as int, self.xmm[l as int]),
            ..self
        }
    }

    /// The slot alone is listed under the register that it is linked to.
    pub open spec fn sole_owner(self, reg: SlotId) -> bool {
        self.mode(reg).xmm() is Some && self.xmm[self.mode(reg).xmm()->0 as int].len() == 1
    }

    /// A register can be found for writing a float to `reg`: the slot alone
    /// owns a writable register, or a register is vacant once the slot is
    /// unlinked.
    pub open spec fn can_write(self, reg: SlotId) -> bool {
        (self.mode(reg) is XmmRW && self.sole_owner(reg)) || self.dealloc(reg).vacant_count() >= 1
    }

    /// The number of vacant registers that reading `reg` as a float takes:
    /// one where the slot is not linked.
    pub open spec fn need_read(self, reg: SlotId) -> int {
        if self.mode(reg).xmm() is Some {
            0
        } else {
            1
        }
    }

    /// The number of vacant registers that reading `a` and `b` as floats
    /// takes.
    pub open spec fn need_reads(self, a: SlotId, b: SlotId) -> int {
        self.need_read(a) + if a != b {
            self.need_read(b)
        } else {
            0
        }
    }

    /// The number of vacant registers that writing a float to `ret` takes
    /// once `a` and `b` were read as floats: none where the slot alone owns
    /// a register, or will own the register that it is read into; else one.
    pub open spec fn need_write(self, ret: SlotId, a: SlotId, b: SlotId) -> int {
        if self.sole_owner(ret) || ((ret == a || ret == b) && self.mode(ret) is Stack) {
            0
        } else {
            1
        }
    }

    /// Every slot that alone owns its register in `old` does so here.
    pub open spec fn keeps_owners(self, old: BBView) -> bool {
        forall|s: SlotId| s.0 < old.slots.len() && old.sole_owner(s) ==> #[trigger] self.sole_owner(s)
    }

    /// The state after a register was found for writing a float to `reg`,
    /// and that register.
    pub open spec fn xmm_write(self, reg: SlotId) -> (BBView, u16) {
        if self.mode(reg) is XmmRW && self.xmm[self.mode(reg)->XmmRW_0 as int].len() == 1 {
            (self, self.mode(reg)->XmmRW_0)
        } else {
            let d = self.dealloc(reg);
            let f = d.vacant() as u16;
            (d.link(reg, LinkMode::XmmRW(f)), f)
        }
    }

    /// The state after `src` was copied to `dst`.
    pub open spec fn copy_slot(self, src: SlotId, dst: SlotId) -> BBView {
        let d = self.dealloc(dst);
        match d.mode(src).xmm() {
            Some(f) => d.link(dst, LinkMode::XmmRW(f)),
            None => d,
        }
    }

    /// The state after `reg` was written back: a writable link becomes a
    /// read-only one.
    pub open spec fn written_back(self, reg: SlotId) -> BBView {
        match self.mode(reg) {
            LinkMode::XmmRW(f) => BBView { slots: self.slots.update(reg.0 as int, LinkMode::XmmR(f)), ..self },
            _ => self,
        }
    }

    /// Every slot that is linked to register `f` made a read-only link.
    pub open spec fn demote(self, f: u16) -> BBView {
        BBView {
            slots: Seq::new(
                self.slots.len(),
                |i: int|
                    if self.slots[i].xmm() == Some(f) {
                        LinkMode::XmmR(f)
                    } else {
                        self.slots[i]
                    },
            ),
            ..self
        }
    }

    /// The mode of `reg` replaced.
    pub open spec fn set_mode(self, reg: SlotId, mode: LinkMode) -> BBView {
        BBView { slots: self.slots.update(reg.0 as int, mode), ..self }
    }

    /// The slot is linked to a register.
    pub open spec fn linked(self, reg: int) -> bool {
        self.slots[reg].xmm() is Some
    }

    /// The same slots are linked in both contexts, but for `reg`.
    pub open spec fn same_links_but(self, other: BBView, reg: int) -> bool {
        &&& self.slots.len() == other.slots.len()
        &&& forall|j: int| 0 <= j < self.slots.len() && j != reg ==> self.linked(j) == other.linked(j)
    }

    /// The stale slots among those that register `f` backs.
    pub open spec fn stale_of(self, f: int) -> Seq<SlotId> {
        self.xmm[f].filter(self.stale_pred())
    }

    /// The test for a stale slot.
    pub open spec fn stale_pred(self) -> spec_fn(SlotId) -> bool {
        |s: SlotId| self.stale(s)
    }

    /// The test for a stale local variable.
    pub open spec fn stale_local_pred(self) -> spec_fn(SlotId) -> bool {
        |s: SlotId| s.0 <= self.local_num && self.stale(s)
    }

    /// The stale local variables among the slots that register `f` backs.
    pub open spec fn stale_locals_of(self, f: int) -> Seq<SlotId> {
        self.xmm[f].filter(self.stale_local_pred())
    }

    /// The write-back steps for the registers below `n`, in register order.
    pub open spec fn write_back_upto(self, n: int) -> WriteBackView
        decreases n,
    {
        if n <= 0 {
            seq![]
        } else {
            let rest = self.write_back_upto(n - 1);
            let v = self.stale_of(n - 1);
            if v.len() > 0 {
                rest.push(((n - 1) as u16, v))
            } else {
                rest
            }
        }
    }

    /// The write-back steps that make every stack slot current.
    pub open spec fn write_back(self) -> WriteBackView {
        self.write_back_upto(14)
    }

    /// The write-back steps for the stale local variables, for the registers
    /// below `n`.
    pub open spec fn locals_write_back_upto(self, n: int) -> WriteBackView
        decreases n,
    {
        if n <= 0 {
            seq![]
        } else {
            let rest = self.locals_write_back_upto(n - 1);
            let v = self.stale_locals_of(n - 1);
            if v.len() > 0 {
                rest.push(((n - 1) as u16, v))
            } else {
                rest
            }
        }
    }

    /// The registers below `n` that back a slot, in order.
    pub open spec fn using_upto(self, n: int) -> Seq<usize>
        decreases n,
    {
        if n <= 0 {
            seq![]
        } else {
            let rest = self.using_upto(n - 1);
            if self.xmm[n - 1].len() > 0 {
                rest.push((n - 1) as usize)
            } else {
                rest
            }
        }
    }

    /// The registers that back a slot, in order.
    pub open spec fn using(self) -> Seq<usize> {
        self.using_upto(14)
    }

    /// The context that a slot table stands for: each linked slot listed under
    /// its register, in slot order.
    pub open spec fn from_slots_upto(
        slots: Seq<LinkMode>,
        n: int,
        self_class: ClassId,
        local_num: usize,
    ) -> BBView
        decreases n,
    {
        if n <= 0 {
            BBView::empty(slots.len(), self_class, local_num)
        } else {
            let rest = Self::from_slots_upto(slots, n - 1, self_class, local_num);
            match slots[n - 1] {
                LinkMode::Stack => rest,
                m => rest.link(SlotId((n - 1) as u16), m),
            }
        }
    }

    pub open spec fn from_slots(slots: Seq<LinkMode>, self_class: ClassId, local_num: usize) -> BBView {
        Self::from_slots_upto(slots, slots.len() as int, self_class, local_num)
    }

    /// The slots from 1 to `n`, the local variables, in order.
    pub open spec fn locals(n: int) -> Seq<SlotId> {
        Seq::new(n as nat, |i: int| SlotId((i + 1) as u16))
    }
}

/// The plain content of a write-back list.
pub open spec fn wb_view(wb: Seq<(u16, Vec<SlotId>)>) -> WriteBackView {
    wb.map_values(|e: (u16, Vec<SlotId>)| (e.0, e.1@))
}

/// Context of the current basic block.
#[derive(Debug)]
pub struct BBContext {
    /// Information for stack slots.
    pub stack_slot: StackSlotInfo,
    /// For each xmm register, the slots it backs.
    pub xmm: Vec<Vec<SlotId>>,
    /// The class of `self` that the code is specialised on.
    pub self_class: ClassId,
    /// The number of local variables; they are the slots 1 to `local_num`.
    pub local_num: usize,
}

impl View for BBContext {
    type V = BBView;

    open spec fn view(&self) -> BBView {
        BBView {
            slots: self.stack_slot.0@,
            xmm: self.xmm@.map_values(|v: Vec<SlotId>| v@),
            self_class: self.self_class,
            local_num: self.local_num,
        }
    }
}

/// The slots of `v` other than `reg`, in order.
fn without(v: &Vec<SlotId>, reg: SlotId) -> (r: Vec<SlotId>)
    ensures
        r@ == v@.filter(other_than(reg)),
{
    let mut r: Vec<SlotId> = Vec::new();
    let mut i: usize = 0;
    let ghost pred = other_than(reg);
    assert(v@.take(0).filter(pred) =~= Seq::<SlotId>::empty());
    while i < v.len()
        invariant
            i <= v.len(),
            pred == other_than(reg),
            r@ == v@.take(i as int).filter(pred),
        decreases v.len() - i,
    {
        proof {
            assert(v@.take(i + 1) =~= v@.take(i as int).push(v@[i as int]));
            v@.take(i as int).lemma_filter_push(v@[i as int], pred);
        }
        if v[i] != reg {
            r.push(v[i]);
        }
        i += 1;
    }
    assert(v@.take(v.len() as int) =~= v@);
    r
}

impl BBContext {
    /// A context of `reg_num` slots, none of them linked.
    pub fn new(reg_num: usize, self_class: ClassId, local_num: usize) -> (ctx: BBContext)
        ensures
            ctx@ == BBView::empty(reg_num as nat, self_class, local_num),
            ctx@.wf(),
    {
        let mut slots: Vec<LinkMode> = Vec::new();
        let mut i: usize = 0;
        while i < reg_num
            invariant
                i <= reg_num,
                slots.len() == i,
                forall|k: int| 0 <= k < i ==> slots@[k] == LinkMode::Stack,
            decreases reg_num - i,
        {
            slots.push(LinkMode::Stack);
            i += 1;
        }
        let mut xmm: Vec<Vec<SlotId>> = Vec::new();
        let mut f: usize = 0;
        while f < 14
            invariant
                f <= 14,
                xmm.len() == f,
                forall|k: int| 0 <= k < f ==> xmm@[k]@ == Seq::<SlotId>::empty(),
            decreases 14 - f,
        {
            xmm.push(Vec::new());
            f += 1;
        }
        let ctx = BBContext { stack_slot: StackSlotInfo(slots), xmm, self_class, local_num };
        assert(ctx@ =~~= BBView::empty(reg_num as nat, self_class, local_num));
        ctx
    }

    /// The number of slots.
    pub fn len(&self) -> (n: usize)
        ensures
            n == self@.slots.len(),
    {
        self.stack_slot.0.len()
    }

    /// The mode of a slot.
    pub fn mode(&self, reg: SlotId) -> (m: LinkMode)
        requires
            reg.0 < self@.slots.len(),
        ensures
            m == self@.mode(reg),
    {
        self.stack_slot.0[reg.0 as usize]
    }

    /// The register that a linked slot is linked to.
    pub fn linked_xmm(&self, reg: SlotId) -> (freg: u16)
        requires
            reg.0 < self@.slots.len(),
            self@.mode(reg).xmm() is Some,
        ensures
            Some(freg) == self@.mode(reg).xmm(),
    {
        match self.stack_slot.0[reg.0 as usize] {
            LinkMode::XmmR(f) => f,
            LinkMode::XmmRW(f) => f,
            LinkMode::Stack => 0,
        }
    }

    /// Whether the slot alone is listed under the register that it is
    /// linked to.
    pub fn is_sole_owner(&self, reg: SlotId) -> (b: bool)
        requires
            self@.wf(),
            reg.0 < self@.slots.len(),
        ensures
            b == self@.sole_owner(reg),
    {
        match self.stack_slot.0[reg.0 as usize] {
            LinkMode::XmmR(f) => {
                assert(self@.slots[reg.0 as int].xmm() is Some);
                self.xmm[f as usize].len() == 1
            },
            LinkMode::XmmRW(f) => {
                assert(self@.slots[reg.0 as int].xmm() is Some);
                self.xmm[f as usize].len() == 1
            },
            LinkMode::Stack => false,
        }
    }

    /// The number of vacant registers that reading `a` and `b` as floats and
    /// then writing a float to `ret` takes.
    pub fn need_number(&self, ret: Option<SlotId>, a: SlotId, b: SlotId) -> (n: usize)
        requires
            self@.wf(),
            a.0 < self@.slots.len(),
            b.0 < self@.slots.len(),
            ret matches Some(r) ==> r.0 < self@.slots.len(),
        ensures
            n == self@.need_reads(a, b) + match ret {
                Some(r) => self@.need_write(r, a, b),
                None => 0,
            },
    {
        let unlinked = |m: LinkMode| -> (u: bool)
            ensures
                u == (m is Stack),
            {
                match m {
                    LinkMode::Stack => true,
                    _ => false,
                }
            };
        let ma = self.stack_slot.0[a.0 as usize];
        let mb = self.stack_slot.0[b.0 as usize];
        let mut n: usize = 0;
        if unlinked(ma) {
            n += 1;
        }
        if a.0 != b.0 && unlinked(mb) {
            n += 1;
        }
        match ret {
            Some(r) => {
                let mr = self.stack_slot.0[r.0 as usize];
                let own = self.is_sole_owner(r);
                if !(own || ((r.0 == a.0 || r.0 == b.0) && unlinked(mr))) {
                    n += 1;
                }
            },
            None => {},
        }
        n
    }

    /// The number of registers that back no slot.
    pub fn vacant_number(&self) -> (n: usize)
        requires
            self@.xmm.len() == 14,
        ensures
            n == self@.vacant_count(),
    {
        let mut n: usize = 0;
        let mut f: usize = 0;
        while f < 14
            invariant
                f <= 14,
                self@.xmm.len() == 14,
                n == self@.vacant_upto(f as int),
                n <= f,
            decreases 14 - f,
        {
            if self.xmm[f].len() == 0 {
                n += 1;
            }
            f += 1;
        }
        n
    }

    /// Gives every register up: no slot is linked afterwards.
    pub fn clear(&mut self)
        ensures
            final(self)@ == BBView::empty(
                old(self)@.slots.len(),
                old(self)@.self_class,
                old(self)@.local_num,
            ),
            final(self)@.wf(),
            final(self)@.vacant_count() == 14,
    {
        let fresh = BBContext::new(self.stack_slot.0.len(), self.self_class, self.local_num);
        *self = fresh;
        proof {
            self@.lemma_all_vacant(14);
        }
    }

    /// A copy of the list of slots that register `freg` backs.
    pub fn cloned_slots(&self, freg: u16) -> (v: Vec<SlotId>)
        requires
            freg < self@.xmm.len(),
        ensures
            v@ == self@.xmm[freg as int],
    {
        self.xmm[freg as usize].clone()
    }

    /// The slots that register `freg` backs.
    pub fn slots_of(&self, freg: u16) -> (v: &Vec<SlotId>)
        requires
            freg < self@.xmm.len(),
        ensures
            v@ == self@.xmm[freg as int],
    {
        &self.xmm[freg as usize]
    }

    /// No slot is backed by register `freg`.
    pub fn is_vacant(&self, freg: u16) -> (b: bool)
        requires
            freg < self@.xmm.len(),
        ensures
            b == (self@.xmm[freg as int].len() == 0),
    {
        self.xmm[freg as usize].len() == 0
    }
}

impl BBView {
    /// Linking a slot that was not linked keeps the context well formed.
    pub proof fn lemma_link_wf(self, reg: SlotId, mode: LinkMode)
        requires
            self.wf(),
            reg.0 < self.slots.len(),
            mode.xmm() is Some,
            mode.xmm()->0 < 14,
            self.mode(reg) is Stack,
        ensures
            self.link(reg, mode).wf(),
    {
        let f = mode.xmm()->0 as int;
        let n = self.link(reg, mode);
        assert forall|s: int| 0 <= s < n.slots.len() && (#[trigger] n.slots[s]).xmm() is Some implies {
            let g = n.slots[s].xmm()->0;
            g < 14 && s <= u16::MAX && n.xmm[g as int].contains(SlotId(s as u16))
        } by {
            let g = n.slots[s].xmm()->0;
            if s == reg.0 {
                assert(n.xmm[f][self.xmm[f].len() as int] == reg);
            } else {
                assert(self.slots[s].xmm() is Some);
                let k = choose|k: int|
                    0 <= k < self.xmm[g as int].len() && self.xmm[g as int][k] == SlotId(s as u16);
                assert(n.xmm[g as int][k] == SlotId(s as u16));
            }
        }
        assert forall|g: int, k: int| 0 <= g < 14 && 0 <= k < n.xmm[g].len() implies {
            let s = #[trigger] n.xmm[g][k];
            s.0 < n.slots.len() && n.slots[s.0 as int].xmm() == Some(g as u16)
        } by {
            if g == f && k == self.xmm[f].len() {
            } else {
                assert(n.xmm[g][k] == self.xmm[g][k]);
            }
        }
    }

    /// Unlinking a slot keeps the context well formed and leaves the slot
    /// unlinked.
    pub proof fn lemma_dealloc_wf(self, reg: SlotId)
        requires
            self.wf(),
            reg.0 < self.slots.len(),
        ensures
            self.dealloc(reg).wf(),
            self.dealloc(reg).mode(reg) is Stack,
            self.dealloc(reg).slots.len() == self.slots.len(),
    {
        broadcast use vstd::seq_lib::group_filter_ensures;

        let n = self.dealloc(reg);
        if self.mode(reg).xmm() is Some {
            let f = self.mode(reg).xmm()->0 as int;
            let pred = other_than(reg);
            assert(self.slots[reg.0 as int].xmm() is Some);
            lemma_filter_no_duplicates(self.xmm[f], pred);
            assert forall|s: int| 0 <= s < n.slots.len() && (#[trigger] n.slots[s]).xmm() is Some implies {
                let g = n.slots[s].xmm()->0;
                g < 14 && s <= u16::MAX && n.xmm[g as int].contains(SlotId(s as u16))
            } by {
                let g = n.slots[s].xmm()->0;
                assert(s != reg.0);
                assert(self.slots[s].xmm() is Some);
                if g == f {
                    self.xmm[f].lemma_filter_contains_rev(pred, SlotId(s as u16));
                }
            }
            assert forall|g: int, k: int| 0 <= g < 14 && 0 <= k < n.xmm[g].len() implies {
                let s = #[trigger] n.xmm[g][k];
                s.0 < n.slots.len() && n.slots[s.0 as int].xmm() == Some(g as u16)
            } by {
                let s = n.xmm[g][k];
                if g == f {
                    lemma_filter_subset(self.xmm[f], pred, k);
                    let k0 = choose|k0: int| 0 <= k0 < self.xmm[f].len() && self.xmm[f][k0] == s;
                    assert(self.xmm[f][k0] == s);
                } else {
                    assert(self.xmm[g][k] == s);
                    assert(self.slots[s.0 as int].xmm() == Some(g as u16));
                    assert(s != reg);
                }
            }
        }
    }

    /// Exchanging two registers keeps the context well formed.
    pub proof fn lemma_swap_wf(self, l: u16, r: u16)
        requires
            self.wf(),
            l < 14,
            r < 14,
        ensures
            self.swap(l, r).wf(),
    {
        let n = self.swap(l, r);
        let ren = |x: int|
            if x == l {
                r as int
            } else if x == r {
                l as int
            } else {
                x
            };
        assert forall|g: int| 0 <= g < 14 implies #[trigger] n.xmm[g] == self.xmm[ren(g)] by {}
        assert forall|s: int| 0 <= s < n.slots.len() && (#[trigger] n.slots[s]).xmm() is Some implies {
            let g = n.slots[s].xmm()->0;
            g < 14 && s <= u16::MAX && n.xmm[g as int].contains(SlotId(s as u16))
        } by {
            assert(self.slots[s].xmm() is Some);
            let g0 = self.slots[s].xmm()->0 as int;
            let g = n.slots[s].xmm()->0 as int;
            assert(g == ren(g0));
            assert(n.xmm[g] == self.xmm[ren(g)]);
        }
        assert forall|g: int, k: int| 0 <= g < 14 && 0 <= k < n.xmm[g].len() implies {
            let s = #[trigger] n.xmm[g][k];
            s.0 < n.slots.len() && n.slots[s.0 as int].xmm() == Some(g as u16)
        } by {
            assert(n.xmm[g] == self.xmm[ren(g)]);
            let s = self.xmm[ren(g)][k];
            assert(self.slots[s.0 as int].xmm() == Some(ren(g) as u16));
        }
    }

    /// Writing a slot back keeps the context well formed.
    pub proof fn lemma_written_back_wf(self, reg: SlotId)
        requires
            self.wf(),
            reg.0 < self.slots.len(),
        ensures
            self.written_back(reg).wf(),
            !self.written_back(reg).stale(reg),
            self.written_back(reg).slots.len() == self.slots.len(),
    {
        let n = self.written_back(reg);
        assert forall|s: int| 0 <= s < n.slots.len() && (#[trigger] n.slots[s]).xmm() is Some implies {
            let g = n.slots[s].xmm()->0;
            g < 14 && s <= u16::MAX && n.xmm[g as int].contains(SlotId(s as u16))
        } by {
            assert(self.slots[s].xmm() is Some);
        }
        assert forall|g: int, k: int| 0 <= g < 14 && 0 <= k < n.xmm[g].len() implies {
            let s = #[trigger] n.xmm[g][k];
            s.0 < n.slots.len() && n.slots[s.0 as int].xmm() == Some(g as u16)
        } by {
            let s = self.xmm[g][k];
            assert(self.slots[s.0 as int].xmm() == Some(g as u16));
        }
    }

    /// Changing the mode of links, but not their registers, keeps the context
    /// well formed and the registers as they are.
    pub proof fn lemma_modes_wf(self, other: BBView)
        requires
            self.wf(),
            other.xmm == self.xmm,
            other.slots.len() == self.slots.len(),
            forall|i: int| 0 <= i < self.slots.len() ==> (#[trigger] other.slots[i]).xmm() == self.slots[i].xmm(),
        ensures
            other.wf(),
            other.vacant_count() == self.vacant_count(),
            other.same_links_but(self, -1),
    {
        assert forall|s: int| 0 <= s < other.slots.len() && (#[trigger] other.slots[s]).xmm() is Some implies {
            let g = other.slots[s].xmm()->0;
            g < 14 && s <= u16::MAX && other.xmm[g as int].contains(SlotId(s as u16))
        } by {
            assert(self.slots[s].xmm() is Some);
        }
        assert forall|g: int, k: int| 0 <= g < 14 && 0 <= k < other.xmm[g].len() implies {
            let s = #[trigger] other.xmm[g][k];
            s.0 < other.slots.len() && other.slots[s.0 as int].xmm() == Some(g as u16)
        } by {
            let s = self.xmm[g][k];
            assert(self.slots[s.0 as int].xmm() == Some(g as u16));
        }
        self.lemma_vacant_upto(other, 14, -1);
    }

    /// What `vacant_from` finds: the least vacant register from `k` on.
    pub proof fn lemma_vacant_from(self, k: int)
        requires
            0 <= k <= 14,
        ensures
            k <= self.vacant_from(k) <= 14,
            self.vacant_from(k) < 14 ==> self.xmm[self.vacant_from(k)].len() == 0,
            forall|g: int| k <= g < self.vacant_from(k) ==> (#[trigger] self.xmm[g]).len() > 0,
        decreases 14 - k,
    {
        if k < 14 && self.xmm[k].len() != 0 {
            self.lemma_vacant_from(k + 1);
        }
    }

    /// Registers that differ in no more than one place differ in their
    /// number of vacant ones by no more than one.
    pub proof fn lemma_vacant_upto(self, other: BBView, n: int, f: int)
        requires
            0 <= n <= 14,
            self.xmm.len() == 14,
            other.xmm.len() == 14,
            forall|g: int| 0 <= g < 14 && g != f ==> (self.xmm[g].len() == 0) == (other.xmm[g].len() == 0),
        ensures
            f < 0 || f >= n ==> other.vacant_upto(n) == self.vacant_upto(n),
            0 <= f < n ==> other.vacant_upto(n) == self.vacant_upto(n) + (if other.xmm[f].len() == 0 {
                1int
            } else {
                0int
            }) - (if self.xmm[f].len() == 0 {
                1int
            } else {
                0int
            }),
        decreases n,
    {
        if n > 0 {
            self.lemma_vacant_upto(other, n - 1, f);
        }
    }

    /// Where a register is vacant the count of vacant registers is positive,
    /// and the other way round.
    pub proof fn lemma_vacant_count(self)
        requires
            self.xmm.len() == 14,
        ensures
            0 <= self.vacant_count() <= 14,
            self.vacant_count() >= 1 <==> self.vacant() < 14,
    {
        self.lemma_vacant_from(0);
        self.lemma_count_bounds(14);
        if self.vacant() < 14 {
            self.lemma_count_pos(14, self.vacant());
        } else {
            self.lemma_count_zero(14);
        }
    }

    proof fn lemma_count_bounds(self, n: int)
        requires
            0 <= n <= 14,
        ensures
            0 <= self.vacant_upto(n) <= n,
        decreases n,
    {
        if n > 0 {
            self.lemma_count_bounds(n - 1);
        }
    }

    proof fn lemma_count_pos(self, n: int, f: int)
        requires
            0 <= f < n <= 14,
            self.xmm[f].len() == 0,
        ensures
            self.vacant_upto(n) >= 1,
        decreases n,
    {
        self.lemma_count_bounds(n - 1);
        if f < n - 1 {
            self.lemma_count_pos(n - 1, f);
        }
    }

    proof fn lemma_count_zero(self, n: int)
        requires
            0 <= n <= 14,
            forall|g: int| 0 <= g < n ==> (#[trigger] self.xmm[g]).len() > 0,
        ensures
            self.vacant_upto(n) == 0,
        decreases n,
    {
        if n > 0 {
            self.lemma_count_zero(n - 1);
        }
    }

    /// A slot that is linked to a vacant register alone owns it; every other
    /// slot owns what it owned.
    pub proof fn lemma_link_fresh(self, reg: SlotId, mode: LinkMode)
        requires
            self.wf(),
            reg.0 < self.slots.len(),
            self.mode(reg) is Stack,
            mode.xmm() is Some,
            mode.xmm()->0 < 14,
            self.xmm[mode.xmm()->0 as int].len() == 0,
        ensures
            self.link(reg, mode).sole_owner(reg),
            self.link(reg, mode).keeps_owners(self),
    {
        let n = self.link(reg, mode);
        let f = mode.xmm()->0 as int;
        assert(n.xmm[f] =~= seq![reg]);
        assert forall|s: SlotId| s.0 < self.slots.len() && self.sole_owner(s) implies #[trigger] n.sole_owner(s) by {
            assert(s != reg);
            let g = self.mode(s).xmm()->0 as int;
            assert(self.slots[s.0 as int].xmm() is Some);
            assert(g != f);
        }
    }

    /// Where there was room for reading `a` and `b` and writing `ret`, a
    /// register can be found for writing `ret` once `a` and `b` are read.
    pub proof fn lemma_can_write(self, before: BBView, ret: SlotId, a: SlotId, b: SlotId)
        requires
            self.wf(),
            before.wf(),
            self.slots.len() == before.slots.len(),
            ret.0 < self.slots.len(),
            a.0 < self.slots.len(),
            b.0 < self.slots.len(),
            self.keeps_owners(before),
            before.mode(a) is Stack ==> self.sole_owner(a),
            before.mode(b) is Stack ==> self.sole_owner(b),
            self.vacant_count() >= before.vacant_count() - before.need_reads(a, b),
            before.vacant_count() >= before.need_reads(a, b) + before.need_write(ret, a, b),
        ensures
            self.can_write(ret),
    {
        if before.need_write(ret, a, b) == 1 {
            self.lemma_vacant_steps(ret, LinkMode::Stack, 0, 0);
        } else {
            assert(self.sole_owner(ret));
            self.lemma_sole_owner(ret);
            self.lemma_vacant_count();
        }
    }

    /// Unlinking a slot that alone owns its register leaves one more
    /// register vacant.
    pub proof fn lemma_sole_owner(self, reg: SlotId)
        requires
            self.wf(),
            reg.0 < self.slots.len(),
        ensures
            self.sole_owner(reg) ==> self.dealloc(reg).vacant_count() == self.vacant_count() + 1,
    {
        broadcast use vstd::seq_lib::group_filter_ensures;

        if self.sole_owner(reg) {
            let f = self.mode(reg).xmm()->0 as int;
            let list = self.xmm[f];
            assert(self.slots[reg.0 as int].xmm() is Some);
            assert(list.contains(reg));
            assert(list[0] == reg);
            reveal_with_fuel(Seq::filter, 2);
            assert(list.drop_last() =~= Seq::<SlotId>::empty());
            assert(!other_than(reg)(list.last()));
            assert(list.filter(other_than(reg)).len() == 0);
            self.lemma_vacant_upto(self.dealloc(reg), 14, f);
        }
    }

    /// Linking takes at most one vacant register; unlinking, exchanging and
    /// writing back take none.
    pub proof fn lemma_vacant_steps(self, reg: SlotId, mode: LinkMode, l: u16, r: u16)
        requires
            self.wf(),
            reg.0 < self.slots.len(),
            l < 14,
            r < 14,
        ensures
            self.dealloc(reg).vacant_count() >= self.vacant_count(),
            self.written_back(reg).vacant_count() == self.vacant_count(),
            self.swap(l, r).vacant_count() == self.vacant_count(),
            mode.xmm() is Some && mode.xmm()->0 < 14 ==> self.link(reg, mode).vacant_count()
                >= self.vacant_count() - 1,
            mode.xmm() is Some && mode.xmm()->0 < 14 && self.xmm[mode.xmm()->0 as int].len() > 0
                ==> self.link(reg, mode).vacant_count() == self.vacant_count(),
    {
        match self.mode(reg).xmm() {
            Some(f) => {
                self.lemma_vacant_upto(self.dealloc(reg), 14, f as int);
                self.xmm[f as int].lemma_filter_len(other_than(reg));
            },
            None => {},
        }
        self.lemma_vacant_upto(self.written_back(reg), 14, -1);
        if mode.xmm() is Some && mode.xmm()->0 < 14 {
            self.lemma_vacant_upto(self.link(reg, mode), 14, mode.xmm()->0 as int);
        }
        let s = self.swap(l, r);
        if l == r {
            assert(s.xmm =~= self.xmm);
            self.lemma_vacant_upto(s, 14, -1);
        } else {
            let mid = BBView { xmm: self.xmm.update(l as int, self.xmm[r as int]), ..self };
            self.lemma_vacant_upto(mid, 14, l as int);
            mid.lemma_vacant_upto(s, 14, r as int);
        }
    }

    /// Where no register below `n` backs a slot, all of them are vacant.
    pub proof fn lemma_all_vacant(self, n: int)
        requires
            0 <= n <= 14,
            forall|g: int| 0 <= g < n ==> (#[trigger] self.xmm[g]).len() == 0,
        ensures
            self.vacant_upto(n) == n,
        decreases n,
    {
        if n > 0 {
            self.lemma_all_vacant(n - 1);
        }
    }

    /// The empty context is well formed.
    pub proof fn lemma_empty_wf(reg_num: nat, self_class: ClassId, local_num: usize)
        ensures
            BBView::empty(reg_num, self_class, local_num).wf(),
    {
    }
}

impl Clone for BBContext {
    fn clone(&self) -> (r: BBContext)
        ensures
            r@ == self@,
    {
        let mut xmm: Vec<Vec<SlotId>> = Vec::new();
        let mut f: usize = 0;
        while f < self.xmm.len()
            invariant
                f <= self.xmm.len(),
                xmm.len() == f,
                forall|k: int| 0 <= k < f ==> xmm@[k]@ == self.xmm@[k]@,
            decreases self.xmm.len() - f,
        {
            xmm.push(self.xmm[f].clone());
            f += 1;
        }
        let r = BBContext {
            stack_slot: self.stack_slot.clone(),
            xmm,
            self_class: self.self_class,
            local_num: self.local_num,
        };
        assert(r@ =~~= self@);
        r
    }
}

impl BBContext {
    /// The context that a slot table stands for.
    pub fn from(slot_info: &StackSlotInfo, self_class: ClassId, local_num: usize) -> (ctx: BBContext)
        requires
            slot_info.0.len() <= 0x1_0000,
            forall|i: int|
                0 <= i < slot_info.0.len() && (#[trigger] slot_info.0@[i]).xmm() is Some
                    ==> slot_info.0@[i].xmm()->0 < 14,
        ensures
            ctx@ == BBView::from_slots(slot_info.0@, self_class, local_num),
            ctx@.slots == slot_info.0@,
            ctx@.wf(),
    {
        let n = slot_info.0.len();
        let mut ctx = BBContext::new(n, self_class, local_num);
        let mut i: usize = 0;
        while i < n
            invariant
                i <= n,
                n == slot_info.0.len(),
                n <= 0x1_0000,
                forall|i: int|
                    0 <= i < slot_info.0.len() && (#[trigger] slot_info.0@[i]).xmm() is Some
                        ==> slot_info.0@[i].xmm()->0 < 14,
                ctx@ == BBView::from_slots_upto(slot_info.0@, i as int, self_class, local_num),
                ctx@.wf(),
                ctx@.slots.len() == n,
                forall|k: int| 0 <= k < i ==> ctx@.slots[k] == slot_info.0@[k],
                forall|k: int| i <= k < n ==> ctx@.slots[k] == LinkMode::Stack,
            decreases n - i,
        {
            let reg = SlotId(i as u16);
            let mode = slot_info.0[i];
            proof {
                if !(mode is Stack) {
                    ctx@.lemma_link_wf(reg, mode);
                }
            }
            match mode {
                LinkMode::Stack => {},
                LinkMode::XmmR(x) => {
                    ctx.link_r_xmm(reg, x);
                },
                LinkMode::XmmRW(x) => {
                    ctx.link_rw_xmm(reg, x);
                },
            }
            i += 1;
        }
        assert(ctx@.slots =~= slot_info.0@);
        ctx
    }

    /// Unlinks each of the slots in `unused`.
    pub fn remove_unused(&mut self, unused: &Vec<SlotId>)
        requires
            old(self)@.wf(),
            forall|i: int| 0 <= i < unused.len() ==> (#[trigger] unused@[i]).0 < old(self)@.slots.len(),
        ensures
            final(self)@ == old(self)@.dealloc_all(unused@),
            final(self)@.wf(),
            final(self)@.slots.len() == old(self)@.slots.len(),
    {
        let mut i: usize = 0;
        while i < unused.len()
            invariant
                i <= unused.len(),
                self@.wf(),
                self@.slots.len() == old(self)@.slots.len(),
                forall|i: int| 0 <= i < unused.len() ==> (#[trigger] unused@[i]).0 < old(self)@.slots.len(),
                self@ == old(self)@.dealloc_all(unused@.take(i as int)),
            decreases unused.len() - i,
        {
            proof {
                assert(unused@.take(i + 1).drop_last() =~= unused@.take(i as int));
            }
            self.dealloc_xmm(unused[i]);
            i += 1;
        }
        assert(unused@.take(unused.len() as int) =~= unused@);
    }

    /// Finds a register that backs no slot: the least one.
    pub fn alloc_xmm(&self) -> (freg: u16)
        requires
            self@.xmm.len() == 14,
            self@.vacant() < 14,
        ensures
            freg == self@.vacant(),
            freg < 14,
            self@.xmm[freg as int].len() == 0,
    {
        let mut f: usize = 0;
        proof {
            self@.lemma_vacant_from(0);
        }
        while f < 14
            invariant
                f <= 14,
                self@.xmm.len() == 14,
                self@.vacant_from(f as int) == self@.vacant(),
                self@.vacant() < 14,
            decreases 14 - f,
        {
            if self.xmm[f].len() == 0 {
                return f as u16;
            }
            f += 1;
        }
        proof {
            self@.lemma_vacant_from(14);
        }
        0
    }

    /// Links `reg` to register `freg` for reading and writing.
    pub fn link_rw_xmm(&mut self, reg: SlotId, freg: u16)
        requires
            reg.0 < old(self)@.slots.len(),
            freg < old(self)@.xmm.len(),
        ensures
            final(self)@ == old(self)@.link(reg, LinkMode::XmmRW(freg)),
    {
        self.stack_slot.0.set(reg.0 as usize, LinkMode::XmmRW(freg));
        self.xmm[freg as usize].push(reg);
        assert(self@ =~~= old(self)@.link(reg, LinkMode::XmmRW(freg)));
    }

    /// Links `reg` to register `freg` for reading.
    pub fn link_r_xmm(&mut self, reg: SlotId, freg: u16)
        requires
            reg.0 < old(self)@.slots.len(),
            freg < old(self)@.xmm.len(),
        ensures
            final(self)@ == old(self)@.link(reg, LinkMode::XmmR(freg)),
    {
        self.stack_slot.0.set(reg.0 as usize, LinkMode::XmmR(freg));
        self.xmm[freg as usize].push(reg);
        assert(self@ =~~= old(self)@.link(reg, LinkMode::XmmR(freg)));
    }

    /// Unlinks `reg` from the register that backs it, if any.
    pub fn dealloc_xmm(&mut self, reg: SlotId)
        requires
            old(self)@.wf(),
            reg.0 < old(self)@.slots.len(),
        ensures
            final(self)@ == old(self)@.dealloc(reg),
            final(self)@.wf(),
            final(self)@.mode(reg) is Stack,
            final(self)@.slots.len() == old(self)@.slots.len(),
            final(self)@.vacant_count() >= old(self)@.vacant_count(),
    {
        proof {
            old(self)@.lemma_dealloc_wf(reg);
            old(self)@.lemma_vacant_steps(reg, LinkMode::Stack, 0, 0);
        }
        match self.stack_slot.0[reg.0 as usize] {
            LinkMode::XmmR(freg) | LinkMode::XmmRW(freg) => {
                let v = without(&self.xmm[freg as usize], reg);
                self.xmm.set(freg as usize, v);
                self.stack_slot.0.set(reg.0 as usize, LinkMode::Stack);
                assert(self@ =~~= old(self)@.dealloc(reg));
            },
            LinkMode::Stack => {},
        }
    }

    /// Exchanges the roles of registers `l` and `r`.
    pub fn xmm_swap(&mut self, l: u16, r: u16)
        requires
            old(self)@.wf(),
            l < 14,
            r < 14,
        ensures
            final(self)@ == old(self)@.swap(l, r),
            final(self)@.wf(),
            final(self)@.slots.len() == old(self)@.slots.len(),
    {
        proof {
            old(self)@.lemma_swap_wf(l, r);
        }
        let a = self.xmm[l as usize].clone();
        let b = self.xmm[r as usize].clone();
        self.xmm.set(l as usize, b);
        self.xmm.set(r as usize, a);
        let n = self.stack_slot.0.len();
        let mut i: usize = 0;
        while i < n
            invariant
                i <= n,
                n == self.stack_slot.0.len(),
                n == old(self).stack_slot.0.len(),
                self.self_class == old(self).self_class,
                self.local_num == old(self).local_num,
                self@.xmm == old(self)@.swap(l, r).xmm,
                forall|k: int| 0 <= k < i ==> self.stack_slot.0@[k] == BBView::swap_mode(old(self).stack_slot.0@[k], l, r),
                forall|k: int| i <= k < n ==> self.stack_slot.0@[k] == old(self).stack_slot.0@[k],
            decreases n - i,
        {
            let m = match self.stack_slot.0[i] {
                LinkMode::XmmR(x) => LinkMode::XmmR(
                    if x == l {
                        r
                    } else if x == r {
                        l
                    } else {
                        x
                    },
                ),
                LinkMode::XmmRW(x) => LinkMode::XmmRW(
                    if x == l {
                        r
                    } else if x == r {
                        l
                    } else {
                        x
                    },
                ),
                LinkMode::Stack => LinkMode::Stack,
            };
            self.stack_slot.0.set(i, m);
            i += 1;
        }
        assert(self@ =~~= old(self)@.swap(l, r));
    }

    /// Finds a register for writing a float to `reg` and links it.  A slot
    /// that alone owns a writable register keeps it.  Afterwards the slot
    /// alone is listed under the register, so that a write reaches no other
    /// slot; every other slot keeps its mode.
    pub fn xmm_write(&mut self, reg: SlotId) -> (freg: u16)
        requires
            old(self)@.wf(),
            reg.0 < old(self)@.slots.len(),
            old(self)@.can_write(reg),
        ensures
            final(self)@ == old(self)@.xmm_write(reg).0,
            freg == old(self)@.xmm_write(reg).1,
            freg < 14,
            final(self)@.wf(),
            final(self)@.mode(reg) == LinkMode::XmmRW(freg),
            final(self)@.slots.len() == old(self)@.slots.len(),
            final(self)@.vacant_count() >= old(self)@.vacant_count() - 1,
            final(self)@.sole_owner(reg),
            final(self)@.xmm[freg as int] == seq![reg],
            forall|s: int|
                0 <= s < old(self)@.slots.len() && s != reg.0 ==> final(self)@.slots[s] == old(self)@.slots[s],
            old(self)@.sole_owner(reg) ==> final(self)@.vacant_count() >= old(self)@.vacant_count(),
    {
        if let LinkMode::XmmRW(freg) = self.stack_slot.0[reg.0 as usize] {
            if self.xmm[freg as usize].len() == 1 {
                proof {
                    assert(self@.slots[reg.0 as int].xmm() is Some);
                    assert(self@.xmm[freg as int].contains(reg));
                    assert(self@.xmm[freg as int] =~= seq![reg]);
                }
                return freg;
            }
        }
        proof {
            old(self)@.lemma_sole_owner(reg);
        }
        self.dealloc_xmm(reg);
        proof {
            self@.lemma_vacant_count();
        }
        let freg = self.alloc_xmm();
        proof {
            self@.lemma_link_wf(reg, LinkMode::XmmRW(freg));
            self@.lemma_vacant_steps(reg, LinkMode::XmmRW(freg), 0, 0);
        }
        self.link_rw_xmm(reg, freg);
        assert(self@.xmm[freg as int] =~= seq![reg]);
        freg
    }

    /// Finds a register for a read-only copy of the unlinked slot `reg` and
    /// links it.
    pub fn alloc_xmm_read(&mut self, reg: SlotId) -> (freg: u16)
        requires
            old(self)@.wf(),
            reg.0 < old(self)@.slots.len(),
            old(self)@.mode(reg) is Stack,
            old(self)@.vacant_count() >= 1,
        ensures
            freg == old(self)@.vacant(),
            freg < 14,
            final(self)@ == old(self)@.link(reg, LinkMode::XmmR(freg)),
            final(self)@.wf(),
            final(self)@.slots.len() == old(self)@.slots.len(),
            final(self)@.vacant_count() >= old(self)@.vacant_count() - 1,
    {
        proof {
            self@.lemma_vacant_count();
        }
        let freg = self.alloc_xmm();
        proof {
            self@.lemma_link_wf(reg, LinkMode::XmmR(freg));
            self@.lemma_vacant_steps(reg, LinkMode::XmmR(freg), 0, 0);
        }
        self.link_r_xmm(reg, freg);
        freg
    }

    /// Marks `reg` as written back: a writable link becomes read-only.
    pub fn set_written_back(&mut self, reg: SlotId)
        requires
            old(self)@.wf(),
            reg.0 < old(self)@.slots.len(),
        ensures
            final(self)@ == old(self)@.written_back(reg),
            final(self)@.wf(),
            final(self)@.slots.len() == old(self)@.slots.len(),
    {
        proof {
            old(self)@.lemma_written_back_wf(reg);
        }
        if let LinkMode::XmmRW(freg) = self.stack_slot.0[reg.0 as usize] {
            self.stack_slot.0.set(reg.0 as usize, LinkMode::XmmR(freg));
            assert(self@ =~~= old(self)@.written_back(reg));
        }
    }

    /// Makes every link to register `freg` read-only.
    pub fn demote(&mut self, freg: u16)
        requires
            old(self)@.wf(),
        ensures
            final(self)@ == old(self)@.demote(freg),
            final(self)@.wf(),
            final(self)@.slots.len() == old(self)@.slots.len(),
            final(self)@.vacant_count() == old(self)@.vacant_count(),
            final(self)@.same_links_but(old(self)@, -1),
    {
        let n = self.stack_slot.0.len();
        let mut i: usize = 0;
        while i < n
            invariant
                i <= n,
                n == old(self).stack_slot.0.len(),
                n == self.stack_slot.0.len(),
                self.xmm == old(self).xmm,
                self.self_class == old(self).self_class,
                self.local_num == old(self).local_num,
                forall|k: int| 0 <= k < i ==> self.stack_slot.0@[k] == old(self)@.demote(freg).slots[k],
                forall|k: int| i <= k < n ==> self.stack_slot.0@[k] == old(self).stack_slot.0@[k],
            decreases n - i,
        {
            let m = match self.stack_slot.0[i] {
                LinkMode::XmmRW(f) => if f == freg {
                    LinkMode::XmmR(f)
                } else {
                    LinkMode::XmmRW(f)
                },
                m => m,
            };
            self.stack_slot.0.set(i, m);
            i += 1;
        }
        assert(self@ =~~= old(self)@.demote(freg));
        proof {
            old(self)@.lemma_modes_wf(self@);
        }
    }

    /// Replaces the mode of a linked slot by another mode with the same
    /// register.
    pub fn set_mode(&mut self, reg: SlotId, mode: LinkMode)
        requires
            old(self)@.wf(),
            reg.0 < old(self)@.slots.len(),
            mode.xmm() == old(self)@.mode(reg).xmm(),
        ensures
            final(self)@ == old(self)@.set_mode(reg, mode),
            final(self)@.wf(),
            final(self)@.slots.len() == old(self)@.slots.len(),
            final(self)@.vacant_count() == old(self)@.vacant_count(),
            final(self)@.same_links_but(old(self)@, -1),
    {
        self.stack_slot.0.set(reg.0 as usize, mode);
        assert(self@ =~~= old(self)@.set_mode(reg, mode));
        proof {
            old(self)@.lemma_modes_wf(self@);
        }
    }

    /// The stale slots among those that register `f` backs.
    fn stale_slots(&self, f: usize, locals_only: bool) -> (r: Vec<SlotId>)
        requires
            self@.wf(),
            f < 14,
        ensures
            r@ == if locals_only {
                self@.stale_locals_of(f as int)
            } else {
                self@.stale_of(f as int)
            },
    {
        let v = &self.xmm[f];
        let mut r: Vec<SlotId> = Vec::new();
        let mut i: usize = 0;
        let ghost pred = if locals_only {
            self@.stale_local_pred()
        } else {
            self@.stale_pred()
        };
        assert(v@.take(0).filter(pred) =~= Seq::<SlotId>::empty());
        while i < v.len()
            invariant
                i <= v.len(),
                self@.wf(),
                f < 14,
                v@ == self@.xmm[f as int],
                pred == if locals_only {
                    self@.stale_local_pred()
                } else {
                    self@.stale_pred()
                },
                r@ == v@.take(i as int).filter(pred),
            decreases v.len() - i,
        {
            proof {
                assert(v@.take(i + 1) =~= v@.take(i as int).push(v@[i as int]));
                v@.take(i as int).lemma_filter_push(v@[i as int], pred);
            }
            let s = v[i];
            assert(s == self@.xmm[f as int][i as int]);
            let rw = match self.stack_slot.0[s.0 as usize] {
                LinkMode::XmmRW(_) => true,
                _ => false,
            };
            if rw && (!locals_only || s.0 as usize <= self.local_num) {
                r.push(s);
            }
            i += 1;
        }
        assert(v@.take(v.len() as int) =~= v@);
        r
    }

    /// The write-back steps that make every stack slot current: for each
    /// register in order, the stale slots it backs.
    pub fn get_write_back(&self) -> (wb: Vec<(u16, Vec<SlotId>)>)
        requires
            self@.wf(),
        ensures
            wb_view(wb@) == self@.write_back(),
    {
        let mut wb: Vec<(u16, Vec<SlotId>)> = Vec::new();
        let mut f: usize = 0;
        assert(wb_view(wb@) =~= self@.write_back_upto(0));
        while f < 14
            invariant
                f <= 14,
                self@.wf(),
                wb_view(wb@) == self@.write_back_upto(f as int),
            decreases 14 - f,
        {
            let v = self.stale_slots(f, false);
            if v.len() > 0 {
                let ghost prev = wb@;
                wb.push((f as u16, v));
                assert(wb_view(wb@) =~= wb_view(prev).push((f as u16, v@)));
            }
            f += 1;
        }
        wb
    }

    /// The write-back steps for the stale local variables.
    pub fn get_locals_write_back(&self) -> (wb: Vec<(u16, Vec<SlotId>)>)
        requires
            self@.wf(),
        ensures
            wb_view(wb@) == self@.locals_write_back_upto(14),
    {
        let mut wb: Vec<(u16, Vec<SlotId>)> = Vec::new();
        let mut f: usize = 0;
        assert(wb_view(wb@) =~= self@.locals_write_back_upto(0));
        while f < 14
            invariant
                f <= 14,
                self@.wf(),
                wb_view(wb@) == self@.locals_write_back_upto(f as int),
            decreases 14 - f,
        {
            let v = self.stale_slots(f, true);
            if v.len() > 0 {
                let ghost prev = wb@;
                wb.push((f as u16, v));
                assert(wb_view(wb@) =~= wb_view(prev).push((f as u16, v@)));
            }
            f += 1;
        }
        wb
    }

    /// Unlinks every local variable.
    pub fn dealloc_locals(&mut self)
        requires
            old(self)@.wf(),
            old(self)@.local_num < old(self)@.slots.len(),
            old(self)@.local_num < 0xffff,
        ensures
            final(self)@ == old(self)@.dealloc_all(BBView::locals(old(self)@.local_num as int)),
            final(self)@.wf(),
            final(self)@.slots.len() == old(self)@.slots.len(),
    {
        let n = self.local_num;
        let ghost all = BBView::locals(n as int);
        let mut i: usize = 0;
        while i < n
            invariant
                i <= n,
                n == old(self)@.local_num,
                n < old(self)@.slots.len(),
                n < 0xffff,
                all == BBView::locals(n as int),
                self@.wf(),
                self@.slots.len() == old(self)@.slots.len(),
                self@ == old(self)@.dealloc_all(all.take(i as int)),
            decreases n - i,
        {
            proof {
                assert(all.take(i + 1).drop_last() =~= all.take(i as int));
                assert(all.take(i + 1).last() == SlotId((i + 1) as u16));
            }
            self.dealloc_xmm(SlotId((i + 1) as u16));
            i += 1;
        }
        assert(all.take(n as int) =~= all);
    }

    /// The registers that back a slot, in order.
    pub fn get_xmm_using(&self) -> (v: Vec<usize>)
        requires
            self@.xmm.len() == 14,
        ensures
            v@ == self@.using(),
    {
        let mut v: Vec<usize> = Vec::new();
        let mut f: usize = 0;
        while f < 14
            invariant
                f <= 14,
                self@.xmm.len() == 14,
                v@ == self@.using_upto(f as int),
            decreases 14 - f,
        {
            if self.xmm[f].len() > 0 {
                v.push(f);
            }
            f += 1;
        }
        v
    }
}

} // verus!
