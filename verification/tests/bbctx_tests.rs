use monoruby::assembler::DestLabel;
use monoruby::bbctx::LinkMode::{Stack, XmmR, XmmRW};
use monoruby::bbctx::{BBContext, BranchEntry, LinkMode, StackSlotInfo};
use monoruby::ids::{ClassId, SlotId};

fn ctx(n: usize) -> BBContext {
    BBContext::new(n, ClassId(1), n.saturating_sub(1))
}

/// Both directions of the link agree.
fn sound(ctx: &BBContext) -> bool {
    let slots = &ctx.stack_slot.0;
    ctx.xmm.len() == 14
        && slots.iter().enumerate().all(|(s, m)| match m {
            LinkMode::XmmR(f) | LinkMode::XmmRW(f) => (*f as usize) < 14 && ctx.xmm[*f as usize].contains(&SlotId(s as u16)),
            LinkMode::Stack => true,
        })
        && ctx.xmm.iter().all(|v| v.iter().all(|s| v.iter().filter(|t| *t == s).count() == 1))
        && ctx.xmm.iter().enumerate().all(|(f, v)| {
            v.iter().all(|s| match slots[s.0 as usize] {
                LinkMode::XmmR(g) | LinkMode::XmmRW(g) => g as usize == f,
                LinkMode::Stack => false,
            })
        })
}

#[test]
fn a_new_context_links_nothing() {
    let c = ctx(5);
    assert_eq!(c.len(), 5);
    assert!(c.stack_slot.0.iter().all(|m| *m == LinkMode::Stack));
    assert_eq!(c.get_xmm_using(), Vec::<usize>::new());
    assert_eq!(c.get_write_back(), vec![]);
    assert_eq!(c.alloc_xmm(), 0);
    assert_eq!(c.vacant_number(), 14);
    assert!(sound(&c));
}

#[test]
fn writing_allocates_the_least_vacant_register() {
    let mut c = ctx(6);
    assert_eq!(c.xmm_write(SlotId(3)), 0);
    assert_eq!(c.xmm_write(SlotId(5)), 1);
    assert_eq!(c.mode(SlotId(3)), LinkMode::XmmRW(0));
    // a slot that alone owns its register keeps it
    assert_eq!(c.xmm_write(SlotId(3)), 0);
    assert_eq!(c.alloc_xmm_read(SlotId(1)), 2);
    assert_eq!(c.mode(SlotId(1)), LinkMode::XmmR(2));
    assert_eq!(c.get_xmm_using(), vec![0, 1, 2]);
    assert_eq!(c.get_write_back(), vec![(0, vec![SlotId(3)]), (1, vec![SlotId(5)])]);
    assert_eq!(c.vacant_number(), 11);
    c.dealloc_xmm(SlotId(3));
    assert_eq!(c.mode(SlotId(3)), LinkMode::Stack);
    assert_eq!(c.alloc_xmm(), 0);
    assert_eq!(c.get_xmm_using(), vec![1, 2]);
    assert!(sound(&c));
    // unlinking an unlinked slot changes nothing
    c.dealloc_xmm(SlotId(0));
    assert_eq!(c.get_xmm_using(), vec![1, 2]);
}

#[test]
fn aliases_share_a_register() {
    let mut c = ctx(4);
    let f = c.xmm_write(SlotId(1));
    c.link_rw_xmm(SlotId(2), f);
    assert_eq!(c.slots_of(f), &vec![SlotId(1), SlotId(2)]);
    assert_eq!(c.get_write_back(), vec![(f, vec![SlotId(1), SlotId(2)])]);
    // writing to one of two aliases takes a register of its own
    let g = c.xmm_write(SlotId(1));
    assert_ne!(f, g);
    assert_eq!(c.slots_of(f), &vec![SlotId(2)]);
    assert_eq!(c.slots_of(g), &vec![SlotId(1)]);
    assert!(sound(&c));
    c.set_written_back(SlotId(2));
    assert_eq!(c.mode(SlotId(2)), LinkMode::XmmR(f));
    assert_eq!(c.get_write_back(), vec![(g, vec![SlotId(1)])]);
    assert!(sound(&c));
}

#[test]
fn swapping_exchanges_the_roles_of_two_registers() {
    let mut c = ctx(4);
    c.link_rw_xmm(SlotId(1), 3);
    c.link_r_xmm(SlotId(2), 5);
    c.xmm_swap(3, 5);
    assert_eq!(c.mode(SlotId(1)), LinkMode::XmmRW(5));
    assert_eq!(c.mode(SlotId(2)), LinkMode::XmmR(3));
    assert_eq!(c.slots_of(5), &vec![SlotId(1)]);
    assert_eq!(c.slots_of(3), &vec![SlotId(2)]);
    assert!(sound(&c));
    c.demote(5);
    assert_eq!(c.mode(SlotId(1)), LinkMode::XmmR(5));
    c.set_mode(SlotId(1), LinkMode::XmmRW(5));
    assert_eq!(c.linked_xmm(SlotId(1)), 5);
    c.clear();
    assert_eq!(c.vacant_number(), 14);
    assert_eq!(c.len(), 4);
}

#[test]
fn the_join_of_two_slot_tables() {
    let cases = [
        (XmmR(1), XmmR(2), XmmR(1)),
        (XmmRW(1), XmmR(2), XmmR(1)),
        (XmmR(1), XmmRW(2), XmmR(1)),
        (XmmRW(1), XmmRW(2), XmmRW(1)),
        (Stack, XmmRW(2), Stack),
        (XmmRW(1), Stack, Stack),
        (XmmR(1), Stack, Stack),
        (Stack, XmmR(2), Stack),
        (Stack, Stack, Stack),
    ];
    for (l, r, join) in cases {
        assert_eq!(l.merged(r), join);
    }
    let mut left = StackSlotInfo(cases.iter().map(|c| c.0).collect());
    let right = StackSlotInfo(cases.iter().map(|c| c.1).collect());
    left.merge(&right);
    assert_eq!(left.0, cases.iter().map(|c| c.2).collect::<Vec<_>>());
    // a shorter table joins only the slots it has
    let mut left = StackSlotInfo(vec![XmmRW(1), XmmRW(2)]);
    left.merge(&StackSlotInfo(vec![XmmR(0)]));
    assert_eq!(left.0, vec![XmmR(1), XmmRW(2)]);
}

#[test]
fn the_join_of_the_edges_into_a_block() {
    let entry = |modes: Vec<LinkMode>| BranchEntry {
        src_idx: 0,
        bbctx: BBContext::from(&StackSlotInfo(modes), ClassId(1), 0),
        dest_label: DestLabel(0),
    };
    let entries = vec![
        entry(vec![XmmRW(0), XmmRW(1), XmmR(2)]),
        entry(vec![XmmRW(3), XmmR(1), XmmR(2)]),
        entry(vec![XmmRW(0), XmmRW(1), Stack]),
    ];
    assert_eq!(StackSlotInfo::merge_entries(&entries).0, vec![XmmRW(0), XmmR(1), Stack]);
    assert!(entries.iter().all(|e| sound(&e.bbctx)));
    assert_eq!(entries[0].bbctx.slots_of(1), &vec![SlotId(1)]);
}

#[test]
fn unused_slots_and_locals_are_given_up() {
    let mut c = BBContext::new(6, ClassId(1), 2);
    for s in 1..=4 {
        c.xmm_write(SlotId(s));
    }
    assert_eq!(c.get_locals_write_back(), vec![(0, vec![SlotId(1)]), (1, vec![SlotId(2)])]);
    c.dealloc_locals();
    assert_eq!(c.get_xmm_using(), vec![2, 3]);
    c.remove_unused(&vec![SlotId(3), SlotId(0)]);
    assert_eq!(c.get_xmm_using(), vec![3]);
    assert!(c.is_vacant(2));
    assert_eq!(c.cloned_slots(3), vec![SlotId(4)]);
    let copy = c.clone();
    assert_eq!(copy.stack_slot.0, c.stack_slot.0);
    assert_eq!(copy.xmm, c.xmm);
    assert!(sound(&c));
}

#[test]
fn a_slot_with_a_register_to_itself_is_written_when_no_register_is_vacant() {
    let mut c = ctx(16);
    for s in 0..14 {
        assert_eq!(c.xmm_write(SlotId(s)), s);
    }
    assert_eq!(c.vacant_number(), 0);
    // a writable register that the slot alone owns is kept
    assert_eq!(c.xmm_write(SlotId(3)), 3);
    assert_eq!(c.mode(SlotId(3)), XmmRW(3));
    // a read-only register that the slot alone owns is given up and taken
    // again
    c.set_written_back(SlotId(5));
    assert_eq!(c.mode(SlotId(5)), XmmR(5));
    assert!(c.is_sole_owner(SlotId(5)));
    assert_eq!(c.xmm_write(SlotId(5)), 5);
    assert_eq!(c.mode(SlotId(5)), XmmRW(5));
    assert_eq!(c.vacant_number(), 0);
    assert!(sound(&c));
    // what reading and writing take
    assert_eq!(c.need_number(Some(SlotId(3)), SlotId(4), SlotId(5)), 0);
    assert_eq!(c.need_number(Some(SlotId(14)), SlotId(4), SlotId(5)), 1);
    assert_eq!(c.need_number(Some(SlotId(14)), SlotId(14), SlotId(15)), 2);
    assert_eq!(c.need_number(Some(SlotId(3)), SlotId(14), SlotId(15)), 2);
    assert_eq!(c.need_number(None, SlotId(14), SlotId(14)), 1);
}
