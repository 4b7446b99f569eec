use lpus::mask::BitMask;
use lpus::paging::{
    descend, list_all_pml4e, list_all_pte, scan_injected_pages, scan_rwx_pages, MMPFN, PageState,
    PfnDatabase, Pte, PteError, PteLayout, PteProtection,
};
use std::collections::HashMap;

fn bits(pos: u64, len: u64) -> BitMask {
    BitMask { pos, len }
}

fn layout() -> PteLayout {
    PteLayout {
        hw_valid: bits(0, 1),
        hw_pfn: bits(12, 36),
        hw_no_execute: bits(63, 1),
        hw_write: bits(1, 1),
        hw_copy_on_write: bits(9, 1),
        hw_large_page: bits(7, 1),
        proto_flag: bits(10, 1),
        proto_address: bits(16, 48),
        proto_protection: bits(5, 5),
        trans_flag: bits(11, 1),
        trans_pfn: bits(12, 36),
        trans_protection: bits(5, 5),
        soft_protection: bits(5, 5),
        soft_pagefile_high: bits(32, 32),
        subsection_protection: bits(5, 5),
    }
}

fn no_read(_a: u64) -> u64 {
    panic!("unexpected read")
}

#[test]
fn classifier_states_of_raw_entries() {
    let l = layout();
    let proto = Pte::from_value(&l, 0x8000_0000_0000_0420);
    assert_eq!(proto.state, PageState::Prototype);
    let hw = Pte::from_value(&l, 0x0000_0000_AAAA_A067);
    assert_eq!(hw.state, PageState::Hardware);
    assert_eq!(hw.get_pfn(&l), Ok(0xAAAAA));
    assert!(hw.is_writable(&l, &no_read));
    assert!(hw.is_executable(&l, &no_read));
    let trans = Pte::from_value(&l, 0x0000_0000_0000_0800);
    assert_eq!(trans.state, PageState::Transition);
}

#[test]
fn valid_bit_takes_precedence() {
    let l = layout();
    let p = Pte::from_value(&l, 0x8000_0000_0000_0025);
    assert_eq!(p.state, PageState::Hardware);
    assert!(!p.is_executable(&l, &no_read));
}

#[test]
fn exactly_one_state_per_value() {
    let l = layout();
    for v in [0u64, 1, 0x400, 0x800, 0xC00, 0x401, 0xFFFF_FFFF_FFFF_FFFF, 0x1_0000_0000] {
        let p = Pte::from_value(&l, v);
        let states = [PageState::Hardware, PageState::Transition, PageState::Prototype, PageState::Pagefile];
        assert_eq!(states.iter().filter(|s| **s == p.state).count(), 1);
    }
    assert_eq!(Pte::from_value(&l, 0xC00).state, PageState::Prototype);
    assert_eq!(Pte::from_value(&l, 0x1_0000_0000).state, PageState::Pagefile);
}

#[test]
fn pfn_only_for_hardware_and_transition() {
    let l = layout();
    let t = Pte::from_value(&l, 0x1234_5800);
    assert_eq!(t.get_pfn(&l), Ok(0x12345));
    let p = Pte::from_value(&l, 0x400);
    assert_eq!(p.get_pfn(&l), Err(PteError::NoPageFrame));
    let f = Pte::from_value(&l, 0);
    assert_eq!(f.get_pfn(&l), Err(PteError::NoPageFrame));
}

#[test]
fn protection_classes() {
    assert!(PteProtection::from_protection(6).is_executable());
    assert!(PteProtection::from_protection(6).is_writable());
    assert!(!PteProtection::from_protection(1).is_writable());
    assert!(!PteProtection::from_protection(4).is_executable());
    assert!(PteProtection::from_protection(0x1A).is_executable());
    assert_eq!(PteProtection::from_protection(0x1F), PteProtection::MmExecuteWritecopy);
}

#[test]
fn software_entries_decode_protection() {
    let l = layout();
    let trans = Pte::from_value(&l, 0x800 | (6 << 5));
    assert!(trans.is_executable(&l, &no_read));
    assert!(trans.is_writable(&l, &no_read));
    let paged = Pte::from_value(&l, (1u64 << 32) | (2 << 5));
    assert!(paged.is_executable(&l, &no_read));
    assert!(!paged.is_writable(&l, &no_read));
    let unknown = Pte::from_value(&l, 2 << 5);
    assert!(!unknown.is_executable(&l, &no_read));
}

#[test]
fn prototype_entries_follow_one_hop() {
    let l = layout();
    let vad = Pte::from_value(&l, (0xFFFF_FFFF_0000u64 << 16) | 0x400 | (4 << 5));
    assert!(vad.is_writable(&l, &no_read));
    let local = Pte::from_value(&l, (0x5000u64 << 16) | 0x400 | (3 << 5));
    assert!(local.is_executable(&l, &no_read));
    let chased = Pte::from_value(&l, (0x5000u64 << 16) | 0x400);
    let target_hw = |a: u64| if a == 0x5000 { 0x1003 } else { panic!("bad read") };
    assert!(chased.is_writable(&l, &target_hw));
    assert!(chased.is_executable(&l, &target_hw));
    let target_sub = |a: u64| if a == 0x5000 { 0x400 | (5 << 5) } else { panic!("bad read") };
    assert!(chased.is_writable(&l, &target_sub));
    assert!(!chased.is_executable(&l, &target_sub));
}

#[test]
fn large_page_is_its_own_leaf() {
    let l = layout();
    let large = Pte::from_value_at(&l, 0x2000, 0x4000_0000 | 0x80 | 1);
    assert!(large.is_large_page(&l));
    let below = descend(&l, &large, false, &no_read);
    assert_eq!(below, vec![large]);
    let small = Pte::from_value_at(&l, 0x2000, 0x3000 | 1);
    let mem = |a: u64| if a == 0x3008 { 0x7000 | 1 } else { 0 };
    let below = descend(&l, &small, false, &mem);
    assert_eq!(below.len(), 1);
    assert_eq!(below[0].address, 0x3008);
    let all = descend(&l, &small, true, &mem);
    assert_eq!(all.len(), 512);
}

fn tiny_tables() -> HashMap<u64, u64> {
    let mut m = HashMap::new();
    m.insert(0x1000, 0x2000 | 1);
    m.insert(0x2000, 0x4000_0000 | 0x80 | 1 | 2);
    m.insert(0x2008, 0x3000 | 1);
    m.insert(0x3000, 0x5000 | 0x80 | 1);
    m.insert(0x3008, 0x6000 | 1);
    m.insert(0x6000, 0x7000 | 1 | 2);
    m.insert(0x6008, 0x8000 | 1 | (1u64 << 63));
    m
}

#[test]
fn walk_collects_leaves() {
    let l = layout();
    let m = tiny_tables();
    let read = |a: u64| *m.get(&a).unwrap_or(&0);
    let top = list_all_pml4e(&l, 0x1000, &read);
    assert_eq!(top.len(), 1);
    let leaves = list_all_pte(&l, 0x1000, &read);
    assert_eq!(leaves.len(), 2 + 512);
    assert_eq!(leaves[0].address, 0x2000);
    assert_eq!(leaves[1].address, 0x3000);
    assert_eq!(leaves[2].address, 0x6000);
    let db = PfnDatabase { base: 0x10_0000, entry_size: 0x30, u4_offset: 0x28 };
    let virt = |_a: u64| 0u64;
    let rwx = scan_rwx_pages(&l, 0x1000, &db, &read, &virt);
    let rwx_addrs: Vec<u64> = rwx.iter().map(|p| p.address).collect();
    assert_eq!(rwx_addrs, vec![0x2000, 0x6000]);
    let injected = scan_injected_pages(&l, 0x1000, &db, &read, &virt);
    let inj_addrs: Vec<u64> = injected.iter().map(|p| p.address).collect();
    assert_eq!(inj_addrs, vec![0x2000, 0x3000, 0x6000]);
}

#[test]
fn pfn_database_entry_and_shared_bit() {
    let e = MMPFN::new(0x10_0000, 3, 0x30);
    assert_eq!(e.address, 0x10_0090);
    let shared = |a: u64| if a == 0x10_00B8 { 1u64 << 57 } else { 0 };
    assert!(e.is_shared_mem(0x28, &shared));
    assert!(!e.is_shared_mem(0x20, &shared));
}
