use lpus::carver::{chunk_size_of, exact_fit_object, find_object, scan_pool, PoolChunk, PoolScan};
use std::cell::RefCell;

const HEADER: u64 = 0x10;
const EPROCESS: u64 = 0x400;

#[test]
fn carve_accepts_process_chunk() {
    let end = 0x1000;
    let search = |from: u64, end: u64| if from <= 0x100 { 0x100 } else { end };
    let units = |addr: u64| if addr == 0x100 { 0x50u8 } else { 0 };
    let seen = RefCell::new(Vec::new());
    let handler = |c: PoolChunk| {
        seen.borrow_mut().push(c);
        let object_at = c.pool_addr + 0x80;
        let probe = |a: u64| a == object_at;
        find_object(c, EPROCESS, &probe).is_some()
    };
    let accepted = scan_pool(0, end, HEADER, EPROCESS, &search, &units, &handler);
    let calls = seen.borrow();
    assert_eq!(calls.len(), 1);
    assert_eq!(calls[0].pool_addr, 0x100);
    assert_eq!(calls[0].data_addr, 0x110);
    assert_eq!(calls[0].chunk_size, 0x500);
    assert_eq!(accepted, vec![PoolChunk { pool_addr: 0x100, chunk_size: 0x500, data_addr: 0x110 }]);

    let mut scan = PoolScan::new(0, end, HEADER, EPROCESS);
    assert!(scan.on_hit(0x100));
    let chunk = scan.on_header(0x50).unwrap();
    scan.on_verdict(chunk, true);
    assert_eq!(scan.ptr, 0x600);
}

#[test]
fn carve_rejects_small_chunk() {
    assert_eq!(chunk_size_of(0x03), 0x30);
    let mut scan = PoolScan::new(0, 0x1000, HEADER, EPROCESS);
    assert!(scan.on_hit(0x200));
    assert_eq!(scan.on_header(0x03), None);
    assert_eq!(scan.ptr, 0x204);

    let search = |from: u64, end: u64| if from <= 0x200 { 0x200 } else { end };
    let units = |_addr: u64| 0x03u8;
    let calls = RefCell::new(0u32);
    let handler = |_c: PoolChunk| {
        *calls.borrow_mut() += 1;
        true
    };
    let accepted = scan_pool(0, 0x1000, HEADER, EPROCESS, &search, &units, &handler);
    assert!(accepted.is_empty());
    assert_eq!(*calls.borrow(), 0);
}

#[test]
fn every_candidate_is_framed() {
    let end = 0x900;
    let hits = [0x100u64, 0x104, 0x300, 0x700, 0x880];
    let search = |from: u64, end: u64| *hits.iter().find(|h| **h >= from).unwrap_or(&end);
    let units = |addr: u64| match addr {
        0x100 => 0x50u8,
        0x104 => 0x10,
        0x300 => 0x41,
        0x700 => 0x50,
        _ => 0xff,
    };
    let seen = RefCell::new(Vec::new());
    let handler = |c: PoolChunk| {
        seen.borrow_mut().push(c);
        c.pool_addr != 0x100
    };
    let accepted = scan_pool(0, end, HEADER, EPROCESS, &search, &units, &handler);
    for c in seen.borrow().iter() {
        assert!(c.data_addr + EPROCESS <= c.pool_addr + c.chunk_size);
        assert!(c.pool_addr + c.chunk_size <= end);
    }
    let pools: Vec<u64> = seen.borrow().iter().map(|c| c.pool_addr).collect();
    assert_eq!(pools, vec![0x100, 0x300]);
    assert_eq!(accepted.len(), 1);
    assert_eq!(accepted[0].pool_addr, 0x300);
}

#[test]
fn sweep_position_moves_forward() {
    let mut scan = PoolScan::new(0x100, 0x2000, HEADER, EPROCESS);
    let mut last = scan.ptr;
    let hits = [0x100u64, 0x180, 0x600, 0x1ff0];
    for (i, h) in hits.iter().enumerate() {
        if !scan.on_hit(*h) {
            break;
        }
        match scan.on_header(if i == 1 { 0x60 } else { 0x01 }) {
            None => {}
            Some(c) => scan.on_verdict(c, i % 2 == 1),
        }
        assert!(scan.ptr > last || !scan.is_active());
        last = scan.ptr;
    }
}

#[test]
fn hit_outside_range_ends_sweep() {
    let mut scan = PoolScan::new(0x100, 0x200, HEADER, EPROCESS);
    assert!(!scan.on_hit(0x80));
    assert!(!scan.is_active());
    let mut scan = PoolScan::new(0x100, 0x200, HEADER, 0x20);
    assert!(scan.on_hit(0x1f0));
    assert_eq!(scan.on_header(0x04), None);
    assert!(!scan.is_active());
}

#[test]
fn object_search_stops_at_first_match() {
    let chunk = PoolChunk { pool_addr: 0x1000, chunk_size: 0x100, data_addr: 0x1010 };
    assert_eq!(find_object(chunk, 0x80, &|a: u64| a >= 0x1020), Some(0x1020));
    assert_eq!(find_object(chunk, 0x80, &|_a: u64| false), None);
    assert_eq!(find_object(chunk, 0x80, &|a: u64| a == 0x1080), Some(0x1080));
    assert_eq!(find_object(chunk, 0x80, &|a: u64| a == 0x1084), None);
}

#[test]
fn exact_fit_thread_sits_at_chunk_end() {
    let chunk = PoolChunk { pool_addr: 0x1000, chunk_size: 0x10 + 0x30 + 0x500, data_addr: 0x1010 };
    assert_eq!(exact_fit_object(chunk, 0x10, 0x30, 0x500), Some(0x1040));
    assert_eq!(exact_fit_object(chunk, 0x10, 0x30, 0x4f0), None);
}
