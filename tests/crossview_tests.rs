use lpus::crossview::{contains_address, cross_view};

const A: u64 = 0xffff_a000_0000_1000;
const B: u64 = 0xffff_a000_0000_2000;
const C: u64 = 0xffff_a000_0000_3000;
const H: u64 = 0xffff_a000_0000_4000;

#[test]
fn cross_view_flags_hidden_process() {
    let rows = cross_view(&vec![A, B, C, H], &vec![A, B, C], &vec![A, B, C], &vec![A, B, C, H], &vec![]);
    let addrs: Vec<u64> = rows.iter().map(|r| r.address).collect();
    assert_eq!(addrs, vec![A, B, C, H]);
    let h = rows.iter().find(|r| r.address == H).unwrap();
    assert!(h.pool_scan);
    assert!(!h.active_head);
    assert!(!h.ki_process_list);
    assert!(h.handle_table);
    assert!(!h.thread_scan);
    let a = rows.iter().find(|r| r.address == A).unwrap();
    assert!(a.pool_scan && a.active_head && a.ki_process_list && a.handle_table);
}

#[test]
fn table_covers_union_of_sources() {
    let t = 0x7777;
    let rows = cross_view(&vec![A, A], &vec![B], &vec![], &vec![C, B], &vec![t, A]);
    let mut addrs: Vec<u64> = rows.iter().map(|r| r.address).collect();
    addrs.sort();
    let mut expected = vec![A, B, C, t];
    expected.sort();
    assert_eq!(addrs, expected);
    let only_thread = rows.iter().find(|r| r.address == t).unwrap();
    assert!(only_thread.thread_scan && !only_thread.pool_scan);
}

#[test]
fn membership_test() {
    assert!(contains_address(&vec![1, 2, 3], 2));
    assert!(!contains_address(&vec![], 2));
}
