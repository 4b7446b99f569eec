//! Cross-view comparison: the union of process addresses found by
//! independent sources, with the sources that saw each one.
use vstd::prelude::*;

verus! {

/// One row of the cross-view table.
#[derive(Clone, Copy, Debug, PartialEq, Eq, Structural)]
pub struct ProcessView {
    pub address: u64,
    /// Found by the pool-tag scan.
    pub pool_scan: bool,
    /// On the active-process list.
    pub active_head: bool,
    /// On the scheduler's process list.
    pub ki_process_list: bool,
    /// Owner of a handle table on the handle-table list.
    pub handle_table: bool,
    /// Owner of a thread found by the thread scan.
    pub thread_scan: bool,
}

/// Whether `v` holds `a`.
pub fn contains_address(v: &Vec<u64>, a: u64) -> (r: bool)
    ensures
        r == v@.contains(a),
{
    let mut i: usize = 0;
    while i < v.len()
        invariant
            i <= v@.len(),
            forall|j: int| 0 <= j < i ==> v@[j] != a,
        decreases v@.len() - i,
    {
        if v[i] == a {
            return true;
        }
        i += 1;
    }
    false
}

fn collect_unique(seen: &mut Vec<u64>, src: &Vec<u64>)
    requires
        forall|i: int, j: int| 0 <= i < j < old(seen)@.len() ==> old(seen)@[i] != old(seen)@[j],
    ensures
        forall|i: int, j: int| 0 <= i < j < final(seen)@.len() ==> final(seen)@[i] != final(seen)@[j],
        forall|x: u64| #[trigger] final(seen)@.contains(x) <==> (old(seen)@.contains(x) || src@.contains(x)),
{
    let mut k: usize = 0;
    while k < src.len()
        invariant
            k <= src@.len(),
            forall|i: int, j: int| 0 <= i < j < seen@.len() ==> seen@[i] != seen@[j],
            forall|x: u64|
                #[trigger] seen@.contains(x) <==> (old(seen)@.contains(x) || src@.take(k as int).contains(
                    x,
                )),
        decreases src@.len() - k,
    {
        let a = src[k];
        let ghost before = seen@;
        if !contains_address(seen, a) {
            seen.push(a);
        }
        proof {
            let next = src@.take(k + 1);
            assert(next =~= src@.take(k as int).push(a));
            assert forall|x: u64| #[trigger] seen@.contains(x) <==> (old(seen)@.contains(x) || next.contains(x)) by {
                assert(before.contains(x) <==> (old(seen)@.contains(x) || src@.take(k as int).contains(x)));
                if next.contains(x) && x != a {
                    let j = choose|j: int| 0 <= j < next.len() && next[j] == x;
                    assert(src@.take(k as int)[j] == x);
                }
                if src@.take(k as int).contains(x) {
                    let j = choose|j: int| 0 <= j < k && src@.take(k as int)[j] == x;
                    assert(next[j] == x);
                }
                if before.contains(x) {
                    let j = choose|j: int| 0 <= j < before.len() && before[j] == x;
                    assert(seen@[j] == x);
                }
                if seen@.contains(x) && x != a {
                    let j = choose|j: int| 0 <= j < seen@.len() && seen@[j] == x;
                    assert(before[j] == x);
                }
                if x == a {
                    assert(next[k as int] == a);
                    if !before.contains(a) {
                        assert(seen@[seen@.len() - 1] == a);
                    }
                }
            }
        }
        k += 1;
    }
    assert(src@.take(src@.len() as int) =~= src@);
}

/// The cross-view table: one row for each address that any of the five
/// sources reports (each once, in order of first appearance), with the
/// sources that report it.
pub fn cross_view(
    pool_scan: &Vec<u64>,
    active_head: &Vec<u64>,
    ki_process_list: &Vec<u64>,
    handle_table: &Vec<u64>,
    thread_owners: &Vec<u64>,
) -> (rows: Vec<ProcessView>)
    ensures
        forall|i: int, j: int| 0 <= i < j < rows@.len() ==> rows@[i].address != rows@[j].address,
        forall|i: int|
            0 <= i < rows@.len() ==> {
                let r = #[trigger] rows@[i];
                &&& r.pool_scan == pool_scan@.contains(r.address)
                &&& r.active_head == active_head@.contains(r.address)
                &&& r.ki_process_list == ki_process_list@.contains(r.address)
                &&& r.handle_table == handle_table@.contains(r.address)
                &&& r.thread_scan == thread_owners@.contains(r.address)
            },
        forall|a: u64|
            (exists|i: int| 0 <= i < rows@.len() && rows@[i].address == a) <==> (
            pool_scan@.contains(a) || active_head@.contains(a) || ki_process_list@.contains(a)
                || handle_table@.contains(a) || thread_owners@.contains(a)),
{
    let mut seen: Vec<u64> = Vec::new();
    collect_unique(&mut seen, pool_scan);
    let ghost s1 = seen@;
    collect_unique(&mut seen, active_head);
    let ghost s2 = seen@;
    collect_unique(&mut seen, ki_process_list);
    let ghost s3 = seen@;
    collect_unique(&mut seen, handle_table);
    let ghost s4 = seen@;
    collect_unique(&mut seen, thread_owners);
    proof {
        assert forall|a: u64| seen@.contains(a) <==> (pool_scan@.contains(a) || active_head@.contains(a)
            || ki_process_list@.contains(a) || handle_table@.contains(a) || thread_owners@.contains(a)) by {
            assert(!Seq::<u64>::empty().contains(a));
            assert(s1.contains(a) <==> pool_scan@.contains(a));
            assert(s2.contains(a) <==> (s1.contains(a) || active_head@.contains(a)));
            assert(s3.contains(a) <==> (s2.contains(a) || ki_process_list@.contains(a)));
            assert(s4.contains(a) <==> (s3.contains(a) || handle_table@.contains(a)));
        }
    }
    let ghost all = seen@;
    let mut rows: Vec<ProcessView> = Vec::new();
    let mut k: usize = 0;
    while k < seen.len()
        invariant
            k <= seen@.len(),
            seen@ == all,
            forall|a: u64| all.contains(a) <==> (pool_scan@.contains(a) || active_head@.contains(a)
                || ki_process_list@.contains(a) || handle_table@.contains(a) || thread_owners@.contains(a)),
            rows@.len() == k,
            forall|i: int, j: int| 0 <= i < j < seen@.len() ==> seen@[i] != seen@[j],
            forall|i: int| 0 <= i < k ==> (#[trigger] rows@[i]).address == seen@[i],
            forall|i: int|
                0 <= i < k ==> {
                    let r = #[trigger] rows@[i];
                    &&& r.pool_scan == pool_scan@.contains(r.address)
                    &&& r.active_head == active_head@.contains(r.address)
                    &&& r.ki_process_list == ki_process_list@.contains(r.address)
                    &&& r.handle_table == handle_table@.contains(r.address)
                    &&& r.thread_scan == thread_owners@.contains(r.address)
                },
        decreases seen@.len() - k,
    {
        let a = seen[k];
        rows.push(
            ProcessView {
                address: a,
                pool_scan: contains_address(pool_scan, a),
                active_head: contains_address(active_head, a),
                ki_process_list: contains_address(ki_process_list, a),
                handle_table: contains_address(handle_table, a),
                thread_scan: contains_address(thread_owners, a),
            },
        );
        k += 1;
    }
    proof {
        assert forall|a: u64|
            (exists|i: int| 0 <= i < rows@.len() && rows@[i].address == a) <==> seen@.contains(a) by {
            if seen@.contains(a) {
                let j = choose|j: int| 0 <= j < seen@.len() && seen@[j] == a;
                assert(rows@[j].address == a);
            }
            if exists|i: int| 0 <= i < rows@.len() && rows@[i].address == a {
                let i = choose|i: int| 0 <= i < rows@.len() && rows@[i].address == a;
                assert(seen@[i] == a);
            }
        }
    }
    rows
}

} // verus!
