//! Walks of the kernel's doubly-linked lists and other tables anchored at
//! kernel symbols.
use vstd::prelude::*;
use crate::address::agrees_with;

verus! {

/// Largest number of slots of the unloaded-driver table.
pub const MAX_UNLOADED_DRIVERS: u64 = 0x32;

/// Size of one unloaded-driver slot.
pub const UNLOADED_DRIVER_SLOT: u64 = 0x28;

/// Node budget of a kernel list walk: far more objects than a live system
/// holds on one list.
pub const LIST_NODE_BUDGET: u64 = 0x10000;

/// Why a list walk was abandoned.
#[derive(Clone, Copy, Debug, PartialEq, Eq, Structural)]
pub enum ListError {
    /// The list did not return to its head within the node budget.
    Corrupt,
}

/// The `k`-th list entry after `head`: following `Flink` (at `flink_offset`
/// inside each entry) `k + 1` times, reading memory as `mem`.
pub open spec fn list_link(mem: spec_fn(u64) -> u64, head: u64, flink_offset: u64, k: nat) -> u64
    decreases k,
{
    if k == 0 {
        mem(head.wrapping_add(flink_offset))
    } else {
        mem(list_link(mem, head, flink_offset, (k - 1) as nat).wrapping_add(flink_offset))
    }
}

/// Addresses of the objects on the list anchored at `head`: each entry,
/// less `link_offset` (the offset of the list entry inside the object),
/// until the walk returns to `head`.  A walk that has not returned after
/// `max_nodes` objects is reported as corrupt.
pub fn walk_list<F: Fn(u64) -> u64>(
    head: u64,
    link_offset: u64,
    flink_offset: u64,
    max_nodes: u64,
    read: &F,
) -> (r: Result<Vec<u64>, ListError>)
    requires
        forall|x: u64| read.requires((x,)),
    ensures
        forall|mem: spec_fn(u64) -> u64|
            agrees_with(read, mem) ==> match r {
                Ok(objs) => {
                    &&& objs@.len() <= max_nodes
                    &&& list_link(mem, head, flink_offset, objs@.len()) == head
                    &&& forall|i: int|
                        0 <= i < objs@.len() ==> {
                            &&& list_link(mem, head, flink_offset, i as nat) != head
                            &&& #[trigger] objs@[i] == list_link(
                                mem,
                                head,
                                flink_offset,
                                i as nat,
                            ).wrapping_sub(link_offset)
                        }
                },
                Err(_) => forall|i: nat| i <= max_nodes ==> #[trigger] list_link(mem, head, flink_offset, i) != head,
            },
{
    let mut objs: Vec<u64> = Vec::new();
    let mut ptr = read(head.wrapping_add(flink_offset));
    while ptr != head
        invariant
            forall|x: u64| read.requires((x,)),
            objs@.len() <= max_nodes,
            forall|mem: spec_fn(u64) -> u64|
                agrees_with(read, mem) ==> ptr == list_link(mem, head, flink_offset, objs@.len()),
            forall|mem: spec_fn(u64) -> u64, i: nat|
                agrees_with(read, mem) && i < objs@.len() ==> #[trigger] list_link(
                    mem,
                    head,
                    flink_offset,
                    i,
                ) != head,
            forall|mem: spec_fn(u64) -> u64, i: int|
                #[trigger] agrees_with(read, mem) && 0 <= i < objs@.len() ==> #[trigger] objs@[i]
                    == list_link(mem, head, flink_offset, i as nat).wrapping_sub(link_offset),
        decreases max_nodes - objs@.len(),
    {
        if objs.len() as u64 >= max_nodes {
            return Err(ListError::Corrupt);
        }
        let ghost n = objs@.len();
        let ghost prev = ptr;
        objs.push(ptr.wrapping_sub(link_offset));
        let next = read(ptr.wrapping_add(flink_offset));
        proof {
            assert forall|mem: spec_fn(u64) -> u64| agrees_with(read, mem) implies next == list_link(
                mem,
                head,
                flink_offset,
                objs@.len(),
            ) by {
                assert(list_link(mem, head, flink_offset, (n + 1) as nat) == mem(
                    list_link(mem, head, flink_offset, n).wrapping_add(flink_offset),
                ));
            }
            assert forall|mem: spec_fn(u64) -> u64, i: int|
                #[trigger] agrees_with(read, mem) && 0 <= i < objs@.len() implies #[trigger] objs@[i]
                    == list_link(mem, head, flink_offset, i as nat).wrapping_sub(link_offset) by {
                if i == n {
                    assert(prev == list_link(mem, head, flink_offset, n));
                }
            }
        }
        ptr = next;
    }
    Ok(objs)
}

/// Addresses of the occupied unloaded-driver slots: `count` slots (at most
/// the table's capacity) of `UNLOADED_DRIVER_SLOT` bytes from `array`.
pub fn unloaded_driver_slots(array: u64, count: u32) -> (r: Vec<u64>)
    ensures
        r@.len() == if count as u64 > MAX_UNLOADED_DRIVERS {
            MAX_UNLOADED_DRIVERS
        } else {
            count as u64
        },
        forall|i: int|
            0 <= i < r@.len() ==> #[trigger] r@[i] == array.wrapping_add((i * UNLOADED_DRIVER_SLOT) as u64),
{
    let bound: u64 = if count as u64 > MAX_UNLOADED_DRIVERS {
        MAX_UNLOADED_DRIVERS
    } else {
        count as u64
    };
    let mut r: Vec<u64> = Vec::new();
    let mut i: u64 = 0;
    while i < bound
        invariant
            bound <= MAX_UNLOADED_DRIVERS,
            i <= bound,
            r@.len() == i,
            forall|j: int|
                0 <= j < i ==> #[trigger] r@[j] == array.wrapping_add((j * UNLOADED_DRIVER_SLOT) as u64),
        decreases bound - i,
    {
        r.push(array.wrapping_add(i * UNLOADED_DRIVER_SLOT));
        i += 1;
    }
    r
}

/// Target of a system-service-table entry: the table address plus the
/// entry's signed offset (its value shifted right by four).
pub open spec fn spec_ssdt_target(table: u64, entry: i32) -> u64 {
    (table as i64).wrapping_add((entry >> 4u32) as i64) as u64
}

pub fn ssdt_target(table: u64, entry: i32) -> (r: u64)
    ensures
        r == spec_ssdt_target(table, entry),
{
    (table as i64).wrapping_add((entry >> 4u32) as i64) as u64
}

/// Targets of all entries of a system-service table at `table`.
pub fn ssdt_targets(table: u64, entries: &Vec<i32>) -> (r: Vec<u64>)
    ensures
        r@.len() == entries@.len(),
        forall|i: int| 0 <= i < r@.len() ==> #[trigger] r@[i] == spec_ssdt_target(table, entries@[i]),
{
    let mut r: Vec<u64> = Vec::new();
    let mut i: usize = 0;
    while i < entries.len()
        invariant
            i <= entries@.len(),
            r@.len() == i,
            forall|j: int| 0 <= j < i ==> #[trigger] r@[j] == spec_ssdt_target(table, entries@[j]),
        decreases entries@.len() - i,
    {
        r.push(ssdt_target(table, entries[i]));
        i += 1;
    }
    r
}

/// A loaded module's image: `size` bytes from `base`.
#[derive(Clone, Copy, Debug, PartialEq, Eq, Structural)]
pub struct ModuleRange {
    pub base: u64,
    pub size: u64,
}

pub open spec fn owns(m: ModuleRange, func: u64) -> bool {
    m.base < func && func < m.base + m.size
}

/// The first module whose image strictly contains `func`.
pub fn ssdt_owner(func: u64, modules: &Vec<ModuleRange>) -> (r: Option<usize>)
    ensures
        match r {
            Some(i) => i < modules@.len() && owns(modules@[i as int], func) && forall|j: int|
                0 <= j < i ==> !owns(modules@[j], func),
            None => forall|j: int| 0 <= j < modules@.len() ==> !owns(modules@[j], func),
        },
{
    let mut i: usize = 0;
    while i < modules.len()
        invariant
            i <= modules@.len(),
            forall|j: int| 0 <= j < i ==> !owns(modules@[j], func),
        decreases modules@.len() - i,
    {
        let m = modules[i];
        if m.base < func && func - m.base < m.size {
            return Some(i);
        }
        i += 1;
    }
    None
}

/// The `k`-th node of a null-terminated chain starting at `first`, each
/// node holding the next one at `next_offset`.
pub open spec fn chain_node(mem: spec_fn(u64) -> u64, first: u64, next_offset: u64, k: nat) -> u64
    decreases k,
{
    if k == 0 {
        first
    } else {
        mem(chain_node(mem, first, next_offset, (k - 1) as nat).wrapping_add(next_offset))
    }
}

/// Nodes of a null-terminated chain (a device's `NextDevice` or
/// `AttachedDevice` links); a chain longer than `max_nodes` is corrupt.
pub fn walk_chain<F: Fn(u64) -> u64>(first: u64, next_offset: u64, max_nodes: u64, read: &F) -> (r:
    Result<Vec<u64>, ListError>)
    requires
        forall|x: u64| read.requires((x,)),
    ensures
        forall|mem: spec_fn(u64) -> u64|
            agrees_with(read, mem) ==> match r {
                Ok(nodes) => {
                    &&& nodes@.len() <= max_nodes
                    &&& chain_node(mem, first, next_offset, nodes@.len()) == 0
                    &&& forall|i: int|
                        0 <= i < nodes@.len() ==> #[trigger] nodes@[i] == chain_node(
                            mem,
                            first,
                            next_offset,
                            i as nat,
                        ) && nodes@[i] != 0
                },
                Err(_) => forall|i: nat|
                    i <= max_nodes ==> #[trigger] chain_node(mem, first, next_offset, i) != 0,
            },
{
    let mut nodes: Vec<u64> = Vec::new();
    let mut cur = first;
    while cur != 0
        invariant
            forall|x: u64| read.requires((x,)),
            nodes@.len() <= max_nodes,
            forall|mem: spec_fn(u64) -> u64|
                agrees_with(read, mem) ==> cur == chain_node(mem, first, next_offset, nodes@.len()),
            forall|mem: spec_fn(u64) -> u64, i: int|
                #[trigger] agrees_with(read, mem) && 0 <= i < nodes@.len() ==> #[trigger] nodes@[i]
                    == chain_node(mem, first, next_offset, i as nat) && nodes@[i] != 0,
        decreases max_nodes - nodes@.len(),
    {
        if nodes.len() as u64 >= max_nodes {
            proof {
                assert forall|mem: spec_fn(u64) -> u64| agrees_with(read, mem) implies forall|i: nat|
                    i <= max_nodes ==> #[trigger] chain_node(mem, first, next_offset, i) != 0 by {
                    assert forall|i: nat| i <= max_nodes implies #[trigger] chain_node(mem, first, next_offset, i) != 0 by {
                        if i < nodes@.len() {
                            assert(nodes@[i as int] == chain_node(mem, first, next_offset, i));
                        }
                    }
                }
            }
            return Err(ListError::Corrupt);
        }
        let ghost n = nodes@.len();
        let ghost prev = cur;
        nodes.push(cur);
        let next = read(cur.wrapping_add(next_offset));
        proof {
            assert forall|mem: spec_fn(u64) -> u64| agrees_with(read, mem) implies next == chain_node(
                mem,
                first,
                next_offset,
                nodes@.len(),
            ) by {
                assert(chain_node(mem, first, next_offset, (n + 1) as nat) == mem(
                    chain_node(mem, first, next_offset, n).wrapping_add(next_offset),
                ));
            }
            assert forall|mem: spec_fn(u64) -> u64, i: int|
                #[trigger] agrees_with(read, mem) && 0 <= i < nodes@.len() implies #[trigger] nodes@[i]
                    == chain_node(mem, first, next_offset, i as nat) && nodes@[i] != 0 by {
                if i == n {
                    assert(prev == chain_node(mem, first, next_offset, n));
                }
            }
        }
        cur = next;
    }
    Ok(nodes)
}

} // verus!
