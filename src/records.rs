//! Field extraction for the recognized kernel objects: each record holds
//! the fields a report shows, read through a memory-read callback.
use vstd::prelude::*;
use crate::address::{Address, agrees_with};
use crate::reader::{address_of, decompose_value, spec_address_of, spec_field_value};
use crate::symbols::{PdbStore, SymbolError};

verus! {

pub open spec fn leaf(a: u64) -> Address {
    Address { base: a, pointer: None, offset: 0 }
}

/// Fields of a thread object.
#[derive(Clone, Copy, Debug, PartialEq, Eq, Structural)]
pub struct ThreadRecord {
    pub address: u64,
    pub pid: u64,
    pub tid: u64,
    pub eprocess: u64,
    pub cross_thread_flags: u64,
    pub state: u64,
    pub wait_reason: u64,
    /// Address of the thread's name string, 0 where the release has none.
    pub name_ptr: u64,
}

/// Reads the thread object at `at`.
pub fn read_thread<F: Fn(u64) -> u64>(store: &PdbStore, at: u64, read: &F) -> (r: Result<ThreadRecord, SymbolError>)
    requires
        forall|x: u64| read.requires((x,)),
    ensures
        forall|mem: spec_fn(u64) -> u64|
            agrees_with(read, mem) ==> {
                let v = |p: Seq<char>| spec_field_value(store, leaf(at), p, mem);
                match r {
                    Ok(t) => {
                        &&& t.address == at
                        &&& v("_ETHREAD.Cid.UniqueProcess"@) == Ok::<u64, SymbolError>(t.pid)
                        &&& v("_ETHREAD.Cid.UniqueThread"@) == Ok::<u64, SymbolError>(t.tid)
                        &&& v("_ETHREAD.Tcb.Process"@) == Ok::<u64, SymbolError>(t.eprocess)
                        &&& v("_ETHREAD.CrossThreadFlags"@) == Ok::<u64, SymbolError>(t.cross_thread_flags)
                        &&& v("_ETHREAD.Tcb.State"@) == Ok::<u64, SymbolError>(t.state)
                        &&& v("_ETHREAD.Tcb.WaitReason"@) == Ok::<u64, SymbolError>(t.wait_reason)
                        &&& t.name_ptr == match spec_address_of(store, leaf(at), "_ETHREAD.ThreadName"@, mem) {
                            Ok(p) => p,
                            Err(_) => 0,
                        }
                    },
                    Err(e) => v("_ETHREAD.Cid.UniqueProcess"@) == Err::<u64, SymbolError>(e)
                        || v("_ETHREAD.Cid.UniqueThread"@) == Err::<u64, SymbolError>(e)
                        || v("_ETHREAD.Tcb.Process"@) == Err::<u64, SymbolError>(e)
                        || v("_ETHREAD.CrossThreadFlags"@) == Err::<u64, SymbolError>(e)
                        || v("_ETHREAD.Tcb.State"@) == Err::<u64, SymbolError>(e)
                        || v("_ETHREAD.Tcb.WaitReason"@) == Err::<u64, SymbolError>(e),
                }
            },
{
    let root = Address::from_base(at);
    let pid = match decompose_value(store, &root, "_ETHREAD.Cid.UniqueProcess", read) { Ok(v) => v, Err(e) => { return Err(e); } };
    let tid = match decompose_value(store, &root, "_ETHREAD.Cid.UniqueThread", read) { Ok(v) => v, Err(e) => { return Err(e); } };
    let eprocess = match decompose_value(store, &root, "_ETHREAD.Tcb.Process", read) { Ok(v) => v, Err(e) => { return Err(e); } };
    let cross_thread_flags = match decompose_value(store, &root, "_ETHREAD.CrossThreadFlags", read) { Ok(v) => v, Err(e) => { return Err(e); } };
    let state = match decompose_value(store, &root, "_ETHREAD.Tcb.State", read) { Ok(v) => v, Err(e) => { return Err(e); } };
    let wait_reason = match decompose_value(store, &root, "_ETHREAD.Tcb.WaitReason", read) { Ok(v) => v, Err(e) => { return Err(e); } };
    let name_ptr = match address_of(store, &root, "_ETHREAD.ThreadName", read) { Ok(v) => v, Err(_) => 0 };
    Ok(ThreadRecord { address: at, pid, tid, eprocess, cross_thread_flags, state, wait_reason, name_ptr })
}

/// Fields of a process object.
#[derive(Clone, Copy, Debug, PartialEq, Eq, Structural)]
pub struct ProcessRecord {
    pub address: u64,
    pub create_time: u64,
    pub exit_time: u64,
    pub pid: u64,
    pub ppid: u64,
    pub directory_table: u64,
    /// Address of the image path string, 0 where the release has none.
    pub path_ptr: u64,
    /// Address of the image name bytes.
    pub name_addr: u64,
    /// Address of the head of the process's thread list.
    pub thread_head: u64,
}

/// Reads the process object at `at`.
pub fn read_process<F: Fn(u64) -> u64>(store: &PdbStore, at: u64, read: &F) -> (r: Result<ProcessRecord, SymbolError>)
    requires
        forall|x: u64| read.requires((x,)),
    ensures
        forall|mem: spec_fn(u64) -> u64|
            agrees_with(read, mem) ==> {
                let v = |p: Seq<char>| spec_field_value(store, leaf(at), p, mem);
                let w = |p: Seq<char>| spec_address_of(store, leaf(at), p, mem);
                match r {
                    Ok(t) => {
                        &&& t.address == at
                        &&& v("_EPROCESS.CreateTime"@) == Ok::<u64, SymbolError>(t.create_time)
                        &&& v("_EPROCESS.ExitTime"@) == Ok::<u64, SymbolError>(t.exit_time)
                        &&& v("_EPROCESS.UniqueProcessId"@) == Ok::<u64, SymbolError>(t.pid)
                        &&& v("_EPROCESS.InheritedFromUniqueProcessId"@) == Ok::<u64, SymbolError>(t.ppid)
                        &&& v("_EPROCESS.Pcb.DirectoryTableBase"@) == Ok::<u64, SymbolError>(t.directory_table)
                        &&& w("_EPROCESS.ImageFileName"@) == Ok::<u64, SymbolError>(t.name_addr)
                        &&& w("_EPROCESS.ThreadListHead"@) == Ok::<u64, SymbolError>(t.thread_head)
                        &&& t.path_ptr == match w("_EPROCESS.ImageFilePointer.FileName"@) {
                            Ok(p) => p,
                            Err(_) => 0,
                        }
                    },
                    Err(e) => v("_EPROCESS.CreateTime"@) == Err::<u64, SymbolError>(e)
                        || v("_EPROCESS.ExitTime"@) == Err::<u64, SymbolError>(e)
                        || v("_EPROCESS.UniqueProcessId"@) == Err::<u64, SymbolError>(e)
                        || v("_EPROCESS.InheritedFromUniqueProcessId"@) == Err::<u64, SymbolError>(e)
                        || v("_EPROCESS.Pcb.DirectoryTableBase"@) == Err::<u64, SymbolError>(e)
                        || w("_EPROCESS.ImageFileName"@) == Err::<u64, SymbolError>(e)
                        || w("_EPROCESS.ThreadListHead"@) == Err::<u64, SymbolError>(e),
                }
            },
{
    let root = Address::from_base(at);
    let create_time = match decompose_value(store, &root, "_EPROCESS.CreateTime", read) { Ok(v) => v, Err(e) => { return Err(e); } };
    let exit_time = match decompose_value(store, &root, "_EPROCESS.ExitTime", read) { Ok(v) => v, Err(e) => { return Err(e); } };
    let pid = match decompose_value(store, &root, "_EPROCESS.UniqueProcessId", read) { Ok(v) => v, Err(e) => { return Err(e); } };
    let ppid = match decompose_value(store, &root, "_EPROCESS.InheritedFromUniqueProcessId", read) { Ok(v) => v, Err(e) => { return Err(e); } };
    let directory_table = match decompose_value(store, &root, "_EPROCESS.Pcb.DirectoryTableBase", read) { Ok(v) => v, Err(e) => { return Err(e); } };
    let name_addr = match address_of(store, &root, "_EPROCESS.ImageFileName", read) { Ok(v) => v, Err(e) => { return Err(e); } };
    let thread_head = match address_of(store, &root, "_EPROCESS.ThreadListHead", read) { Ok(v) => v, Err(e) => { return Err(e); } };
    let path_ptr = match address_of(store, &root, "_EPROCESS.ImageFilePointer.FileName", read) { Ok(v) => v, Err(_) => 0 };
    Ok(ProcessRecord { address: at, create_time, exit_time, pid, ppid, directory_table, path_ptr, name_addr, thread_head })
}

} // verus!
