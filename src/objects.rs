//! Names and flags that the object recognizers report, and the decoding of
//! the kernel's counted UTF-16 strings and fixed-size byte names.
use vstd::prelude::*;
use vstd::string::*;

verus! {

pub open spec fn spec_irp_name(v: usize) -> &'static str {
    if v == 0 {
        "IRP_MJ_CREATE"
    } else if v == 1 {
        "IRP_MJ_CREATE_NAMED_PIPE"
    } else if v == 2 {
        "IRP_MJ_CLOSE"
    } else if v == 3 {
        "IRP_MJ_READ"
    } else if v == 4 {
        "IRP_MJ_WRITE"
    } else if v == 5 {
        "IRP_MJ_QUERY_INFORMATION"
    } else if v == 6 {
        "IRP_MJ_SET_INFORMATION"
    } else if v == 7 {
        "IRP_MJ_QUERY_EA"
    } else if v == 8 {
        "IRP_MJ_SET_EA"
    } else if v == 9 {
        "IRP_MJ_FLUSH_BUFFERS"
    } else if v == 10 {
        "IRP_MJ_QUERY_VOLUME_INFORMATION"
    } else if v == 11 {
        "IRP_MJ_SET_VOLUME_INFORMATION"
    } else if v == 12 {
        "IRP_MJ_DIRECTORY_CONTROL"
    } else if v == 13 {
        "IRP_MJ_FILE_SYSTEM_CONTROL"
    } else if v == 14 {
        "IRP_MJ_DEVICE_CONTROL"
    } else if v == 15 {
        "IRP_MJ_INTERNAL_DEVICE_CONTROL"
    } else if v == 16 {
        "IRP_MJ_SHUTDOWN"
    } else if v == 17 {
        "IRP_MJ_LOCK_CONTROL"
    } else if v == 18 {
        "IRP_MJ_CLEANUP"
    } else if v == 19 {
        "IRP_MJ_CREATE_MAILSLOT"
    } else if v == 20 {
        "IRP_MJ_QUERY_SECURITY"
    } else if v == 21 {
        "IRP_MJ_SET_SECURITY"
    } else if v == 22 {
        "IRP_MJ_POWER"
    } else if v == 23 {
        "IRP_MJ_SYSTEM_CONTROL"
    } else if v == 24 {
        "IRP_MJ_DEVICE_CHANGE"
    } else if v == 25 {
        "IRP_MJ_QUERY_QUOTA"
    } else if v == 26 {
        "IRP_MJ_SET_QUOTA"
    } else if v == 27 {
        "IRP_MJ_PNP"
    } else {
        "UNKNOWN"
    }
}

/// Name of major function `v` of a driver's dispatch table.
pub fn irp_name_str(v: usize) -> (r: &'static str)
    ensures
        r == spec_irp_name(v),
{
    if v == 0 {
        "IRP_MJ_CREATE"
    } else if v == 1 {
        "IRP_MJ_CREATE_NAMED_PIPE"
    } else if v == 2 {
        "IRP_MJ_CLOSE"
    } else if v == 3 {
        "IRP_MJ_READ"
    } else if v == 4 {
        "IRP_MJ_WRITE"
    } else if v == 5 {
        "IRP_MJ_QUERY_INFORMATION"
    } else if v == 6 {
        "IRP_MJ_SET_INFORMATION"
    } else if v == 7 {
        "IRP_MJ_QUERY_EA"
    } else if v == 8 {
        "IRP_MJ_SET_EA"
    } else if v == 9 {
        "IRP_MJ_FLUSH_BUFFERS"
    } else if v == 10 {
        "IRP_MJ_QUERY_VOLUME_INFORMATION"
    } else if v == 11 {
        "IRP_MJ_SET_VOLUME_INFORMATION"
    } else if v == 12 {
        "IRP_MJ_DIRECTORY_CONTROL"
    } else if v == 13 {
        "IRP_MJ_FILE_SYSTEM_CONTROL"
    } else if v == 14 {
        "IRP_MJ_DEVICE_CONTROL"
    } else if v == 15 {
        "IRP_MJ_INTERNAL_DEVICE_CONTROL"
    } else if v == 16 {
        "IRP_MJ_SHUTDOWN"
    } else if v == 17 {
        "IRP_MJ_LOCK_CONTROL"
    } else if v == 18 {
        "IRP_MJ_CLEANUP"
    } else if v == 19 {
        "IRP_MJ_CREATE_MAILSLOT"
    } else if v == 20 {
        "IRP_MJ_QUERY_SECURITY"
    } else if v == 21 {
        "IRP_MJ_SET_SECURITY"
    } else if v == 22 {
        "IRP_MJ_POWER"
    } else if v == 23 {
        "IRP_MJ_SYSTEM_CONTROL"
    } else if v == 24 {
        "IRP_MJ_DEVICE_CHANGE"
    } else if v == 25 {
        "IRP_MJ_QUERY_QUOTA"
    } else if v == 26 {
        "IRP_MJ_SET_QUOTA"
    } else if v == 27 {
        "IRP_MJ_PNP"
    } else {
        "UNKNOWN"
    }
}

/// Name of major function `idx` of a driver's dispatch table, or `UNKNOWN`.
pub fn get_irp_name(idx: usize) -> (r: String)
    ensures
        r@ == spec_irp_name(idx)@,
{
    String::from_str(irp_name_str(idx))
}

pub open spec fn spec_device_type(v: u32) -> &'static str {
    if v == 0x00000027 {
        "FILE_DEVICE_8042_PORT"
    } else if v == 0x00000032 {
        "FILE_DEVICE_ACPI"
    } else if v == 0x00000029 {
        "FILE_DEVICE_BATTERY"
    } else if v == 0x00000001 {
        "FILE_DEVICE_BEEP"
    } else if v == 0x0000002a {
        "FILE_DEVICE_BUS_EXTENDER"
    } else if v == 0x00000002 {
        "FILE_DEVICE_CD_ROM"
    } else if v == 0x00000003 {
        "FILE_DEVICE_CD_ROM_FILE_SYSTEM"
    } else if v == 0x00000030 {
        "FILE_DEVICE_CHANGER"
    } else if v == 0x00000004 {
        "FILE_DEVICE_CONTROLLER"
    } else if v == 0x00000005 {
        "FILE_DEVICE_DATALINK"
    } else if v == 0x00000006 {
        "FILE_DEVICE_DFS"
    } else if v == 0x00000035 {
        "FILE_DEVICE_DFS_FILE_SYSTEM"
    } else if v == 0x00000036 {
        "FILE_DEVICE_DFS_VOLUME"
    } else if v == 0x00000007 {
        "FILE_DEVICE_DISK"
    } else if v == 0x00000008 {
        "FILE_DEVICE_DISK_FILE_SYSTEM"
    } else if v == 0x00000033 {
        "FILE_DEVICE_DVD"
    } else if v == 0x00000009 {
        "FILE_DEVICE_FILE_SYSTEM"
    } else if v == 0x0000003a {
        "FILE_DEVICE_FIPS"
    } else if v == 0x00000034 {
        "FILE_DEVICE_FULLSCREEN_VIDEO"
    } else if v == 0x0000000a {
        "FILE_DEVICE_INPORT_PORT"
    } else if v == 0x0000000b {
        "FILE_DEVICE_KEYBOARD"
    } else if v == 0x0000002f {
        "FILE_DEVICE_KS"
    } else if v == 0x00000039 {
        "FILE_DEVICE_KSEC"
    } else if v == 0x0000000c {
        "FILE_DEVICE_MAILSLOT"
    } else if v == 0x0000002d {
        "FILE_DEVICE_MASS_STORAGE"
    } else if v == 0x0000000d {
        "FILE_DEVICE_MIDI_IN"
    } else if v == 0x0000000e {
        "FILE_DEVICE_MIDI_OUT"
    } else if v == 0x0000002b {
        "FILE_DEVICE_MODEM"
    } else if v == 0x0000000f {
        "FILE_DEVICE_MOUSE"
    } else if v == 0x00000010 {
        "FILE_DEVICE_MULTI_UNC_PROVIDER"
    } else if v == 0x00000011 {
        "FILE_DEVICE_NAMED_PIPE"
    } else if v == 0x00000012 {
        "FILE_DEVICE_NETWORK"
    } else if v == 0x00000013 {
        "FILE_DEVICE_NETWORK_BROWSER"
    } else if v == 0x00000014 {
        "FILE_DEVICE_NETWORK_FILE_SYSTEM"
    } else if v == 0x00000028 {
        "FILE_DEVICE_NETWORK_REDIRECTOR"
    } else if v == 0x00000015 {
        "FILE_DEVICE_NULL"
    } else if v == 0x00000016 {
        "FILE_DEVICE_PARALLEL_PORT"
    } else if v == 0x00000017 {
        "FILE_DEVICE_PHYSICAL_NETCARD"
    } else if v == 0x00000018 {
        "FILE_DEVICE_PRINTER"
    } else if v == 0x00000019 {
        "FILE_DEVICE_SCANNER"
    } else if v == 0x0000001c {
        "FILE_DEVICE_SCREEN"
    } else if v == 0x00000037 {
        "FILE_DEVICE_SERENUM"
    } else if v == 0x0000001a {
        "FILE_DEVICE_SERIAL_MOUSE_PORT"
    } else if v == 0x0000001b {
        "FILE_DEVICE_SERIAL_PORT"
    } else if v == 0x00000031 {
        "FILE_DEVICE_SMARTCARD"
    } else if v == 0x0000002e {
        "FILE_DEVICE_SMB"
    } else if v == 0x0000001d {
        "FILE_DEVICE_SOUND"
    } else if v == 0x0000001e {
        "FILE_DEVICE_STREAMS"
    } else if v == 0x0000001f {
        "FILE_DEVICE_TAPE"
    } else if v == 0x00000020 {
        "FILE_DEVICE_TAPE_FILE_SYSTEM"
    } else if v == 0x00000038 {
        "FILE_DEVICE_TERMSRV"
    } else if v == 0x00000021 {
        "FILE_DEVICE_TRANSPORT"
    } else if v == 0x00000022 {
        "FILE_DEVICE_UNKNOWN"
    } else if v == 0x0000002c {
        "FILE_DEVICE_VDM"
    } else if v == 0x00000023 {
        "FILE_DEVICE_VIDEO"
    } else if v == 0x00000024 {
        "FILE_DEVICE_VIRTUAL_DISK"
    } else if v == 0x00000025 {
        "FILE_DEVICE_WAVE_IN"
    } else if v == 0x00000026 {
        "FILE_DEVICE_WAVE_OUT"
    } else {
        "UNKNOWN"
    }
}

/// Name of a device type code.
pub fn device_type_str(v: u32) -> (r: &'static str)
    ensures
        r == spec_device_type(v),
{
    if v == 0x00000027 {
        "FILE_DEVICE_8042_PORT"
    } else if v == 0x00000032 {
        "FILE_DEVICE_ACPI"
    } else if v == 0x00000029 {
        "FILE_DEVICE_BATTERY"
    } else if v == 0x00000001 {
        "FILE_DEVICE_BEEP"
    } else if v == 0x0000002a {
        "FILE_DEVICE_BUS_EXTENDER"
    } else if v == 0x00000002 {
        "FILE_DEVICE_CD_ROM"
    } else if v == 0x00000003 {
        "FILE_DEVICE_CD_ROM_FILE_SYSTEM"
    } else if v == 0x00000030 {
        "FILE_DEVICE_CHANGER"
    } else if v == 0x00000004 {
        "FILE_DEVICE_CONTROLLER"
    } else if v == 0x00000005 {
        "FILE_DEVICE_DATALINK"
    } else if v == 0x00000006 {
        "FILE_DEVICE_DFS"
    } else if v == 0x00000035 {
        "FILE_DEVICE_DFS_FILE_SYSTEM"
    } else if v == 0x00000036 {
        "FILE_DEVICE_DFS_VOLUME"
    } else if v == 0x00000007 {
        "FILE_DEVICE_DISK"
    } else if v == 0x00000008 {
        "FILE_DEVICE_DISK_FILE_SYSTEM"
    } else if v == 0x00000033 {
        "FILE_DEVICE_DVD"
    } else if v == 0x00000009 {
        "FILE_DEVICE_FILE_SYSTEM"
    } else if v == 0x0000003a {
        "FILE_DEVICE_FIPS"
    } else if v == 0x00000034 {
        "FILE_DEVICE_FULLSCREEN_VIDEO"
    } else if v == 0x0000000a {
        "FILE_DEVICE_INPORT_PORT"
    } else if v == 0x0000000b {
        "FILE_DEVICE_KEYBOARD"
    } else if v == 0x0000002f {
        "FILE_DEVICE_KS"
    } else if v == 0x00000039 {
        "FILE_DEVICE_KSEC"
    } else if v == 0x0000000c {
        "FILE_DEVICE_MAILSLOT"
    } else if v == 0x0000002d {
        "FILE_DEVICE_MASS_STORAGE"
    } else if v == 0x0000000d {
        "FILE_DEVICE_MIDI_IN"
    } else if v == 0x0000000e {
        "FILE_DEVICE_MIDI_OUT"
    } else if v == 0x0000002b {
        "FILE_DEVICE_MODEM"
    } else if v == 0x0000000f {
        "FILE_DEVICE_MOUSE"
    } else if v == 0x00000010 {
        "FILE_DEVICE_MULTI_UNC_PROVIDER"
    } else if v == 0x00000011 {
        "FILE_DEVICE_NAMED_PIPE"
    } else if v == 0x00000012 {
        "FILE_DEVICE_NETWORK"
    } else if v == 0x00000013 {
        "FILE_DEVICE_NETWORK_BROWSER"
    } else if v == 0x00000014 {
        "FILE_DEVICE_NETWORK_FILE_SYSTEM"
    } else if v == 0x00000028 {
        "FILE_DEVICE_NETWORK_REDIRECTOR"
    } else if v == 0x00000015 {
        "FILE_DEVICE_NULL"
    } else if v == 0x00000016 {
        "FILE_DEVICE_PARALLEL_PORT"
    } else if v == 0x00000017 {
        "FILE_DEVICE_PHYSICAL_NETCARD"
    } else if v == 0x00000018 {
        "FILE_DEVICE_PRINTER"
    } else if v == 0x00000019 {
        "FILE_DEVICE_SCANNER"
    } else if v == 0x0000001c {
        "FILE_DEVICE_SCREEN"
    } else if v == 0x00000037 {
        "FILE_DEVICE_SERENUM"
    } else if v == 0x0000001a {
        "FILE_DEVICE_SERIAL_MOUSE_PORT"
    } else if v == 0x0000001b {
        "FILE_DEVICE_SERIAL_PORT"
    } else if v == 0x00000031 {
        "FILE_DEVICE_SMARTCARD"
    } else if v == 0x0000002e {
        "FILE_DEVICE_SMB"
    } else if v == 0x0000001d {
        "FILE_DEVICE_SOUND"
    } else if v == 0x0000001e {
        "FILE_DEVICE_STREAMS"
    } else if v == 0x0000001f {
        "FILE_DEVICE_TAPE"
    } else if v == 0x00000020 {
        "FILE_DEVICE_TAPE_FILE_SYSTEM"
    } else if v == 0x00000038 {
        "FILE_DEVICE_TERMSRV"
    } else if v == 0x00000021 {
        "FILE_DEVICE_TRANSPORT"
    } else if v == 0x00000022 {
        "FILE_DEVICE_UNKNOWN"
    } else if v == 0x0000002c {
        "FILE_DEVICE_VDM"
    } else if v == 0x00000023 {
        "FILE_DEVICE_VIDEO"
    } else if v == 0x00000024 {
        "FILE_DEVICE_VIRTUAL_DISK"
    } else if v == 0x00000025 {
        "FILE_DEVICE_WAVE_IN"
    } else if v == 0x00000026 {
        "FILE_DEVICE_WAVE_OUT"
    } else {
        "UNKNOWN"
    }
}

/// Name of a device type code, or `UNKNOWN`.
pub fn get_device_type(typ: u32) -> (r: String)
    ensures
        r@ == spec_device_type(typ)@,
{
    String::from_str(device_type_str(typ))
}

pub open spec fn spec_thread_state(v: u8) -> &'static str {
    if v == 0 {
        "Initialized"
    } else if v == 1 {
        "Ready"
    } else if v == 2 {
        "Running"
    } else if v == 3 {
        "Standby"
    } else if v == 4 {
        "Terminated"
    } else if v == 5 {
        "Waiting"
    } else if v == 6 {
        "Transition"
    } else if v == 7 {
        "DeferredReady"
    } else if v == 8 {
        "GateWait"
    } else {
        "Unknown"
    }
}

/// Name of a scheduler state of a thread.
pub fn thread_state_name(v: u8) -> (r: &'static str)
    ensures
        r == spec_thread_state(v),
{
    if v == 0 {
        "Initialized"
    } else if v == 1 {
        "Ready"
    } else if v == 2 {
        "Running"
    } else if v == 3 {
        "Standby"
    } else if v == 4 {
        "Terminated"
    } else if v == 5 {
        "Waiting"
    } else if v == 6 {
        "Transition"
    } else if v == 7 {
        "DeferredReady"
    } else if v == 8 {
        "GateWait"
    } else {
        "Unknown"
    }
}

pub open spec fn spec_wait_reason(v: u8) -> &'static str {
    if v == 0 {
        "Executive"
    } else if v == 1 {
        "FreePage"
    } else if v == 2 {
        "PageIn"
    } else if v == 3 {
        "PoolAllocation"
    } else if v == 4 {
        "DelayExecution"
    } else if v == 5 {
        "Suspended"
    } else if v == 6 {
        "UserRequest"
    } else if v == 7 {
        "WrExecutive"
    } else if v == 8 {
        "WrFreePage"
    } else if v == 9 {
        "WrPageIn"
    } else if v == 10 {
        "WrPoolAllocation"
    } else if v == 11 {
        "WrDelayExecution"
    } else if v == 12 {
        "WrSuspended"
    } else if v == 13 {
        "WrUserRequest"
    } else if v == 14 {
        "WrEventPair"
    } else if v == 15 {
        "WrQueue"
    } else if v == 16 {
        "WrLpcReceive"
    } else if v == 17 {
        "WrLpcReply"
    } else if v == 18 {
        "WrVirtualMemory"
    } else if v == 19 {
        "WrPageOut"
    } else if v == 20 {
        "WrRendezvous"
    } else if v == 21 {
        "Spare2"
    } else if v == 22 {
        "Spare3"
    } else if v == 23 {
        "Spare4"
    } else if v == 24 {
        "Spare5"
    } else if v == 25 {
        "Spare6"
    } else if v == 26 {
        "WrKernel"
    } else if v == 27 {
        "WrResource"
    } else if v == 28 {
        "WrPushLock"
    } else if v == 29 {
        "WrMutex"
    } else if v == 30 {
        "WrQuantumEnd"
    } else if v == 31 {
        "WrDispatchInt"
    } else if v == 32 {
        "WrPreempted"
    } else if v == 33 {
        "WrYieldExecution"
    } else if v == 34 {
        "WrFastMutex"
    } else if v == 35 {
        "WrGuardedMutex"
    } else if v == 36 {
        "WrRundown"
    } else if v == 37 {
        "MaximumWaitReason"
    } else {
        "Unknown"
    }
}

/// Name of the reason a thread waits.
pub fn wait_reason_name(v: u8) -> (r: &'static str)
    ensures
        r == spec_wait_reason(v),
{
    if v == 0 {
        "Executive"
    } else if v == 1 {
        "FreePage"
    } else if v == 2 {
        "PageIn"
    } else if v == 3 {
        "PoolAllocation"
    } else if v == 4 {
        "DelayExecution"
    } else if v == 5 {
        "Suspended"
    } else if v == 6 {
        "UserRequest"
    } else if v == 7 {
        "WrExecutive"
    } else if v == 8 {
        "WrFreePage"
    } else if v == 9 {
        "WrPageIn"
    } else if v == 10 {
        "WrPoolAllocation"
    } else if v == 11 {
        "WrDelayExecution"
    } else if v == 12 {
        "WrSuspended"
    } else if v == 13 {
        "WrUserRequest"
    } else if v == 14 {
        "WrEventPair"
    } else if v == 15 {
        "WrQueue"
    } else if v == 16 {
        "WrLpcReceive"
    } else if v == 17 {
        "WrLpcReply"
    } else if v == 18 {
        "WrVirtualMemory"
    } else if v == 19 {
        "WrPageOut"
    } else if v == 20 {
        "WrRendezvous"
    } else if v == 21 {
        "Spare2"
    } else if v == 22 {
        "Spare3"
    } else if v == 23 {
        "Spare4"
    } else if v == 24 {
        "Spare5"
    } else if v == 25 {
        "Spare6"
    } else if v == 26 {
        "WrKernel"
    } else if v == 27 {
        "WrResource"
    } else if v == 28 {
        "WrPushLock"
    } else if v == 29 {
        "WrMutex"
    } else if v == 30 {
        "WrQuantumEnd"
    } else if v == 31 {
        "WrDispatchInt"
    } else if v == 32 {
        "WrPreempted"
    } else if v == 33 {
        "WrYieldExecution"
    } else if v == 34 {
        "WrFastMutex"
    } else if v == 35 {
        "WrGuardedMutex"
    } else if v == 36 {
        "WrRundown"
    } else if v == 37 {
        "MaximumWaitReason"
    } else {
        "Unknown"
    }
}

/// The nine cross-thread flags as the thread report lists them: flag `k`
/// (1 to 9) is set when `flags & k` is non-zero.
#[derive(Clone, Copy, Debug, PartialEq, Eq, Structural)]
pub struct CrossThreadFlags {
    pub terminated: bool,
    pub dead_thread: bool,
    pub hide_from_debugger: bool,
    pub impersonating: bool,
    pub system: bool,
    pub hard_errors_disabled: bool,
    pub break_on_termination: bool,
    pub skip_creation_msg: bool,
    pub skip_termination_msg: bool,
}

impl CrossThreadFlags {
    pub fn from_raw(flags: u32) -> (r: CrossThreadFlags)
        ensures
            r.terminated == (flags & 1 != 0),
            r.dead_thread == (flags & 2 != 0),
            r.hide_from_debugger == (flags & 3 != 0),
            r.impersonating == (flags & 4 != 0),
            r.system == (flags & 5 != 0),
            r.hard_errors_disabled == (flags & 6 != 0),
            r.break_on_termination == (flags & 7 != 0),
            r.skip_creation_msg == (flags & 8 != 0),
            r.skip_termination_msg == (flags & 9 != 0),
    {
        CrossThreadFlags {
            terminated: flags & 1 != 0,
            dead_thread: flags & 2 != 0,
            hide_from_debugger: flags & 3 != 0,
            impersonating: flags & 4 != 0,
            system: flags & 5 != 0,
            hard_errors_disabled: flags & 6 != 0,
            break_on_termination: flags & 7 != 0,
            skip_creation_msg: flags & 8 != 0,
            skip_termination_msg: flags & 9 != 0,
        }
    }
}

/// `x` without its trailing zero bytes.
pub open spec fn spec_trim_right(x: Seq<u8>) -> Seq<u8>
    decreases x.len(),
{
    if x.len() == 0 {
        x
    } else if x.last() == 0 {
        spec_trim_right(x.drop_last())
    } else {
        x
    }
}

/// The bytes of `x` up to its last non-zero byte (empty when all are zero).
pub fn trim_null_bytes_right(x: &Vec<u8>) -> (r: Vec<u8>)
    ensures
        r@ == spec_trim_right(x@),
{
    let mut end: usize = x.len();
    assert(x@.subrange(0, end as int) =~= x@);
    while end > 0 && x[end - 1] == 0
        invariant
            end <= x@.len(),
            spec_trim_right(x@.subrange(0, end as int)) == spec_trim_right(x@),
        decreases end,
    {
        proof {
            let pre = x@.subrange(0, end as int);
            assert(pre.drop_last() =~= x@.subrange(0, end - 1));
        }
        end -= 1;
    }
    let mut r: Vec<u8> = Vec::new();
    let mut i: usize = 0;
    while i < end
        invariant
            i <= end <= x@.len(),
            r@ == x@.subrange(0, i as int),
        decreases end - i,
    {
        r.push(x[i]);
        proof {
            assert(r@ =~= x@.subrange(0, i + 1));
        }
        i += 1;
    }
    proof {
        let pre = x@.subrange(0, end as int);
        if end == 0 {
            assert(pre =~= Seq::<u8>::empty());
        }
    }
    r
}

/// The same as `trim_null_bytes_right`: leading zero bytes are kept.
pub fn trim_null_bytes(x: &Vec<u8>) -> (r: Vec<u8>)
    ensures
        r@ == spec_trim_right(x@),
{
    trim_null_bytes_right(x)
}

/// Header of a counted UTF-16 string: length and capacity in bytes, and
/// the address of the characters.
#[derive(Clone, Copy, Debug, PartialEq, Eq, Structural)]
pub struct UnicodeStringHeader {
    pub length: u16,
    pub maximum_length: u16,
    pub buffer: u64,
}

/// Why a counted string yields no text.
#[derive(Clone, Copy, Debug, PartialEq, Eq, Structural)]
pub enum UnicodeError {
    /// Null buffer, empty or odd length, or length above capacity.
    Malformed,
    /// The characters read do not match the length.
    WrongLength,
    /// The characters are not valid UTF-16.
    BadEncoding,
}

impl UnicodeStringHeader {
    pub open spec fn spec_well_formed(&self) -> bool {
        self.buffer != 0 && self.length <= self.maximum_length && self.length != 0 && self.length
            % 2 == 0
    }

    /// Number of UTF-16 units to read at `buffer`, if the header is sound.
    pub fn unit_count(&self) -> (r: Option<usize>)
        ensures
            r == if self.spec_well_formed() {
                Some((self.length / 2) as usize)
            } else {
                None::<usize>
            },
    {
        if self.buffer == 0 || self.length > self.maximum_length || self.length == 0 || self.length
            % 2 != 0 {
            None
        } else {
            Some((self.length / 2) as usize)
        }
    }
}

/// Text of a sequence of UTF-16 units, or `None` when they are not valid
/// UTF-16; it depends on the units alone.
pub uninterp spec fn utf16_text(units: Seq<u16>) -> Option<Seq<char>>;

/// Relies on `String::from_utf16`: decodes UTF-16, failing on unpaired
/// surrogates; no units decode to the empty string.
#[verifier::external_body]
fn decode_utf16(units: &[u16]) -> (r: Option<String>)
    ensures
        match r {
            Some(s) => utf16_text(units@) == Some(s@),
            None => utf16_text(units@) is None,
        },
        r is Some || units@.len() != 0,
        r matches Some(s) ==> (units@.len() == 0 ==> s@.len() == 0),
{
    String::from_utf16(units).ok()
}

/// Text of the counted string with header `header` whose characters read
/// as `units`.
pub fn decode_unicode_string(header: &UnicodeStringHeader, units: &Vec<u16>) -> (r: Result<
    String,
    UnicodeError,
>)
    ensures
        !header.spec_well_formed() ==> r == Err::<String, UnicodeError>(UnicodeError::Malformed),
        header.spec_well_formed() && units@.len() != header.length / 2 ==> r == Err::<
            String,
            UnicodeError,
        >(UnicodeError::WrongLength),
        header.spec_well_formed() && units@.len() == header.length / 2 ==> match r {
            Ok(s) => utf16_text(units@) == Some(s@),
            Err(e) => e == UnicodeError::BadEncoding && utf16_text(units@) is None,
        },
{
    match header.unit_count() {
        None => Err(UnicodeError::Malformed),
        Some(n) => {
            if units.len() != n {
                Err(UnicodeError::WrongLength)
            } else {
                match decode_utf16(units.as_slice()) {
                    Some(s) => Ok(s),
                    None => Err(UnicodeError::BadEncoding),
                }
            }
        },
    }
}

/// A process found by the pool scan; two records are the same process when
/// their object addresses agree.
pub struct EprocessPoolChunk {
    pub pool_addr: u64,
    pub eprocess_addr: u64,
    pub eprocess_name: String,
    pub create_time: u64,
    pub exit_time: u64,
}

impl PartialEq for EprocessPoolChunk {
    fn eq(&self, other: &Self) -> (r: bool)
        ensures
            r == (self.eprocess_addr == other.eprocess_addr),
    {
        self.eprocess_addr == other.eprocess_addr
    }
}

impl vstd::std_specs::cmp::PartialEqSpecImpl for EprocessPoolChunk {
    open spec fn obeys_eq_spec() -> bool {
        true
    }

    open spec fn eq_spec(&self, other: &EprocessPoolChunk) -> bool {
        self.eprocess_addr == other.eprocess_addr
    }
}

} // verus!
