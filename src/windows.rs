//! Host-OS versions, the driver's control codes and request payloads, pool
//! tags, and time conversions.
use vstd::prelude::*;
use crate::symbols::PdbStore;

verus! {

/// Host-OS release families, oldest first.
#[derive(Clone, Copy, Debug, PartialEq, Eq, Structural)]
pub enum WindowsVersion {
    Windows7,
    Windows8,
    Windows10Legacy,
    Windows10_2015,
    Windows10_2016,
    Windows10_2017,
    Windows10_2018,
    Windows10_2019,
    Windows10_2020,
    WindowsFastRing,
    WindowsUnknown,
}

/// First build number of the fast-ring releases.
pub const FAST_RING_FIRST_BUILD: u32 = 19536;

pub open spec fn spec_version_of_build(build: u32) -> WindowsVersion {
    if build == 7600 || build == 7601 {
        WindowsVersion::Windows7
    } else if build == 9200 || build == 9600 {
        WindowsVersion::Windows8
    } else if build == 10240 {
        WindowsVersion::Windows10Legacy
    } else if build == 10586 {
        WindowsVersion::Windows10_2015
    } else if build == 14393 {
        WindowsVersion::Windows10_2016
    } else if build == 15063 || build == 16299 {
        WindowsVersion::Windows10_2017
    } else if build == 17134 || build == 17763 {
        WindowsVersion::Windows10_2018
    } else if build == 18362 || build == 18363 {
        WindowsVersion::Windows10_2019
    } else if build == 19041 {
        WindowsVersion::Windows10_2020
    } else if build >= FAST_RING_FIRST_BUILD {
        WindowsVersion::WindowsFastRing
    } else {
        WindowsVersion::WindowsUnknown
    }
}

impl WindowsVersion {
    /// Release family of a build number.
    pub fn from_build_number(build: u32) -> (r: WindowsVersion)
        ensures
            r == spec_version_of_build(build),
    {
        if build == 7600 || build == 7601 {
            WindowsVersion::Windows7
        } else if build == 9200 || build == 9600 {
            WindowsVersion::Windows8
        } else if build == 10240 {
            WindowsVersion::Windows10Legacy
        } else if build == 10586 {
            WindowsVersion::Windows10_2015
        } else if build == 14393 {
            WindowsVersion::Windows10_2016
        } else if build == 15063 || build == 16299 {
            WindowsVersion::Windows10_2017
        } else if build == 17134 || build == 17763 {
            WindowsVersion::Windows10_2018
        } else if build == 18362 || build == 18363 {
            WindowsVersion::Windows10_2019
        } else if build == 19041 {
            WindowsVersion::Windows10_2020
        } else if build >= FAST_RING_FIRST_BUILD {
            WindowsVersion::WindowsFastRing
        } else {
            WindowsVersion::WindowsUnknown
        }
    }

    pub open spec fn spec_not_supported(self) -> bool {
        match self {
            WindowsVersion::Windows10Legacy | WindowsVersion::Windows10_2015
            | WindowsVersion::Windows10_2016 | WindowsVersion::Windows10_2017
            | WindowsVersion::Windows8 | WindowsVersion::WindowsUnknown => true,
            _ => false,
        }
    }

    /// Releases the scanner does not handle.
    pub fn not_supported(self) -> (r: bool)
        ensures
            r == self.spec_not_supported(),
    {
        match self {
            WindowsVersion::Windows10Legacy | WindowsVersion::Windows10_2015
            | WindowsVersion::Windows10_2016 | WindowsVersion::Windows10_2017
            | WindowsVersion::Windows8 | WindowsVersion::WindowsUnknown => true,
            _ => false,
        }
    }

    pub fn is_supported(self) -> (r: bool)
        ensures
            r == !self.spec_not_supported(),
    {
        !self.not_supported()
    }

    /// Releases before Windows 8 mark pool tags with the legacy variant.
    pub fn use_old_tag(self) -> (r: bool)
        ensures
            r == (self == WindowsVersion::Windows7),
    {
        match self {
            WindowsVersion::Windows7 => true,
            _ => false,
        }
    }
}

/// Where the bounds of the non-paged pool are found for a release.
#[derive(Clone, Copy, Debug)]
pub enum PoolRangeSource {
    /// Field paths from the kernel's `MiState` global.
    MiState { first: &'static str, last: &'static str },
    /// Global symbols holding the bounds.
    Symbols { start: &'static str, end: &'static str },
}

/// The pool-range source of `v`, if the release has one.
pub fn nonpaged_range_source(v: WindowsVersion) -> (r: Option<PoolRangeSource>)
    ensures
        r == match v {
            WindowsVersion::WindowsFastRing => Some(
                PoolRangeSource::MiState {
                    first: "_MI_SYSTEM_INFORMATION.Hardware.SystemNodeNonPagedPool.NonPagedPoolFirstVa",
                    last: "_MI_SYSTEM_INFORMATION.Hardware.SystemNodeNonPagedPool.NonPagedPoolLastVa",
                },
            ),
            WindowsVersion::Windows10_2018 | WindowsVersion::Windows10_2019 => Some(
                PoolRangeSource::MiState {
                    first: "_MI_SYSTEM_INFORMATION.Hardware.SystemNodeInformation.NonPagedPoolFirstVa",
                    last: "_MI_SYSTEM_INFORMATION.Hardware.SystemNodeInformation.NonPagedPoolLastVa",
                },
            ),
            WindowsVersion::Windows7 => Some(
                PoolRangeSource::Symbols { start: "MmNonPagedPoolStart", end: "MiNonPagedPoolEnd" },
            ),
            _ => None::<PoolRangeSource>,
        },
{
    match v {
        WindowsVersion::WindowsFastRing => Some(
            PoolRangeSource::MiState {
                first: "_MI_SYSTEM_INFORMATION.Hardware.SystemNodeNonPagedPool.NonPagedPoolFirstVa",
                last: "_MI_SYSTEM_INFORMATION.Hardware.SystemNodeNonPagedPool.NonPagedPoolLastVa",
            },
        ),
        WindowsVersion::Windows10_2018 | WindowsVersion::Windows10_2019 => Some(
            PoolRangeSource::MiState {
                first: "_MI_SYSTEM_INFORMATION.Hardware.SystemNodeInformation.NonPagedPoolFirstVa",
                last: "_MI_SYSTEM_INFORMATION.Hardware.SystemNodeInformation.NonPagedPoolLastVa",
            },
        ),
        WindowsVersion::Windows7 => Some(
            PoolRangeSource::Symbols { start: "MmNonPagedPoolStart", end: "MiNonPagedPoolEnd" },
        ),
        _ => None,
    }
}

/// Kernel objects found by pool-tag carving.
#[derive(Clone, Copy, Debug, PartialEq, Eq, Structural)]
pub enum ObjectKind {
    Process,
    Thread,
    File,
    Driver,
    LoadedModule,
}

pub open spec fn spec_pool_tag(kind: ObjectKind, old: bool) -> Seq<u8> {
    match kind {
        ObjectKind::Process => if old { seq![0x50u8, 0x72, 0x6f, 0xe3] } else { seq![0x50u8, 0x72, 0x6f, 0x63] },
        ObjectKind::Thread => if old { seq![0x54u8, 0x68, 0x72, 0xe5] } else { seq![0x54u8, 0x68, 0x72, 0x65] },
        ObjectKind::File => if old { seq![0x46u8, 0x69, 0x6c, 0xe5] } else { seq![0x46u8, 0x69, 0x6c, 0x65] },
        ObjectKind::Driver => if old { seq![0x44u8, 0x72, 0x69, 0xf6] } else { seq![0x44u8, 0x72, 0x69, 0x76] },
        ObjectKind::LoadedModule => seq![0x4du8, 0x6d, 0x4c, 0x64],
    }
}

/// Allocation tag of `kind` (`Proc`, `Thre`, `File`, `Driv`, `MmLd`), or
/// its legacy variant when `old`.
pub fn pool_tag(kind: ObjectKind, old: bool) -> (r: [u8; 4])
    ensures
        r@ == spec_pool_tag(kind, old),
{
    let r: [u8; 4] = match kind {
        ObjectKind::Process => if old { [0x50, 0x72, 0x6f, 0xe3] } else { [0x50, 0x72, 0x6f, 0x63] },
        ObjectKind::Thread => if old { [0x54, 0x68, 0x72, 0xe5] } else { [0x54, 0x68, 0x72, 0x65] },
        ObjectKind::File => if old { [0x46, 0x69, 0x6c, 0xe5] } else { [0x46, 0x69, 0x6c, 0x65] },
        ObjectKind::Driver => if old { [0x44, 0x72, 0x69, 0xf6] } else { [0x44, 0x72, 0x69, 0x76] },
        ObjectKind::LoadedModule => [0x4d, 0x6d, 0x4c, 0x64],
    };
    assert(r@ =~= spec_pool_tag(kind, old));
    r
}

/// Device type of the driver's control device.
pub const SIOCTL_TYPE: u32 = 40000;

pub const METHOD_IN_DIRECT: u32 = 1;

pub const METHOD_OUT_DIRECT: u32 = 2;

pub const METHOD_NEITHER: u32 = 3;

pub const FILE_ANY_ACCESS: u32 = 0;

pub open spec fn spec_ctl_code(device_type: u32, function: u32, method: u32, access: u32) -> u32 {
    (device_type << 16u32) | (access << 14u32) | (function << 2u32) | method
}

/// A device control code from its four parts.
pub fn ctl_code(device_type: u32, function: u32, method: u32, access: u32) -> (r: u32)
    ensures
        r == spec_ctl_code(device_type, function, method, access),
{
    (device_type << 16u32) | (access << 14u32) | (function << 2u32) | method
}

/// Requests the driver understands.
#[derive(Clone, Copy, Debug, PartialEq, Eq, Structural)]
pub enum DriverAction {
    SetupOffset,
    GetKernelBase,
    ScanPsActiveHead,
    ScanPool,
    ScanPoolRemote,
    DereferenceAddress,
    DereferencePhysicalAddress,
    HideProcess,
}

impl DriverAction {
    pub open spec fn spec_function(&self) -> (u32, u32) {
        match self {
            DriverAction::SetupOffset => (0x900, METHOD_IN_DIRECT),
            DriverAction::GetKernelBase => (0x901, METHOD_OUT_DIRECT),
            DriverAction::ScanPsActiveHead => (0x902, METHOD_NEITHER),
            DriverAction::ScanPool => (0x903, METHOD_IN_DIRECT),
            DriverAction::ScanPoolRemote => (0x904, METHOD_IN_DIRECT),
            DriverAction::DereferenceAddress => (0xA00, METHOD_OUT_DIRECT),
            DriverAction::DereferencePhysicalAddress => (0xA01, METHOD_OUT_DIRECT),
            DriverAction::HideProcess => (0xA02, METHOD_IN_DIRECT),
        }
    }

    /// Control code of the request.
    pub fn get_code(&self) -> (r: u32)
        ensures
            r == spec_ctl_code(SIOCTL_TYPE, self.spec_function().0, self.spec_function().1, FILE_ANY_ACCESS),
    {
        let (function, method): (u32, u32) = match self {
            DriverAction::SetupOffset => (0x900, METHOD_IN_DIRECT),
            DriverAction::GetKernelBase => (0x901, METHOD_OUT_DIRECT),
            DriverAction::ScanPsActiveHead => (0x902, METHOD_NEITHER),
            DriverAction::ScanPool => (0x903, METHOD_IN_DIRECT),
            DriverAction::ScanPoolRemote => (0x904, METHOD_IN_DIRECT),
            DriverAction::DereferenceAddress => (0xA00, METHOD_OUT_DIRECT),
            DriverAction::DereferencePhysicalAddress => (0xA01, METHOD_OUT_DIRECT),
            DriverAction::HideProcess => (0xA02, METHOD_IN_DIRECT),
        };
        ctl_code(SIOCTL_TYPE, function, method, FILE_ANY_ACCESS)
    }
}

/// Read request: `size` bytes at `addr`.
#[derive(Clone, Copy, Debug, PartialEq, Eq, Structural)]
pub struct DerefAddr {
    pub addr: u64,
    pub size: u64,
}

/// Tag-search request over `[start, end)`.
#[derive(Clone, Copy, Debug, PartialEq, Eq, Structural)]
pub struct ScanPoolData {
    pub start: u64,
    pub end: u64,
    pub tag: u32,
}

pub open spec fn spec_le_u32(b: Seq<u8>) -> u32 {
    (b[0] as u32) | ((b[1] as u32) << 8u32) | ((b[2] as u32) << 16u32) | ((b[3] as u32) << 24u32)
}

impl ScanPoolData {
    /// Request for the range `arr[0] .. arr[1]`; the tag is read as a
    /// little-endian word.
    pub fn new(arr: &[u64; 2], tag: &[u8; 4]) -> (r: ScanPoolData)
        ensures
            r.start == arr@[0],
            r.end == arr@[1],
            r.tag == spec_le_u32(tag@),
    {
        let tag_word = (tag[0] as u32) | ((tag[1] as u32) << 8u32) | ((tag[2] as u32) << 16u32) | ((
        tag[3] as u32) << 24u32);
        ScanPoolData { start: arr[0], end: arr[1], tag: tag_word }
    }
}

/// Longest process image name the kernel keeps.
pub const IMAGE_NAME_LEN: usize = 15;

/// Request to unlink the process whose image name is `name[..size]`.
#[derive(Clone, Copy, Debug)]
pub struct HideProcess {
    pub name: [u8; 15],
    pub size: u64,
}

impl HideProcess {
    pub fn new(image_name: &[u8]) -> (r: HideProcess)
        requires
            image_name@.len() <= IMAGE_NAME_LEN,
        ensures
            r.size == image_name@.len(),
            r.name@.subrange(0, image_name@.len() as int) == image_name@,
            forall|i: int| image_name@.len() <= i < 15 ==> r.name@[i] == 0,
    {
        let mut name = [0u8; 15];
        let mut i: usize = 0;
        while i < image_name.len()
            invariant
                i <= image_name@.len() <= 15,
                name@.len() == 15,
                forall|j: int| 0 <= j < i ==> name@[j] == image_name@[j],
                forall|j: int| image_name@.len() <= j < 15 ==> name@[j] == 0,
            decreases image_name@.len() - i,
        {
            name[i] = image_name[i];
            i += 1;
        }
        assert(name@.subrange(0, image_name@.len() as int) =~= image_name@);
        HideProcess { name, size: image_name.len() as u64 }
    }
}

/// Empty payload.
#[derive(Clone, Copy, Debug, PartialEq, Eq, Structural)]
pub struct Nothing;

/// Offsets pushed into the driver at start-up.
#[derive(Clone, Copy, Debug, PartialEq, Eq, Structural)]
pub struct OffsetData {
    pub eprocess_name_offset: u64,
    pub eprocess_link_offset: u64,
    pub list_blink_offset: u64,
    pub process_head_offset: u64,
    pub mistate_offset: u64,
    pub hardware_offset: u64,
    pub system_node_offset: u64,
    pub first_va_offset: u64,
    pub last_va_offset: u64,
    pub large_page_table_offset: u64,
    pub large_page_size_offset: u64,
    pub pool_chunk_size: u64,
}

pub open spec fn offset_or_zero(store: &PdbStore, name: Seq<char>) -> u64 {
    match store.spec_offset(name) {
        Ok(v) => v,
        Err(_) => 0,
    }
}

fn get_or_zero(store: &PdbStore, name: &str) -> (r: u64)
    ensures
        r == offset_or_zero(store, name@),
{
    match store.get_offset(name) {
        Some(v) => v,
        None => 0,
    }
}

impl OffsetData {
    /// Offsets for a fast-ring release (missing ones are 0); all 0 for
    /// other releases.
    pub fn new(store: &PdbStore, version: WindowsVersion) -> (r: OffsetData)
        ensures
            version != WindowsVersion::WindowsFastRing ==> r == (OffsetData {
                eprocess_name_offset: 0,
                eprocess_link_offset: 0,
                list_blink_offset: 0,
                process_head_offset: 0,
                mistate_offset: 0,
                hardware_offset: 0,
                system_node_offset: 0,
                first_va_offset: 0,
                last_va_offset: 0,
                large_page_table_offset: 0,
                large_page_size_offset: 0,
                pool_chunk_size: 0,
            }),
            version == WindowsVersion::WindowsFastRing ==> {
                &&& r.eprocess_name_offset == offset_or_zero(store, "_EPROCESS.ImageFileName"@)
                &&& r.eprocess_link_offset == offset_or_zero(store, "_EPROCESS.ActiveProcessLinks"@)
                &&& r.list_blink_offset == offset_or_zero(store, "_LIST_ENTRY.Blink"@)
                &&& r.process_head_offset == offset_or_zero(store, "PsActiveProcessHead"@)
                &&& r.mistate_offset == offset_or_zero(store, "MiState"@)
                &&& r.hardware_offset == offset_or_zero(store, "_MI_SYSTEM_INFORMATION.Hardware"@)
                &&& r.system_node_offset == offset_or_zero(store, "_MI_HARDWARE_STATE.SystemNodeNonPagedPool"@)
                &&& r.first_va_offset == offset_or_zero(store, "_MI_SYSTEM_NODE_NONPAGED_POOL.NonPagedPoolFirstVa"@)
                &&& r.last_va_offset == offset_or_zero(store, "_MI_SYSTEM_NODE_NONPAGED_POOL.NonPagedPoolLastVa"@)
                &&& r.large_page_table_offset == offset_or_zero(store, "PoolBigPageTable"@)
                &&& r.large_page_size_offset == offset_or_zero(store, "PoolBigPageTableSize"@)
                &&& r.pool_chunk_size == offset_or_zero(store, "_POOL_HEADER.struct_size"@)
            },
    {
        match version {
            WindowsVersion::WindowsFastRing => OffsetData {
                eprocess_name_offset: get_or_zero(store, "_EPROCESS.ImageFileName"),
                eprocess_link_offset: get_or_zero(store, "_EPROCESS.ActiveProcessLinks"),
                list_blink_offset: get_or_zero(store, "_LIST_ENTRY.Blink"),
                process_head_offset: get_or_zero(store, "PsActiveProcessHead"),
                mistate_offset: get_or_zero(store, "MiState"),
                hardware_offset: get_or_zero(store, "_MI_SYSTEM_INFORMATION.Hardware"),
                system_node_offset: get_or_zero(store, "_MI_HARDWARE_STATE.SystemNodeNonPagedPool"),
                first_va_offset: get_or_zero(store, "_MI_SYSTEM_NODE_NONPAGED_POOL.NonPagedPoolFirstVa"),
                last_va_offset: get_or_zero(store, "_MI_SYSTEM_NODE_NONPAGED_POOL.NonPagedPoolLastVa"),
                large_page_table_offset: get_or_zero(store, "PoolBigPageTable"),
                large_page_size_offset: get_or_zero(store, "PoolBigPageTableSize"),
                pool_chunk_size: get_or_zero(store, "_POOL_HEADER.struct_size"),
            },
            _ => OffsetData {
                eprocess_name_offset: 0,
                eprocess_link_offset: 0,
                list_blink_offset: 0,
                process_head_offset: 0,
                mistate_offset: 0,
                hardware_offset: 0,
                system_node_offset: 0,
                first_va_offset: 0,
                last_va_offset: 0,
                large_page_table_offset: 0,
                large_page_size_offset: 0,
                pool_chunk_size: 0,
            },
        }
    }
}

/// 100-nanosecond ticks from 1601-01-01 to 1970-01-01.
pub const WINDOWS_EPOCH_DIFF: u64 = 116_444_736_000_000_000;

/// Grace before boot within which a creation time still counts (10 min).
pub const BOOT_GRACE_MS: u64 = 600_000;

/// Milliseconds since the Unix epoch of a file time; 0 before the epoch.
pub fn to_epoch(filetime: u64) -> (r: u64)
    ensures
        r == if filetime < WINDOWS_EPOCH_DIFF {
            0
        } else {
            ((filetime - WINDOWS_EPOCH_DIFF) / 10_000) as u64
        },
{
    if filetime < WINDOWS_EPOCH_DIFF {
        return 0;
    }
    (filetime - WINDOWS_EPOCH_DIFF) / 10_000
}

/// Seconds since the Unix epoch of a file time; 0 before the epoch.
pub fn to_epoch_seconds(filetime: u64) -> (r: u64)
    ensures
        r == if filetime < WINDOWS_EPOCH_DIFF {
            0
        } else {
            ((filetime - WINDOWS_EPOCH_DIFF) / 10_000_000) as u64
        },
{
    if filetime < WINDOWS_EPOCH_DIFF {
        return 0;
    }
    (filetime - WINDOWS_EPOCH_DIFF) / 10_000_000
}

/// A creation time is plausible when it lies between ten minutes before
/// boot (`now_ms - uptime_ms`) and now, all in Unix milliseconds.
pub fn valid_process_time(filetime: u64, now_ms: u64, uptime_ms: u64) -> (r: bool)
    ensures
        r == (filetime >= WINDOWS_EPOCH_DIFF && ({
            let t = (filetime - WINDOWS_EPOCH_DIFF) / 10_000;
            let boot = now_ms - uptime_ms - BOOT_GRACE_MS;
            (boot <= t || boot < 0) && t <= now_ms
        })),
{
    if filetime < WINDOWS_EPOCH_DIFF {
        return false;
    }
    let t = (filetime - WINDOWS_EPOCH_DIFF) / 10_000;
    let earliest = if now_ms < uptime_ms || now_ms - uptime_ms < BOOT_GRACE_MS {
        0
    } else {
        now_ms - uptime_ms - BOOT_GRACE_MS
    };
    earliest <= t && t <= now_ms
}

} // verus!
