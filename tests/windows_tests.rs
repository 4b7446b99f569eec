use lpus::objects::{
    decode_unicode_string, get_device_type, get_irp_name, thread_state_name, trim_null_bytes,
    trim_null_bytes_right, wait_reason_name, CrossThreadFlags, EprocessPoolChunk, UnicodeError,
    UnicodeStringHeader,
};
use lpus::symbols::{FieldInfo, Member, PdbStore};
use lpus::windows::{
    ctl_code, nonpaged_range_source, pool_tag, to_epoch, to_epoch_seconds, valid_process_time,
    DriverAction, HideProcess, ObjectKind, OffsetData, PoolRangeSource, ScanPoolData,
    WindowsVersion,
};

#[test]
fn build_numbers_map_to_releases() {
    assert_eq!(WindowsVersion::from_build_number(7601), WindowsVersion::Windows7);
    assert_eq!(WindowsVersion::from_build_number(17763), WindowsVersion::Windows10_2018);
    assert_eq!(WindowsVersion::from_build_number(18363), WindowsVersion::Windows10_2019);
    assert_eq!(WindowsVersion::from_build_number(19041), WindowsVersion::Windows10_2020);
    assert_eq!(WindowsVersion::from_build_number(19536), WindowsVersion::WindowsFastRing);
    assert_eq!(WindowsVersion::from_build_number(14393), WindowsVersion::Windows10_2016);
    assert_eq!(WindowsVersion::from_build_number(1), WindowsVersion::WindowsUnknown);
    assert!(WindowsVersion::Windows7.is_supported());
    assert!(!WindowsVersion::Windows8.is_supported());
    assert!(WindowsVersion::Windows10_2020.is_supported());
    assert!(WindowsVersion::Windows7.use_old_tag());
    assert!(!WindowsVersion::WindowsFastRing.use_old_tag());
}

#[test]
fn pool_range_sources() {
    match nonpaged_range_source(WindowsVersion::Windows7) {
        Some(PoolRangeSource::Symbols { start, end }) => {
            assert_eq!(start, "MmNonPagedPoolStart");
            assert_eq!(end, "MiNonPagedPoolEnd");
        }
        _ => panic!("expected symbols"),
    }
    assert!(nonpaged_range_source(WindowsVersion::Windows10_2020).is_none());
}

#[test]
fn tags_and_codes() {
    assert_eq!(&pool_tag(ObjectKind::Process, false), b"Proc");
    assert_eq!(&pool_tag(ObjectKind::Process, true), b"Pro\xe3");
    assert_eq!(&pool_tag(ObjectKind::Driver, true), b"Dri\xf6");
    assert_eq!(&pool_tag(ObjectKind::LoadedModule, true), b"MmLd");
    assert_eq!(ctl_code(40000, 0x901, 2, 0), (40000u32 << 16) | (0x901 << 2) | 2);
    assert_eq!(DriverAction::GetKernelBase.get_code(), (40000u32 << 16) | (0x901 << 2) | 2);
    assert_eq!(DriverAction::HideProcess.get_code(), (40000u32 << 16) | (0xA02 << 2) | 1);
    let d = ScanPoolData::new(&[0x10, 0x20], b"Proc");
    assert_eq!(d.tag, u32::from_le_bytes(*b"Proc"));
    assert_eq!((d.start, d.end), (0x10, 0x20));
    let h = HideProcess::new(b"notepad.exe");
    assert_eq!(h.size, 11);
    assert_eq!(&h.name[..11], b"notepad.exe");
    assert_eq!(h.name[11], 0);
}

#[test]
fn offsets_for_the_driver() {
    let mut store = PdbStore::new();
    store.insert_symbol("MiState".to_string(), 0x1234);
    store.insert_struct(
        "_EPROCESS".to_string(),
        0x800,
        vec![Member { name: "ImageFileName".to_string(), info: FieldInfo { ty: "UChar[15]".to_string(), offset: 0x5a8, bit_pos: 0, bit_len: 120 } }],
    );
    let fast = OffsetData::new(&store, WindowsVersion::WindowsFastRing);
    assert_eq!(fast.mistate_offset, 0x1234);
    assert_eq!(fast.eprocess_name_offset, 0x5a8);
    assert_eq!(fast.pool_chunk_size, 0);
    let other = OffsetData::new(&store, WindowsVersion::Windows7);
    assert_eq!(other.mistate_offset, 0);
}

#[test]
fn file_times() {
    let epoch = 116_444_736_000_000_000u64;
    assert_eq!(to_epoch(epoch - 1), 0);
    assert_eq!(to_epoch(epoch + 10_000 * 1500), 1500);
    assert_eq!(to_epoch_seconds(epoch + 10_000_000 * 42), 42);
    assert_eq!(to_epoch(0x01d64ecd8b295318), (0x01d64ecd8b295318u64 - epoch) / 10_000);
    let now = 1_700_000_000_000u64;
    let up = 3_600_000u64;
    let at = |ms: u64| epoch + ms * 10_000;
    assert!(valid_process_time(at(now - up), now, up));
    assert!(valid_process_time(at(now - up - 500_000), now, up));
    assert!(!valid_process_time(at(now - up - 700_000), now, up));
    assert!(!valid_process_time(at(now + 1), now, up));
    assert!(!valid_process_time(5, now, up));
}

#[test]
fn names_of_codes() {
    assert_eq!(get_irp_name(0), "IRP_MJ_CREATE");
    assert_eq!(get_irp_name(27), "IRP_MJ_PNP");
    assert_eq!(get_irp_name(28), "UNKNOWN");
    assert_eq!(get_device_type(0x27), "FILE_DEVICE_8042_PORT");
    assert_eq!(get_device_type(0x22), "FILE_DEVICE_UNKNOWN");
    assert_eq!(get_device_type(0x99), "UNKNOWN");
    assert_eq!(thread_state_name(5), "Waiting");
    assert_eq!(thread_state_name(9), "Unknown");
    assert_eq!(wait_reason_name(37), "MaximumWaitReason");
    assert_eq!(wait_reason_name(38), "Unknown");
}

#[test]
fn cross_thread_flags_follow_the_report() {
    let f = CrossThreadFlags::from_raw(0x2);
    assert!(!f.terminated);
    assert!(f.dead_thread);
    assert!(f.hide_from_debugger);
    assert!(!f.impersonating);
}

#[test]
fn trailing_zero_bytes_are_trimmed() {
    assert_eq!(trim_null_bytes_right(&b"lsass.exe\0\0\0".to_vec()), b"lsass.exe".to_vec());
    assert_eq!(trim_null_bytes(&vec![0, 1, 0]), vec![0, 1]);
    assert_eq!(trim_null_bytes(&vec![0, 0]), Vec::<u8>::new());
    assert_eq!(trim_null_bytes_right(&vec![]), Vec::<u8>::new());
}

#[test]
fn counted_strings_decode() {
    let h = UnicodeStringHeader { length: 6, maximum_length: 8, buffer: 0x1000 };
    let units: Vec<u16> = "abc".encode_utf16().collect();
    assert_eq!(decode_unicode_string(&h, &units), Ok("abc".to_string()));
    let odd = UnicodeStringHeader { length: 5, maximum_length: 8, buffer: 0x1000 };
    assert_eq!(decode_unicode_string(&odd, &units), Err(UnicodeError::Malformed));
    let null = UnicodeStringHeader { length: 6, maximum_length: 8, buffer: 0 };
    assert_eq!(decode_unicode_string(&null, &units), Err(UnicodeError::Malformed));
    let over = UnicodeStringHeader { length: 10, maximum_length: 8, buffer: 0x1000 };
    assert_eq!(decode_unicode_string(&over, &units), Err(UnicodeError::Malformed));
    let empty = UnicodeStringHeader { length: 0, maximum_length: 8, buffer: 0x1000 };
    assert_eq!(decode_unicode_string(&empty, &vec![]), Err(UnicodeError::Malformed));
    assert_eq!(decode_unicode_string(&h, &vec![0x61]), Err(UnicodeError::WrongLength));
    let bad = UnicodeStringHeader { length: 2, maximum_length: 2, buffer: 0x1000 };
    assert_eq!(decode_unicode_string(&bad, &vec![0xD800]), Err(UnicodeError::BadEncoding));
}

#[test]
fn pool_records_compare_by_object() {
    let a = EprocessPoolChunk { pool_addr: 1, eprocess_addr: 0x10, eprocess_name: "a".to_string(), create_time: 0, exit_time: 0 };
    let b = EprocessPoolChunk { pool_addr: 2, eprocess_addr: 0x10, eprocess_name: "b".to_string(), create_time: 1, exit_time: 1 };
    assert!(a == b);
}
