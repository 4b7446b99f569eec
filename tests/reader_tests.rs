use lpus::address::Address;
use lpus::carver::{find_thread_object, is_driver_object, is_file_object, PoolChunk};
use lpus::codeview::{find_codeview, guid_display_order};
use lpus::records::{read_process, read_thread};
use lpus::lists::{walk_chain, ListError};
use lpus::reader::{address_of, decompose_value};
use lpus::symbols::{FieldInfo, Member, PdbStore, SymbolError};
use lpus::translate::{is_valid_entry, translate_addr, TranslateError};
use std::collections::HashMap;

fn member(name: &str, ty: &str, offset: u64, bit_pos: u64, bit_len: u64) -> Member {
    Member { name: name.to_string(), info: FieldInfo { ty: ty.to_string(), offset, bit_pos, bit_len } }
}

fn store() -> PdbStore {
    let mut s = PdbStore::new();
    s.insert_struct(
        "_EPROCESS".to_string(),
        0x800,
        vec![member("UniqueProcessId", "Void*", 0x440, 0, 64), member("ImageFilePointer", "_FILE_OBJECT*", 0x5a0, 0, 64), member("Flags", "Uint4B", 0x464, 3, 2)],
    );
    s.insert_struct("_FILE_OBJECT".to_string(), 0xd8, vec![member("FileName", "_UNICODE_STRING", 0x58, 0, 128)]);
    s.insert_symbol("PsActiveProcessHead".to_string(), 0x10);
    s.insert_symbol("PsInitialSystemProcess".to_string(), 0x10);
    s
}

#[test]
fn field_values_are_read_and_masked() {
    let s = store();
    let root = Address::from_base(0x1000);
    let mem = |a: u64| match a {
        0x1440 => 4,
        0x1464 => 0b11010,
        _ => 0,
    };
    assert_eq!(decompose_value(&s, &root, "_EPROCESS.UniqueProcessId", &mem), Ok(4));
    assert_eq!(decompose_value(&s, &root, "_EPROCESS.Flags", &mem), Ok(0b11));
    assert_eq!(decompose_value(&s, &root, "_EPROCESS.Nope", &mem), Err(SymbolError::UnknownField));
}

#[test]
fn field_addresses_follow_pointers() {
    let s = store();
    let root = Address::from_base(0x1000);
    let mem = |a: u64| if a == 0x15a0 { 0x9000 } else { 0 };
    assert_eq!(address_of(&s, &root, "_EPROCESS.ImageFilePointer.FileName", &mem), Ok(0x9058));
    let null = |_a: u64| 0u64;
    assert_eq!(address_of(&s, &root, "_EPROCESS.ImageFilePointer.FileName", &null), Ok(0));
}

#[test]
fn listing_is_sorted_by_offset() {
    let s = store();
    let (size, list) = s.dt("_EPROCESS").unwrap();
    assert_eq!(size, 0x800);
    let offsets: Vec<u64> = list.iter().map(|m| m.offset).collect();
    assert_eq!(offsets, vec![0x440, 0x464, 0x5a0]);
    assert_eq!(list[1].name, "Flags");
    assert_eq!(list[2].ty, "_FILE_OBJECT*");
    assert_eq!(s.dt("_KTHREAD").err(), Some(SymbolError::UnknownStruct));
}

#[test]
fn symbol_by_offset() {
    let s = store();
    assert_eq!(s.symbol_at(0x10).map(|n| n.as_str()), Some("PsActiveProcessHead"));
    assert_eq!(s.symbol_at(0x11), None);
}

#[test]
fn device_chains_end_at_null() {
    let mem = |a: u64| match a {
        0x1010 => 0x2000,
        0x2010 => 0x3000,
        _ => 0,
    };
    assert_eq!(walk_chain(0x1000, 0x10, 8, &mem), Ok(vec![0x1000, 0x2000, 0x3000]));
    assert_eq!(walk_chain(0, 0x10, 8, &mem), Ok(vec![]));
    let looping = |a: u64| if a == 0x1010 { 0x1000 } else { 0 };
    assert_eq!(walk_chain(0x1000, 0x10, 8, &looping), Err(ListError::Corrupt));
}

#[test]
fn object_discriminators() {
    assert!(is_file_object(5, 0xd8, 0xd8));
    assert!(!is_file_object(4, 0xd8, 0xd8));
    assert!(!is_file_object(5, 0xd0, 0xd8));
    assert!(is_driver_object(0x150, 0x150));
    assert!(!is_driver_object(0x10, 0x150));
}

#[test]
fn virtual_address_translation() {
    let mut m = HashMap::new();
    let vaddr: u64 = 0x0000_7ff6_1234_5678;
    let cr3: u64 = 0x1000;
    let i4 = (vaddr >> 39) & 0x1ff;
    let i3 = (vaddr >> 30) & 0x1ff;
    let i2 = (vaddr >> 21) & 0x1ff;
    let i1 = (vaddr >> 12) & 0x1ff;
    m.insert(0x1000 + i4 * 8, 0x2000 | 1);
    m.insert(0x2000 + i3 * 8, 0x3000 | 1);
    m.insert(0x3000 + i2 * 8, 0x4000 | 1);
    m.insert(0x4000 + i1 * 8, 0xABC000 | 1);
    let read = |a: u64| *m.get(&a).unwrap_or(&0);
    assert_eq!(translate_addr(cr3, vaddr, &read), Ok(0xABC678));
    assert_eq!(translate_addr(0x9000, vaddr, &read), Err(TranslateError::InvalidPml4e));
    assert!(is_valid_entry(1));
    assert!(!is_valid_entry(0));
    assert!(!is_valid_entry(0x1000));
}

#[test]
fn codeview_record_is_found() {
    let mut image = vec![0u8; 8];
    image.extend_from_slice(b"RSDS");
    image.extend((1..=16).map(|b| b as u8));
    image.extend_from_slice(&7u32.to_le_bytes());
    image.extend_from_slice(b"ntkrnlmp.pdb\0");
    let id = find_codeview(&image).unwrap();
    assert_eq!(id.age, 7);
    assert_eq!(id.guid[0], 1);
    assert_eq!(guid_display_order(&id.guid)[..8], [4, 3, 2, 1, 6, 5, 8, 7]);
    let mut unaligned = vec![0u8; 6];
    unaligned.extend_from_slice(b"RSDS");
    unaligned.extend(vec![0u8; 24]);
    assert!(find_codeview(&unaligned).is_none());
    let cut = b"\0\0\0\0RSDS\x01\x02".to_vec();
    assert!(find_codeview(&cut).is_none());
}

#[test]
fn thread_and_process_records() {
    let mut s = PdbStore::new();
    s.insert_struct("_CLIENT_ID".to_string(), 0x10, vec![member("UniqueProcess", "Void*", 0, 0, 64), member("UniqueThread", "Void*", 8, 0, 64)]);
    s.insert_struct("_KTHREAD".to_string(), 0x400, vec![member("Process", "_KPROCESS*", 0x220, 0, 64), member("State", "UChar", 0x184, 0, 8), member("WaitReason", "UChar", 0x283, 0, 8)]);
    s.insert_struct(
        "_ETHREAD".to_string(),
        0x500,
        vec![member("Tcb", "_KTHREAD", 0, 0, 0x2000), member("Cid", "_CLIENT_ID", 0x478, 0, 128), member("CrossThreadFlags", "Uint4B", 0x510, 0, 32)],
    );
    let mem = |a: u64| match a {
        0x10478 => 4,
        0x10480 => 0x88,
        0x10220 => 0xffff_8000_1234_0000,
        0x10184 => 0x1205,
        0x10283 => 0x0d,
        0x10510 => 0x1_0000_0002,
        _ => 0,
    };
    let t = read_thread(&s, 0x10000, &mem).unwrap();
    assert_eq!((t.pid, t.tid), (4, 0x88));
    assert_eq!(t.eprocess, 0xffff_8000_1234_0000);
    assert_eq!(t.state, 5);
    assert_eq!(t.wait_reason, 0x0d);
    assert_eq!(t.cross_thread_flags, 2);
    assert_eq!(t.name_ptr, 0);
    assert_eq!(read_process(&s, 0x10000, &mem).err(), Some(SymbolError::UnknownStruct));
}

#[test]
fn thread_locator_prefers_exact_fit() {
    let exact = PoolChunk { pool_addr: 0x1000, chunk_size: 0x10 + 0x30 + 0x500, data_addr: 0x1010 };
    assert_eq!(find_thread_object(exact, 0x10, 0x30, 0x500, &|_a: u64| false), Some(0x1040));
    let roomy = PoolChunk { pool_addr: 0x1000, chunk_size: 0x600, data_addr: 0x1010 };
    assert_eq!(find_thread_object(roomy, 0x10, 0x30, 0x500, &|a: u64| a == 0x1050), Some(0x1050));
}

#[test]
fn translation_reports_the_failing_level() {
    let vaddr: u64 = 0x1000;
    let mut m = HashMap::new();
    m.insert(0x1000u64, 0x2000u64 | 1);
    let read = |a: u64| *m.get(&a).unwrap_or(&0);
    assert_eq!(translate_addr(0x1000, vaddr, &read), Err(TranslateError::InvalidPdpte));
    m.insert(0x2000, 0x3000 | 1);
    let read = |a: u64| *m.get(&a).unwrap_or(&0);
    assert_eq!(translate_addr(0x1000, vaddr, &read), Err(TranslateError::InvalidPde));
    m.insert(0x3000, 0x4000 | 1);
    let read = |a: u64| *m.get(&a).unwrap_or(&0);
    assert_eq!(translate_addr(0x1000, vaddr, &read), Err(TranslateError::InvalidPte));
    m.insert(0x4008, 0x7000 | 1);
    let read = |a: u64| *m.get(&a).unwrap_or(&0);
    assert_eq!(translate_addr(0x1000, vaddr, &read), Ok(0x7000));
}
