use tdtrap::idt::IdtEntry;
use tdtrap::idt::build_idt;
use tdtrap::idt::frame_error_code;
use tdtrap::idt::has_error_code;
use tdtrap::idt::idt_descriptor;
use tdtrap::idt::stub_table;

#[test]
fn no_handler_is_not_present() {
    let e = IdtEntry::no_handler();
    assert!(!e.present());
    assert_eq!(e.low_word(), 0);
    assert_eq!(e.high_word(), 0);
}

#[test]
fn entry_encoding_round_trips() {
    for addr in [
        0u64,
        0x1000,
        0xdead_beef_1234,
        0x1122_3344_5566_7788,
        0xffff_ffff_ffff_ffe0,
    ] {
        let e = IdtEntry::entry(addr);
        assert!(e.present());
        assert_eq!(e.target(), addr);
    }
}

#[test]
fn entry_splits_address_into_three_fields() {
    let e = IdtEntry::entry(0x1122_3344_5566_7788);
    assert_eq!(e.low_word(), 0x5566_8e00_0008_7788);
    assert_eq!(e.high_word(), 0x1122_3344);
}

#[test]
fn build_fills_every_vector_with_present_decodable_entries() {
    let base: u64 = 0x10_0000;
    let idt = build_idt(base);
    assert_eq!(idt.len(), 256);
    for (i, e) in idt.iter().enumerate() {
        assert!(e.present());
        assert_eq!(e.target(), base + 32 * i as u64);
        // code-segment selector field of every entry
        assert_eq!((e.low_word() >> 16) & 0xffff, 8);
        // alternate-stack index: no stack switch
        assert_eq!((e.low_word() >> 32) & 0x7, 0);
    }
}

#[test]
fn descriptor_is_size_minus_one_and_base() {
    let d = idt_descriptor(0x10_0000);
    assert_eq!(d.size, 256 * 16 - 1);
    assert_eq!(d.address, 0x10_0000);
}

#[test]
fn error_code_vectors_match_reference_set() {
    let reference = [8u8, 10, 11, 12, 13, 14, 17];
    for v in 0u8..32 {
        assert_eq!(has_error_code(v), reference.contains(&v), "vector {}", v);
    }
    for v in 32u16..=255 {
        assert!(!has_error_code(v as u8));
    }
}

#[test]
fn synthetic_zero_for_vectors_without_error_code() {
    assert_eq!(frame_error_code(14, 0x6), 0x6);
    assert_eq!(frame_error_code(8, 0), 0);
    assert_eq!(frame_error_code(3, 0x77), 0);
    assert_eq!(frame_error_code(32, 0xffff), 0);
}

#[test]
fn stub_table_has_fixed_stride() {
    let t = stub_table();
    assert_eq!(t.len(), 256);
    for (i, (vector, offset)) in t.iter().enumerate() {
        assert_eq!(*vector, i as u8);
        assert_eq!(*offset, 32 * i as u64);
    }
}
