use energy_spy::cstr::to_c_string;
use energy_spy::text::{
    address_string, class_found_message, class_missing_message, image_message, log_file_line,
    method_address_message,
};

#[test]
fn address_of_null() {
    assert_eq!(address_string(0), "0x0");
}

#[test]
fn addresses_in_lower_case_hex() {
    assert_eq!(address_string(255), "0xff");
    assert_eq!(address_string(16), "0x10");
    assert_eq!(address_string(0x1f40), "0x1f40");
    assert_eq!(address_string(u64::MAX), "0xffffffffffffffff");
}

#[test]
fn addresses_print_in_alternate_hex() {
    for a in [0u64, 1, 15, 16, 0xdead_beef, 0x7ff6_1234_5678, u64::MAX] {
        assert_eq!(address_string(a), format!("{:#x}", a));
    }
}

#[test]
fn address_text_reads_back() {
    for a in [0u64, 9, 10, 0xabc, 0x1000_0000, u64::MAX - 1] {
        let t = address_string(a);
        assert!(t.starts_with("0x"));
        assert_eq!(u64::from_str_radix(&t[2..], 16).unwrap(), a);
        assert!(a == 0 || !t[2..].starts_with('0'));
    }
}

#[test]
fn log_messages() {
    assert_eq!(image_message(0x20), "img ptr: 0x20");
    assert_eq!(class_missing_message("Foo"), "[-] Foo");
    assert_eq!(class_found_message("Foo"), "[+] FOUND CLASS: Foo");
    assert_eq!(method_address_message(0xbeef), "Please 0xbeef");
    assert_eq!(class_missing_message(""), "[-] ");
}

#[test]
fn log_file_line_ends_the_line() {
    assert_eq!(log_file_line("hello"), "hello\n");
    assert_eq!(log_file_line(""), "\n");
}

#[test]
fn c_string_of_ascii() {
    assert_eq!(to_c_string("abc"), Some(vec![97, 98, 99, 0]));
}

#[test]
fn c_string_of_empty() {
    assert_eq!(to_c_string(""), Some(vec![0]));
}

#[test]
fn c_string_of_multibyte() {
    assert_eq!(to_c_string("é€"), Some(vec![0xC3, 0xA9, 0xE2, 0x82, 0xAC, 0]));
    assert_eq!(to_c_string("😀"), Some(vec![0xF0, 0x9F, 0x98, 0x80, 0]));
}

#[test]
fn c_string_refuses_interior_nul() {
    assert_eq!(to_c_string("a\0b"), None);
    assert_eq!(to_c_string("\0"), None);
    assert_eq!(to_c_string("end\0"), None);
}

#[test]
fn c_string_round_trip() {
    for t in ["Example Plugin", "umamusume", "Gallop", "ÄÖÜ ß"] {
        let b = to_c_string(t).unwrap();
        assert_eq!(b.last(), Some(&0));
        assert_eq!(b.iter().filter(|&&x| x == 0).count(), 1);
        assert_eq!(std::str::from_utf8(&b[..b.len() - 1]).unwrap(), t);
    }
}
