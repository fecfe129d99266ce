use zq_hid::format::{
    format_wchar_raw, i32_to_dec, mask_to_layer_list, opt_string_debug, u32_to_hex, u32_to_hex4,
    u64_to_dec,
};

#[test]
fn mask_lists() {
    assert_eq!(mask_to_layer_list(0b0000_0000), "");
    assert_eq!(mask_to_layer_list(0b0000_0001), "0");
    assert_eq!(mask_to_layer_list(0b0000_0101), "0,2");
    assert_eq!(mask_to_layer_list(0b1000_0000), "7");
    assert_eq!(mask_to_layer_list(0xFF), "0,1,2,3,4,5,6,7");
}

#[test]
fn decimal_rendering() {
    assert_eq!(u64_to_dec(0), "0");
    assert_eq!(u64_to_dec(7), "7");
    assert_eq!(u64_to_dec(255), "255");
    assert_eq!(u64_to_dec(1000), "1000");
    assert_eq!(u64_to_dec(u64::MAX), "18446744073709551615");
}

#[test]
fn signed_decimal_rendering() {
    assert_eq!(i32_to_dec(0), "0");
    assert_eq!(i32_to_dec(42), "42");
    assert_eq!(i32_to_dec(-1), "-1");
    assert_eq!(i32_to_dec(i32::MIN), "-2147483648");
}

#[test]
fn hex_rendering() {
    assert_eq!(u32_to_hex(0), "0");
    assert_eq!(u32_to_hex(0x1A), "1a");
    assert_eq!(u32_to_hex4(0), "0000");
    assert_eq!(u32_to_hex4(0x61), "0061");
    assert_eq!(u32_to_hex4(0x5957), "5957");
    assert_eq!(u32_to_hex4(0xFF60), "ff60");
    assert_eq!(u32_to_hex4(0x12345), "12345");
    assert_eq!(u32_to_hex4(u32::MAX), "ffffffff");
}

#[test]
fn wchar_rendering() {
    assert_eq!(format_wchar_raw(None), "-");
    let empty: Vec<u32> = vec![];
    assert_eq!(format_wchar_raw(Some(&empty)), "empty");
    let data: Vec<u32> = vec![0x5A, 0x51, 0x1234];
    assert_eq!(format_wchar_raw(Some(&data)), "005a 0051 1234");
}

#[test]
fn optional_string_rendering() {
    assert_eq!(opt_string_debug(&None), "None");
    assert_eq!(opt_string_debug(&Some("ZQ Corp".to_string())), "Some(\"ZQ Corp\")");
}
