use zq_hid::matcher::{select_device, BusKind, DeviceRecord};
use zq_hid::settings::HidSettings;

fn device(vendor_id: u16, product_id: u16, usage_page: u16, usage: u16) -> DeviceRecord {
    DeviceRecord {
        vendor_id,
        product_id,
        usage_page,
        usage,
        path: "/dev/hidraw0".to_string(),
        interface_number: 1,
        release_number: 0x0100,
        bus: BusKind::Usb,
        manufacturer: None,
        product: None,
        serial: None,
        manufacturer_raw: None,
        product_raw: None,
        serial_raw: None,
    }
}

fn target(vendor_id: u16, product_id: u16, usage_page: u16, usage: u16) -> HidSettings {
    HidSettings { vendor_id, product_id, usage_page, usage }
}

#[test]
fn usage_decides_between_same_ids() {
    // Two candidates with identical vendor/product ids but different
    // usage/usage page; the target matches only the second.
    let devices = vec![
        device(0x5957, 0x0200, 0x0001, 0x0006),
        device(0x5957, 0x0200, 0xFF60, 0x0061),
    ];
    let t = target(0x5957, 0x0200, 0xFF60, 0x0061);
    assert_eq!(select_device(&devices, &t), Some(1));
}

#[test]
fn usage_fallback_matches_any_target_usage() {
    // A candidate that reports neither usage nor usage page matches on
    // vendor/product alone, whatever usage the target asks for.
    for (up, u) in [(0xFF60u16, 0x61u16), (0x0001, 0x0006), (0, 0), (0xFFFF, 0xFFFF)] {
        let t = target(0x5957, 0x0200, up, u);
        let devices = vec![device(0x5957, 0x0200, 0, 0)];
        assert_eq!(select_device(&devices, &t), Some(0));
    }
}

#[test]
fn no_match_returns_none() {
    let devices = vec![
        device(0x1234, 0x0200, 0xFF60, 0x0061),
        device(0x5957, 0x9999, 0xFF60, 0x0061),
        device(0x5957, 0x0200, 0xFF60, 0x0062),
    ];
    let t = target(0x5957, 0x0200, 0xFF60, 0x0061);
    assert_eq!(select_device(&devices, &t), None);
    assert_eq!(select_device(&Vec::new(), &t), None);
}

#[test]
fn first_match_in_enumeration_order_wins() {
    let devices = vec![
        device(0x0000, 0x0000, 0, 0),
        device(0x5957, 0x0200, 0xFF60, 0x0061),
        device(0x5957, 0x0200, 0xFF60, 0x0061),
    ];
    let t = target(0x5957, 0x0200, 0xFF60, 0x0061);
    assert_eq!(select_device(&devices, &t), Some(1));
}

#[test]
fn identity_line_rendering() {
    let d = device(0x5957, 0x0200, 0xFF60, 0x0061);
    assert_eq!(
        d.identity_line(3),
        "#3: 5957:0200 path:/dev/hidraw0 iface:1 rel:0x0100 bus:Usb usage_page=0xff60 usage=0x0061"
    );
}

#[test]
fn strings_line_rendering() {
    let mut d = device(0x5957, 0x0200, 0xFF60, 0x0061);
    d.manufacturer = Some("ZQ".to_string());
    d.manufacturer_raw = Some(vec![0x5A, 0x51]);
    d.serial_raw = Some(vec![]);
    assert_eq!(
        d.strings_line(),
        "mfr:Some(\"ZQ\") (raw:005a 0051) prod:None (raw:-) serial:None (raw:empty)"
    );
}
