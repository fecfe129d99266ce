use zq_hid::codec::parse_layer_report;
use zq_hid::format::mask_to_layer_list;

#[test]
fn short_buffers_rejected() {
    let cases: Vec<Vec<u8>> = vec![
        vec![],
        vec![0xFF],
        vec![0xFF, 0x01],
        vec![0xFF, 0x01, 0x00],
        vec![0xFF, 0x01, 0x00, 0x03],
    ];
    for case in cases {
        assert!(parse_layer_report(&case).is_none());
    }
}

#[test]
fn bad_header_rejected() {
    // Each header byte wrong on its own, and combinations.
    let cases: Vec<Vec<u8>> = vec![
        vec![0xFE, 0x01, 0x00, 0x03, 0x05],
        vec![0x00, 0x01, 0x00, 0x03, 0x05],
        vec![0xFF, 0x02, 0x00, 0x03, 0x05],
        vec![0xFF, 0x00, 0x00, 0x03, 0x05],
        vec![0xFF, 0x01, 0x01, 0x03, 0x05],
        vec![0xFF, 0x01, 0xFF, 0x03, 0x05],
        vec![0x00, 0x00, 0x01, 0x03, 0x05],
        vec![0x01, 0xFF, 0x02, 0x03, 0x05, 0x06, 0x07],
    ];
    for case in cases {
        assert!(parse_layer_report(&case).is_none());
    }
}

#[test]
fn decode_example_report() {
    let buf: Vec<u8> = vec![0xFF, 0x01, 0x00, 0x03, 0b0000_0101, 0xAA, 0xBB];
    let report = parse_layer_report(&buf).expect("valid report");
    assert_eq!(report.version, 1);
    assert_eq!(report.highest_layer, 3);
    assert_eq!(report.mask, 0b0000_0101);
    assert_eq!(report.raw, buf);
    assert_eq!(mask_to_layer_list(report.mask), "0,2");
}

#[test]
fn padding_bytes_ignored() {
    let short = vec![0xFF, 0x01, 0x00, 0x02, 0x04];
    let long = vec![0xFF, 0x01, 0x00, 0x02, 0x04, 0x00, 0x00, 0x00, 0x99];
    let a = parse_layer_report(&short).expect("valid report");
    let b = parse_layer_report(&long).expect("valid report");
    assert_eq!(a.highest_layer, b.highest_layer);
    assert_eq!(a.mask, b.mask);
    assert_eq!(a.version, b.version);
    assert_eq!(b.raw.len(), 9);
}
