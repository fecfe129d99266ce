//! End-to-end cycle over simulated enumeration and reads, driving the
//! state machine exactly as a host's watch loop does.

use zq_hid::codec::LayerReport;
use zq_hid::connection::{
    ConnectionManager, ConnectionState, ReadOutcome, ReadStep, SeekAction,
};
use zq_hid::matcher::{BusKind, DeviceRecord};
use zq_hid::settings::{read_hid_settings, AppSettings, HidSettings};
use zq_hid::shell::{update_tray_status, TrayStatus};

#[test]
fn end_to_end_single_report() {
    let app = AppSettings { hid: HidSettings::default() };
    let mut mgr = ConnectionManager::new(read_hid_settings(&app));
    let mut tray = TrayStatus { tooltip: None, title: None };
    let mut sink: Vec<LayerReport> = Vec::new();

    // Cycle 1: the spec is unchanged; disconnected, so seek over a fresh
    // snapshot that holds one matching device, and the open succeeds.
    assert!(!mgr.note_settings(read_hid_settings(&app)));
    let snapshot = vec![DeviceRecord {
        vendor_id: 0x5957,
        product_id: 0x0200,
        usage_page: 0xFF60,
        usage: 0x61,
        path: "/dev/hidraw2".to_string(),
        interface_number: 0,
        release_number: 0x0100,
        bus: BusKind::Usb,
        manufacturer: None,
        product: None,
        serial: None,
        manufacturer_raw: None,
        product_raw: None,
        serial_raw: None,
    }];
    match mgr.seek(&snapshot) {
        SeekAction::TryOpen(i) => {
            assert_eq!(i, 0);
            mgr.open_result(true);
        }
        other => panic!("expected an open request, got {:?}", other),
    }
    assert_eq!(mgr.state, ConnectionState::Connected);

    // Cycle 2: still connected; the simulated read yields a valid layer
    // buffer, which is decoded and forwarded to the sink and the tray.
    assert!(!mgr.note_settings(read_hid_settings(&app)));
    assert_eq!(mgr.seek(&snapshot), SeekAction::AlreadyConnected);
    let buffer = vec![0xFF, 0x01, 0x00, 0x03, 0b0000_0101];
    match mgr.handle_read(ReadOutcome::Data(buffer.clone())) {
        ReadStep::Report(report) => {
            update_tray_status(&mut tray, &report);
            sink.push(report);
        }
        _ => panic!("expected a decoded report"),
    }

    // The sink received exactly one report, with the decoded fields.
    assert_eq!(sink.len(), 1);
    assert_eq!(sink[0].version, 1);
    assert_eq!(sink[0].highest_layer, 3);
    assert_eq!(sink[0].mask, 0b0000_0101);
    assert_eq!(sink[0].raw, buffer);
    assert_eq!(tray.tooltip.as_deref(), Some("layer=3 active=[0,2]"));
    assert_eq!(tray.title.as_deref(), Some("layer=3 active=[0,2]"));
}
