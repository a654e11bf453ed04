use bladerf::catalog::{c_field_text, c_text_len, collect_devices, device_selector, enumeration_plan, BladeRfDevInfo, RawDevInfo};

fn field(text: &[u8]) -> Vec<u8> {
    let mut v = vec![0u8; 33];
    v[..text.len()].copy_from_slice(text);
    v
}

fn raw(serial: &[u8]) -> RawDevInfo {
    RawDevInfo {
        backend: 1,
        serial: field(serial),
        usb_bus: 2,
        usb_addr: 7,
        instance: 0,
        manufacturer: field(b"Nuand"),
        product: field(b"bladeRF 2.0"),
    }
}

#[test]
fn selector_matches_serial_on_any_backend() {
    assert_eq!(device_selector("ABC123"), "*:serial=ABC123");
    assert_eq!(device_selector(""), "*:serial=");
}

#[test]
fn enumeration_with_count_and_null_list_reads_nothing() {
    let p = enumeration_plan(3, false);
    assert_eq!(p.copy, 0);
    assert!(!p.free_list);
}

#[test]
fn enumeration_of_no_devices_is_empty_and_frees_list() {
    let p = enumeration_plan(0, true);
    assert_eq!(p.copy, 0);
    assert!(p.free_list);
    let e = enumeration_plan(-7, true);
    assert_eq!(e.copy, 0);
    assert!(e.free_list);
    assert!(collect_devices(&[]).is_empty());
}

#[test]
fn enumeration_copies_every_listed_record() {
    let p = enumeration_plan(2, true);
    assert_eq!(p.copy, 2);
    assert!(p.free_list);
}

#[test]
fn text_ends_at_first_nul() {
    assert_eq!(c_text_len(&[65, 66, 0, 67]), 2);
    assert_eq!(c_text_len(&[65, 66, 67]), 3);
    assert_eq!(c_text_len(&[0, 66]), 0);
    assert_eq!(c_text_len(&[]), 0);
    assert_eq!(c_field_text(&[65, 66, 0, 67]), "AB");
    assert_eq!(c_field_text(&[104, 105]), "hi");
}

#[test]
fn invalid_utf8_is_replaced() {
    assert_eq!(c_field_text(&[0x66, 0xff, 0x6f, 0]), "f\u{fffd}o");
}

#[test]
fn descriptors_are_decoded_in_order() {
    let devs = collect_devices(&[raw(b"ABC123"), raw(b"0f1e")]);
    assert_eq!(devs.len(), 2);
    assert_eq!(devs[0].serial, "ABC123");
    assert_eq!(devs[1].serial, "0f1e");
    assert_eq!(devs[0].backend, 1);
    assert_eq!(devs[0].usb_bus, 2);
    assert_eq!(devs[0].usb_addr, 7);
    assert_eq!(devs[0].instance, 0);
    assert_eq!(devs[0].manufacturer, "Nuand");
    assert_eq!(devs[0].product, "bladeRF 2.0");
}

#[test]
fn descriptor_from_raw_record() {
    let d = BladeRfDevInfo::from(&raw(b"XYZ"));
    assert_eq!(d.serial, "XYZ");
    assert_eq!(d.serial.len(), 3);
}
