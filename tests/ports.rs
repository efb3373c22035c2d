use vscope_serial::ports::{filter_ports, PortFilter, PortInfo, PortKind};

fn usb(path: &str, vid: u16, pid: u16, manufacturer: &str) -> PortInfo {
    PortInfo::describe(
        path.to_string(),
        PortKind::Usb {
            vid,
            pid,
            manufacturer: Some(manufacturer.to_string()),
            product: Some("Scope".to_string()),
            serial_number: None,
        },
    )
}

fn sample() -> Vec<PortInfo> {
    vec![
        usb("/dev/ttyACM0", 0x1234, 0x0001, "Acme"),
        PortInfo::describe("/dev/ttyS0".to_string(), PortKind::Pci),
        usb("/dev/ttyUSB0", 0x0403, 0x6001, "FTDI"),
        PortInfo::describe("/dev/rfcomm0".to_string(), PortKind::Bluetooth),
    ]
}

fn paths(ports: &[PortInfo]) -> Vec<&str> {
    ports.iter().map(|p| p.path.as_str()).collect()
}

#[test]
fn describe_sets_tags_and_ids() {
    let p = usb("/dev/ttyACM0", 1, 2, "Acme");
    assert_eq!(p.port_type, "usb");
    assert_eq!(p.vid, Some(1));
    assert_eq!(p.pid, Some(2));
    let q = PortInfo::describe("x".to_string(), PortKind::Unknown);
    assert_eq!(q.port_type, "unknown");
    assert_eq!(q.vid, None);
    assert_eq!(q.manufacturer, None);
    assert_eq!(PortInfo::describe("y".to_string(), PortKind::Pci).port_type, "pci");
    assert_eq!(
        PortInfo::describe("z".to_string(), PortKind::Bluetooth).port_type,
        "bluetooth"
    );
}

#[test]
fn no_filter_keeps_all_in_order() {
    let out = filter_ports(sample(), &None);
    assert_eq!(
        paths(&out),
        vec!["/dev/ttyACM0", "/dev/ttyS0", "/dev/ttyUSB0", "/dev/rfcomm0"]
    );
}

#[test]
fn filter_by_vendor_and_product() {
    let f = PortFilter { vid: Some(0x0403), pid: None, name_substr: None };
    assert_eq!(paths(&filter_ports(sample(), &Some(f))), vec!["/dev/ttyUSB0"]);
    let f = PortFilter { vid: Some(0x0403), pid: Some(0x0001), name_substr: None };
    assert!(filter_ports(sample(), &Some(f)).is_empty());
}

#[test]
fn filter_by_name_ignores_case() {
    let f = PortFilter { vid: None, pid: None, name_substr: Some("ftdi".to_string()) };
    assert_eq!(paths(&filter_ports(sample(), &Some(f))), vec!["/dev/ttyUSB0"]);
    let f = PortFilter { vid: None, pid: None, name_substr: Some("TTY".to_string()) };
    assert_eq!(
        paths(&filter_ports(sample(), &Some(f))),
        vec!["/dev/ttyACM0", "/dev/ttyS0", "/dev/ttyUSB0"]
    );
    // the search text runs across fields: path then manufacturer
    let f = PortFilter { vid: None, pid: None, name_substr: Some("acm0acme".to_string()) };
    assert_eq!(paths(&filter_ports(sample(), &Some(f))), vec!["/dev/ttyACM0"]);
}
