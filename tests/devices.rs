use tock_devices::devices::{
    list_all_devices, list_probes, list_serial_ports, serial_failure, summarize_port,
    summarize_probe, DebugProbeSummary, PortInfo, PortType, ProbeInfo, SerialPortSummary,
    UsbInfo,
};

fn probe(identifier: &str, vendor_id: u16, product_id: u16, serial: Option<&str>) -> ProbeInfo {
    ProbeInfo {
        identifier: identifier.to_string(),
        vendor_id,
        product_id,
        serial_number: serial.map(|s| s.to_string()),
    }
}

fn usb_port(name: &str, vid: u16, pid: u16) -> PortInfo {
    PortInfo {
        port_name: name.to_string(),
        port_type: PortType::UsbPort(UsbInfo {
            vid,
            pid,
            serial_number: Some("0001".to_string()),
            manufacturer: Some("SEGGER".to_string()),
            product: None,
        }),
    }
}

fn plain_port(name: &str, port_type: PortType) -> PortInfo {
    PortInfo { port_name: name.to_string(), port_type }
}

#[test]
fn probe_summary_projects_fields() {
    let s = summarize_probe(probe("ST-Link V2-1", 0x0483, 0x374b, Some("066DFF")));
    assert_eq!(
        s,
        DebugProbeSummary {
            identifier: "ST-Link V2-1".to_string(),
            vendor_id: 0x0483,
            product_id: 0x374b,
            serial_number: Some("066DFF".to_string()),
        }
    );
}

#[test]
fn usb_port_keeps_identity() {
    let s = summarize_port(usb_port("/dev/ttyACM0", 0x1366, 0x1051));
    assert_eq!(
        s,
        SerialPortSummary {
            port_name: "/dev/ttyACM0".to_string(),
            usb_vid: Some(0x1366),
            usb_pid: Some(0x1051),
            manufacturer: Some("SEGGER".to_string()),
            product: None,
            serial_number: Some("0001".to_string()),
        }
    );
}

#[test]
fn non_usb_ports_have_no_identity() {
    for kind in [PortType::PciPort, PortType::BluetoothPort, PortType::Unknown] {
        let s = summarize_port(plain_port("/dev/ttyS0", kind));
        assert_eq!(s.port_name, "/dev/ttyS0");
        assert_eq!(s.usb_vid, None);
        assert_eq!(s.usb_pid, None);
        assert_eq!(s.manufacturer, None);
        assert_eq!(s.product, None);
        assert_eq!(s.serial_number, None);
    }
}

#[test]
fn snapshot_shape() {
    let probes = vec![
        probe("J-Link", 0x1366, 0x0105, Some("000123")),
        probe("CMSIS-DAP", 0x0d28, 0x0204, None),
    ];
    let ports = vec![
        usb_port("/dev/ttyACM0", 0x0d28, 0x0204),
        plain_port("/dev/ttyS0", PortType::PciPort),
        usb_port("/dev/ttyACM1", 0x1366, 0x1051),
    ];
    let d = list_all_devices(probes, Ok(ports)).unwrap();
    assert_eq!(d.debug_probes.len(), 2);
    assert_eq!(d.serial_ports.len(), 3);
    assert_eq!(d.debug_probes[0].identifier, "J-Link");
    assert_eq!(d.debug_probes[1].serial_number, None);
    assert_eq!(d.debug_probes[1].vendor_id, 0x0d28);
    let with_vid: Vec<bool> = d.serial_ports.iter().map(|p| p.usb_vid.is_some()).collect();
    assert_eq!(with_vid, vec![true, false, true]);
    assert_eq!(d.serial_ports[0].usb_pid, Some(0x0204));
    assert_eq!(d.serial_ports[1].port_name, "/dev/ttyS0");
    assert_eq!(d.serial_ports[2].port_name, "/dev/ttyACM1");
    assert_eq!(d.serial_ports[2].usb_vid, Some(0x1366));
}

#[test]
fn empty_snapshot() {
    let d = list_all_devices(Vec::new(), Ok(Vec::new())).unwrap();
    assert!(d.debug_probes.is_empty());
    assert!(d.serial_ports.is_empty());
}

#[test]
fn serial_failure_fails_the_snapshot() {
    let probes = vec![probe("J-Link", 0x1366, 0x0105, None)];
    let r = list_all_devices(probes, Err("Permission denied".to_string()));
    let message = r.unwrap_err();
    assert_eq!(message, "Failed to list serial ports: Permission denied");
    assert!(message.contains("Permission denied"));
}

#[test]
fn failure_message_text() {
    assert_eq!(serial_failure("driver error"), "Failed to list serial ports: driver error");
    assert_eq!(serial_failure(""), "Failed to list serial ports: ");
}

#[test]
fn serial_listing_passes_reason_through() {
    assert_eq!(list_serial_ports(Err("busy".to_string())), Err("busy".to_string()));
    let ok = list_serial_ports(Ok(vec![plain_port("COM1", PortType::Unknown)])).unwrap();
    assert_eq!(ok.len(), 1);
    assert_eq!(ok[0].port_name, "COM1");
}

#[test]
fn probe_listing_keeps_order() {
    let s = list_probes(vec![probe("b", 2, 2, None), probe("a", 1, 1, Some("x"))]);
    assert_eq!(s.len(), 2);
    assert_eq!(s[0].identifier, "b");
    assert_eq!(s[1].identifier, "a");
    assert_eq!(s[1].serial_number, Some("x".to_string()));
}
