//! Summaries of attached debug probes and serial ports, and the snapshot that
//! merges them.
//!
//! The enumeration itself happens outside the library; the records it yields
//! are handed in as plain values and projected here.
use vstd::prelude::*;

verus! {

/// One debug probe as the probe backend reports it.
#[derive(Debug, Clone, PartialEq, Eq)]
pub struct ProbeInfo {
    pub identifier: String,
    pub vendor_id: u16,
    pub product_id: u16,
    pub serial_number: Option<String>,
}

/// The identity that the serial backend reports for a USB-backed port; each
/// text field may be missing.
#[derive(Debug, Clone, PartialEq, Eq)]
pub struct UsbInfo {
    pub vid: u16,
    pub pid: u16,
    pub serial_number: Option<String>,
    pub manufacturer: Option<String>,
    pub product: Option<String>,
}

/// The transport behind a serial port.
#[derive(Debug, Clone, PartialEq, Eq)]
pub enum PortType {
    UsbPort(UsbInfo),
    PciPort,
    BluetoothPort,
    Unknown,
}

/// One serial port as the serial backend reports it.
#[derive(Debug, Clone, PartialEq, Eq)]
pub struct PortInfo {
    pub port_name: String,
    pub port_type: PortType,
}

/// One attached debug probe.
#[derive(Debug, Clone, PartialEq, Eq)]
pub struct DebugProbeSummary {
    pub identifier: String,
    pub vendor_id: u16,
    pub product_id: u16,
    pub serial_number: Option<String>,
}

/// One serial port. The USB identity fields are all absent for a port that is
/// not USB-backed.
#[derive(Debug, Clone, PartialEq, Eq)]
pub struct SerialPortSummary {
    pub port_name: String,
    pub usb_vid: Option<u16>,
    pub usb_pid: Option<u16>,
    pub manufacturer: Option<String>,
    pub product: Option<String>,
    pub serial_number: Option<String>,
}

/// Everything attached to the host at one moment.
#[derive(Debug, Clone, PartialEq, Eq)]
pub struct ConnectedDevices {
    pub debug_probes: Vec<DebugProbeSummary>,
    pub serial_ports: Vec<SerialPortSummary>,
}

/// The summary of a probe record: a field-by-field projection.
pub open spec fn probe_summary(p: ProbeInfo) -> DebugProbeSummary {
    DebugProbeSummary {
        identifier: p.identifier,
        vendor_id: p.vendor_id,
        product_id: p.product_id,
        serial_number: p.serial_number,
    }
}

/// The summary of a port record: the name always, the USB identity only for
/// a USB-backed port.
pub open spec fn port_summary(p: PortInfo) -> SerialPortSummary {
    match p.port_type {
        PortType::UsbPort(u) => SerialPortSummary {
            port_name: p.port_name,
            usb_vid: Some(u.vid),
            usb_pid: Some(u.pid),
            manufacturer: u.manufacturer,
            product: u.product,
            serial_number: u.serial_number,
        },
        _ => SerialPortSummary {
            port_name: p.port_name,
            usb_vid: None,
            usb_pid: None,
            manufacturer: None,
            product: None,
            serial_number: None,
        },
    }
}

/// The summaries of a sequence of probe records, in the same order.
pub open spec fn probe_summaries(ps: Seq<ProbeInfo>) -> Seq<DebugProbeSummary> {
    ps.map_values(|p: ProbeInfo| probe_summary(p))
}

/// The summaries of a sequence of port records, in the same order.
pub open spec fn port_summaries(ps: Seq<PortInfo>) -> Seq<SerialPortSummary> {
    ps.map_values(|p: PortInfo| port_summary(p))
}

/// The text that opens the message of a failed serial enumeration.
pub open spec fn serial_failure_prefix() -> Seq<char> {
    "Failed to list serial ports: "@
}

/// The message of a failed serial enumeration whose backend said `reason`.
pub open spec fn serial_failure_message(reason: Seq<char>) -> Seq<char> {
    serial_failure_prefix() + reason
}

/// Summarizes one probe record.
pub fn summarize_probe(p: ProbeInfo) -> (r: DebugProbeSummary)
    ensures
        r == probe_summary(p),
{
    DebugProbeSummary {
        identifier: p.identifier,
        vendor_id: p.vendor_id,
        product_id: p.product_id,
        serial_number: p.serial_number,
    }
}

/// Summarizes one port record.
pub fn summarize_port(p: PortInfo) -> (r: SerialPortSummary)
    ensures
        r == port_summary(p),
        p.port_type is UsbPort <==> r.usb_vid is Some,
        !(p.port_type is UsbPort) ==> {
            &&& r.usb_vid is None
            &&& r.usb_pid is None
            &&& r.manufacturer is None
            &&& r.product is None
            &&& r.serial_number is None
        },
{
    match p.port_type {
        PortType::UsbPort(u) => SerialPortSummary {
            port_name: p.port_name,
            usb_vid: Some(u.vid),
            usb_pid: Some(u.pid),
            manufacturer: u.manufacturer,
            product: u.product,
            serial_number: u.serial_number,
        },
        _ => SerialPortSummary {
            port_name: p.port_name,
            usb_vid: None,
            usb_pid: None,
            manufacturer: None,
            product: None,
            serial_number: None,
        },
    }
}

/// Summarizes every probe record, keeping the backend's order.
pub fn list_probes(probes: Vec<ProbeInfo>) -> (r: Vec<DebugProbeSummary>)
    ensures
        r@ == probe_summaries(probes@),
{
    let ghost input = probes@;
    let mut r: Vec<DebugProbeSummary> = Vec::new();
    for p in it: probes.into_iter()
        invariant
            it.seq() == input,
            r@ == probe_summaries(input.take(it.index() as int)),
    {
        assert(input.take(it.index() + 1) == input.take(it.index() as int).push(p));
        r.push(summarize_probe(p));
    }
    assert(input.take(input.len() as int) == input);
    r
}

/// Summarizes every port record, keeping the backend's order; a failed
/// enumeration passes its reason through unchanged.
pub fn list_serial_ports(ports: Result<Vec<PortInfo>, String>) -> (r: Result<Vec<SerialPortSummary>, String>)
    ensures
        ports is Ok <==> r is Ok,
        ports is Ok ==> r->Ok_0@ == port_summaries(ports->Ok_0@),
        ports is Err ==> r->Err_0 == ports->Err_0,
{
    let ports = match ports {
        Ok(ports) => ports,
        Err(reason) => return Err(reason),
    };
    let ghost input = ports@;
    let mut r: Vec<SerialPortSummary> = Vec::new();
    for p in it: ports.into_iter()
        invariant
            it.seq() == input,
            r@ == port_summaries(input.take(it.index() as int)),
    {
        assert(input.take(it.index() + 1) == input.take(it.index() as int).push(p));
        r.push(summarize_port(p));
    }
    assert(input.take(input.len() as int) == input);
    Ok(r)
}

/// The message for a failed serial enumeration.
pub fn serial_failure(reason: &str) -> (r: String)
    ensures
        r@ == serial_failure_message(reason@),
{
    let mut message = String::from_str("Failed to list serial ports: ");
    message.append(reason);
    message
}

/// Merges the probe records and the outcome of the serial enumeration into
/// one snapshot. The snapshot is all or nothing: when the serial enumeration
/// failed, the probes are dropped and the failure is reported.
pub fn list_all_devices(probes: Vec<ProbeInfo>, ports: Result<Vec<PortInfo>, String>) -> (r: Result<ConnectedDevices, String>)
    ensures
        ports is Ok <==> r is Ok,
        ports is Ok ==> r->Ok_0.debug_probes@ == probe_summaries(probes@),
        ports is Ok ==> r->Ok_0.serial_ports@ == port_summaries(ports->Ok_0@),
        ports is Err ==> r->Err_0@ == serial_failure_message(ports->Err_0@),
{
    let debug_probes = list_probes(probes);
    match list_serial_ports(ports) {
        Ok(serial_ports) => Ok(ConnectedDevices { debug_probes, serial_ports }),
        Err(reason) => Err(serial_failure(reason.as_str())),
    }
}

/// The shape of a snapshot: one summary per record, in order, each a verbatim
/// projection of its record, and a USB vendor ID present on exactly the
/// summaries of USB-backed ports.
pub proof fn lemma_snapshot_shape(probes: Seq<ProbeInfo>, ports: Seq<PortInfo>)
    ensures
        probe_summaries(probes).len() == probes.len(),
        port_summaries(ports).len() == ports.len(),
        forall|i: int| 0 <= i < probes.len() ==> #[trigger] probe_summaries(probes)[i] == probe_summary(probes[i]),
        forall|i: int| 0 <= i < ports.len() ==> #[trigger] port_summaries(ports)[i] == port_summary(ports[i]),
        forall|i: int| 0 <= i < ports.len() ==>
            (#[trigger] port_summaries(ports)[i].usb_vid is Some <==> ports[i].port_type is UsbPort),
{
}

/// A port that is not USB-backed has no USB identity in its summary, whatever
/// else its record holds.
pub proof fn lemma_non_usb_port(p: PortInfo)
    requires
        !(p.port_type is UsbPort),
    ensures
        port_summary(p).port_name == p.port_name,
        port_summary(p).usb_vid is None,
        port_summary(p).usb_pid is None,
        port_summary(p).manufacturer is None,
        port_summary(p).product is None,
        port_summary(p).serial_number is None,
{
}

/// The failure message carries the backend's reason verbatim, after the
/// fixed opening text.
pub proof fn lemma_failure_message_holds_reason(reason: Seq<char>)
    ensures
        serial_failure_message(reason).len() == serial_failure_prefix().len() + reason.len(),
        serial_failure_message(reason).subrange(
            serial_failure_prefix().len() as int,
            serial_failure_message(reason).len() as int,
        ) == reason,
{
    assert(serial_failure_message(reason).subrange(
        serial_failure_prefix().len() as int,
        serial_failure_message(reason).len() as int,
    ) =~= reason);
}

} // verus!
