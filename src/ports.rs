//! Port descriptors produced by enumeration, and the filter the host
//! application applies to them.

use vstd::prelude::*;
use crate::text::{chars_of, contains_text, is_infix, lower_of, lowercase};

verus! {

/// How a port is attached, with the identification a USB port reports.
#[derive(Debug)]
pub enum PortKind {
    Usb {
        vid: u16,
        pid: u16,
        manufacturer: Option<String>,
        product: Option<String>,
        serial_number: Option<String>,
    },
    Bluetooth,
    Pci,
    Unknown,
}

/// One enumerated port. Only USB ports carry identification; `port_type` is
/// "usb", "bluetooth", "pci" or "unknown".
#[derive(Debug)]
pub struct PortInfo {
    pub path: String,
    pub vid: Option<u16>,
    pub pid: Option<u16>,
    pub manufacturer: Option<String>,
    pub product: Option<String>,
    pub serial_number: Option<String>,
    pub port_type: String,
}

/// Which ports an enumeration keeps: each given field must match.
#[derive(Debug)]
pub struct PortFilter {
    pub vid: Option<u16>,
    pub pid: Option<u16>,
    /// Matched, without regard to case, against the path, manufacturer,
    /// product and serial number written one after the other.
    pub name_substr: Option<String>,
}

/// The tag of a port attachment.
pub open spec fn kind_tag(kind: PortKind) -> Seq<char> {
    match kind {
        PortKind::Usb { .. } => "usb"@,
        PortKind::Bluetooth => "bluetooth"@,
        PortKind::Pci => "pci"@,
        PortKind::Unknown => "unknown"@,
    }
}

impl PortInfo {
    /// The descriptor of the port at `path` attached as `kind`.
    pub fn describe(path: String, kind: PortKind) -> (r: PortInfo)
        ensures
            r.path == path,
            r.port_type@ == kind_tag(kind),
            match kind {
                PortKind::Usb { vid, pid, manufacturer, product, serial_number } => {
                    &&& r.vid == Some(vid)
                    &&& r.pid == Some(pid)
                    &&& r.manufacturer == manufacturer
                    &&& r.product == product
                    &&& r.serial_number == serial_number
                },
                _ => {
                    &&& r.vid is None
                    &&& r.pid is None
                    &&& r.manufacturer is None
                    &&& r.product is None
                    &&& r.serial_number is None
                },
            },
    {
        match kind {
            PortKind::Usb { vid, pid, manufacturer, product, serial_number } => PortInfo {
                path,
                vid: Some(vid),
                pid: Some(pid),
                manufacturer,
                product,
                serial_number,
                port_type: "usb".to_string(),
            },
            PortKind::Bluetooth => PortInfo::bare(path, "bluetooth".to_string()),
            PortKind::Pci => PortInfo::bare(path, "pci".to_string()),
            PortKind::Unknown => PortInfo::bare(path, "unknown".to_string()),
        }
    }

    fn bare(path: String, port_type: String) -> (r: PortInfo)
        ensures
            r == (PortInfo {
                path,
                vid: None,
                pid: None,
                manufacturer: None,
                product: None,
                serial_number: None,
                port_type,
            }),
    {
        PortInfo {
            path,
            vid: None,
            pid: None,
            manufacturer: None,
            product: None,
            serial_number: None,
            port_type,
        }
    }
}

/// The lower-case characters of an optional text, empty when absent.
pub open spec fn lower_opt(s: Option<String>) -> Seq<char> {
    match s {
        Some(t) => lower_of(t@),
        None => Seq::empty(),
    }
}

/// The text a name filter is searched in: path, manufacturer, product and
/// serial number, each in lower case, one after the other.
pub open spec fn search_text(p: PortInfo) -> Seq<char> {
    lower_of(p.path@) + lower_opt(p.manufacturer) + lower_opt(p.product) + lower_opt(
        p.serial_number,
    )
}

/// The port's identification agrees with every identifier the filter gives.
pub open spec fn ids_match(p: PortInfo, f: PortFilter) -> bool {
    &&& (f.vid matches Some(v) ==> p.vid == Some(v))
    &&& (f.pid matches Some(v) ==> p.pid == Some(v))
}

/// Whether enumeration under `filter` keeps port `p`.
pub open spec fn port_matches(p: PortInfo, filter: Option<PortFilter>) -> bool {
    match filter {
        None => true,
        Some(f) => ids_match(p, f) && (f.name_substr matches Some(n) ==> is_infix(
            lower_of(n@),
            search_text(p),
        )),
    }
}

/// The ports of `ports` that `filter` keeps, in their order.
pub open spec fn kept(ports: Seq<PortInfo>, filter: Option<PortFilter>) -> Seq<PortInfo>
    decreases ports.len(),
{
    if ports.len() == 0 {
        Seq::empty()
    } else if port_matches(ports[0], filter) {
        seq![ports[0]] + kept(ports.drop_first(), filter)
    } else {
        kept(ports.drop_first(), filter)
    }
}

/// Appends the lower-case characters of `s`, if present, to `out`.
fn push_lower(out: &mut Vec<char>, s: &Option<String>)
    ensures
        final(out)@ == old(out)@ + lower_opt(*s),
{
    match s {
        Some(t) => {
            let mut lower = chars_of(lowercase(t.as_str()).as_str());
            out.append(&mut lower);
        },
        None => {
            assert(old(out)@ + Seq::<char>::empty() == old(out)@);
        },
    }
}

/// The text a name filter is searched in, for `port`.
pub fn search_chars(port: &PortInfo) -> (r: Vec<char>)
    ensures
        r@ == search_text(*port),
{
    let mut out = chars_of(lowercase(port.path.as_str()).as_str());
    push_lower(&mut out, &port.manufacturer);
    push_lower(&mut out, &port.product);
    push_lower(&mut out, &port.serial_number);
    out
}

/// The filter decision once the texts are in lower case: `needle` is the
/// lower-case name filter and `haystack` the port's search text; the name
/// filter applies only when `filter` gives one.
pub fn port_passes(port: &PortInfo, filter: &PortFilter, needle: &Vec<char>, haystack: &Vec<char>) -> (r: bool)
    ensures
        r == (ids_match(*port, *filter) && (filter.name_substr is Some ==> is_infix(
            needle@,
            haystack@,
        ))),
{
    if let Some(v) = filter.vid {
        match port.vid {
            Some(w) => {
                if w != v {
                    return false;
                }
            },
            None => return false,
        }
    }
    if let Some(v) = filter.pid {
        match port.pid {
            Some(w) => {
                if w != v {
                    return false;
                }
            },
            None => return false,
        }
    }
    match filter.name_substr {
        Some(_) => contains_text(haystack, needle),
        None => true,
    }
}

/// Keeps the ports that `filter` selects, in their order.
pub fn filter_ports(ports: Vec<PortInfo>, filter: &Option<PortFilter>) -> (r: Vec<PortInfo>)
    ensures
        r@ == kept(ports@, *filter),
{
    let needle: Vec<char> = match filter {
        Some(f) => match &f.name_substr {
            Some(n) => chars_of(lowercase(n.as_str()).as_str()),
            None => Vec::new(),
        },
        None => Vec::new(),
    };
    let mut rest = ports;
    let mut out: Vec<PortInfo> = Vec::new();
    while rest.len() > 0
        invariant
            out@ + kept(rest@, *filter) == kept(ports@, *filter),
            match filter {
                Some(f) => match f.name_substr {
                    Some(n) => needle@ == lower_of(n@),
                    None => true,
                },
                None => true,
            },
        decreases rest.len(),
    {
        let ghost before = rest@;
        let port = rest.remove(0);
        assert(rest@ == before.drop_first());
        let keep = match filter {
            None => true,
            Some(f) => {
                let haystack = if f.name_substr.is_some() {
                    search_chars(&port)
                } else {
                    Vec::new()
                };
                port_passes(&port, f, &needle, &haystack)
            },
        };
        let ghost out_before = out@;
        if keep {
            out.push(port);
            assert(out@ + kept(rest@, *filter) == out_before + (seq![before[0]] + kept(rest@, *filter)));
        }
    }
    assert(out@ + Seq::<PortInfo>::empty() == out@);
    out
}

} // verus!
