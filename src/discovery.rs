//! Choosing the serial port of the panel among those the host lists, and
//! deciding, scan after scan, whether to open one, wait or give up.
use vstd::prelude::*;

verus! {

/// USB vendor id of the panel's maker.
pub const FRAMEWORK_VID: u16 = 0x32AC;

/// USB product id of the LED matrix.
pub const LED_MATRIX_PID: u16 = 0x0020;

/// USB product id of the companion LCD display.
pub const B1_LCD_PID: u16 = 0x0021;

/// USB product id of a third device class of the same vendor.
pub const THIRD_DEVICE_PID: u16 = 0x0022;

/// USB product id of the remaining device class of the same vendor.
pub const OTHER_DEVICE_PID: u16 = 0x00FF;

/// Pause before the next scan while waiting for the device to appear.
pub const RETRY_DELAY_MS: u64 = 100;

/// Pause after opening a device that was present from the start, so that it
/// has finished starting up.
pub const SETTLE_DELAY_MS: u64 = 2000;

/// What the host knows of a USB serial port.
pub struct UsbPortInfo {
    pub vid: u16,
    pub pid: u16,
    pub serial_number: Option<String>,
    pub product: Option<String>,
}

/// A serial port that the host lists; `usb` is absent for a port that is not
/// on USB.
pub struct PortDescriptor {
    pub port_name: String,
    pub usb: Option<UsbPortInfo>,
}

/// Whether a product id passes the filter: the one id asked for, or else any
/// of the vendor's known device classes.
pub open spec fn pid_accepted(filter: Option<u16>, pid: u16) -> bool {
    match filter {
        Some(f) => pid == f,
        None => pid == LED_MATRIX_PID || pid == B1_LCD_PID || pid == THIRD_DEVICE_PID || pid
            == OTHER_DEVICE_PID,
    }
}

/// Whether a port is a device of the vendor whose product passes the filter.
pub open spec fn port_matches(port: PortDescriptor, filter: Option<u16>) -> bool {
    match port.usb {
        Some(usb) => usb.vid == FRAMEWORK_VID && pid_accepted(filter, usb.pid),
        None => false,
    }
}

/// The names of the matching ports, in the order they are listed.
pub open spec fn matching_names(ports: Seq<PortDescriptor>, filter: Option<u16>) -> Seq<Seq<char>>
    decreases ports.len(),
{
    if ports.len() == 0 {
        Seq::empty()
    } else {
        let earlier = matching_names(ports.drop_last(), filter);
        if port_matches(ports.last(), filter) {
            earlier.push(ports.last().port_name@)
        } else {
            earlier
        }
    }
}

/// Whether a port of that name is listed.
pub open spec fn is_listed(ports: Seq<PortDescriptor>, name: Seq<char>) -> bool {
    exists|i: int| 0 <= i < ports.len() && (#[trigger] ports[i]).port_name@ == name
}

/// The ports chosen: the one asked for by name if it is listed (else none);
/// without a name, every matching port in listing order.
pub open spec fn selected_ports(
    ports: Seq<PortDescriptor>,
    requested: Option<Seq<char>>,
    filter: Option<u16>,
) -> Seq<Seq<char>> {
    match requested {
        Some(name) => if is_listed(ports, name) {
            seq![name]
        } else {
            Seq::empty()
        },
        None => matching_names(ports, filter),
    }
}

/// A port asked for by a name that is not listed selects nothing, however
/// many other ports match by vendor and product.
pub proof fn law_unlisted_name_selects_nothing(
    ports: Seq<PortDescriptor>,
    name: Seq<char>,
    filter: Option<u16>,
)
    requires
        !is_listed(ports, name),
    ensures
        selected_ports(ports, Some(name), filter) == Seq::<Seq<char>>::empty(),
{
}

/// Without a name, two ports that both pass the default filter are both
/// selected, in the order they are listed.
pub proof fn law_two_matches_kept_in_order(first: PortDescriptor, second: PortDescriptor)
    requires
        port_matches(first, None),
        port_matches(second, None),
    ensures
        selected_ports(seq![first, second], None, None) == seq![
            first.port_name@,
            second.port_name@,
        ],
{
    let ports = seq![first, second];
    assert(ports.drop_last() =~= seq![first]);
    assert(ports.drop_last().drop_last() =~= Seq::<PortDescriptor>::empty());
    assert(ports.last() == second);
    assert(ports.drop_last().last() == first);
    assert(matching_names(ports.drop_last().drop_last(), None) == Seq::<Seq<char>>::empty());
    assert(matching_names(ports.drop_last(), None) == seq![first.port_name@]);
    assert(matching_names(ports, None) =~= seq![first.port_name@, second.port_name@]);
}

/// The text of an optional string.
pub open spec fn opt_text(s: Option<String>) -> Option<Seq<char>> {
    match s {
        Some(t) => Some(t@),
        None => None,
    }
}

/// The texts of a list of strings.
pub open spec fn texts(v: Seq<String>) -> Seq<Seq<char>> {
    v.map_values(|s: String| s@)
}

fn usb_port_matches(port: &PortDescriptor, pid: Option<u16>) -> (r: bool)
    ensures
        r == port_matches(*port, pid),
{
    match &port.usb {
        Some(usb) => {
            let pid_ok = match pid {
                Some(f) => usb.pid == f,
                None => usb.pid == LED_MATRIX_PID || usb.pid == B1_LCD_PID || usb.pid
                    == THIRD_DEVICE_PID || usb.pid == OTHER_DEVICE_PID,
            };
            usb.vid == FRAMEWORK_VID && pid_ok
        },
        None => false,
    }
}

/// Chooses among the listed `ports`: the port named `requested` if there is
/// one, else every port of the vendor whose product id passes `pid` (any
/// known device class when `pid` is absent). The caller takes the first.
pub fn match_serialdevs(ports: &[PortDescriptor], requested: &Option<String>, pid: Option<u16>) -> (r: Vec<String>)
    ensures
        texts(r@) == selected_ports(ports@, opt_text(*requested), pid),
{
    match requested.as_ref() {
        Some(name) => {
            let mut i: usize = 0;
            while i < ports.len()
                invariant
                    i <= ports@.len(),
                    opt_text(*requested) == Some(name@),
                    forall|k: int| 0 <= k < i ==> (#[trigger] ports@[k]).port_name@ != name@,
                decreases ports@.len() - i,
            {
                if name.eq(&ports[i].port_name) {
                    let mut found: Vec<String> = Vec::new();
                    found.push(ports[i].port_name.clone());
                    assert(is_listed(ports@, name@));
                    assert(texts(found@) =~= seq![name@]);
                    return found;
                }
                i = i + 1;
            }
            assert(!is_listed(ports@, name@));
            let none: Vec<String> = Vec::new();
            assert(texts(none@) =~= Seq::<Seq<char>>::empty());
            none
        },
        None => {
            let mut compatible: Vec<String> = Vec::new();
            let mut i: usize = 0;
            while i < ports.len()
                invariant
                    i <= ports@.len(),
                    texts(compatible@) == matching_names(ports@.subrange(0, i as int), pid),
                decreases ports@.len() - i,
            {
                let ghost before = compatible@;
                let is_match = usb_port_matches(&ports[i], pid);
                if is_match {
                    compatible.push(ports[i].port_name.clone());
                }
                proof {
                    let prefix = ports@.subrange(0, i + 1);
                    assert(prefix.drop_last() =~= ports@.subrange(0, i as int));
                    assert(prefix.last() == ports@[i as int]);
                    if is_match {
                        assert(texts(compatible@) =~= texts(before).push(ports@[i as int].port_name@));
                    } else {
                        assert(texts(compatible@) =~= texts(before));
                    }
                }
                i = i + 1;
            }
            assert(ports@.subrange(0, ports@.len() as int) =~= ports@);
            compatible
        },
    }
}

/// What to do after a scan of the ports.
pub enum ScanStep {
    /// Open the port at `path`, after pausing `settle_ms` milliseconds.
    Open { path: String, settle_ms: u64 },
    /// Scan again after `delay_ms` milliseconds.
    Retry { delay_ms: u64 },
    /// No device: report it and go on without one.
    GiveUp,
}

/// The search for the device across repeated scans.
pub struct DeviceSearch {
    /// Keep scanning until the device appears, rather than giving up.
    pub wait_for_device: bool,
    /// Some scan has already come back empty.
    pub waited: bool,
}

impl DeviceSearch {
    /// A search that has not scanned yet.
    pub fn new(wait_for_device: bool) -> (r: DeviceSearch)
        ensures
            r.wait_for_device == wait_for_device,
            !r.waited,
    {
        DeviceSearch { wait_for_device, waited: false }
    }

    /// Decides on the result of one scan, `found` being the ports chosen.
    /// The first one is opened; a device that was there from the start gets
    /// a settle delay, one that appeared while waiting does not. With none
    /// found, the search retries after a short pause when it waits for the
    /// device, and gives up otherwise.
    pub fn step(&mut self, found: &Vec<String>) -> (r: ScanStep)
        ensures
            final(self).wait_for_device == old(self).wait_for_device,
            found@.len() > 0 ==> final(self).waited == old(self).waited && r == (ScanStep::Open {
                path: found@[0],
                settle_ms: if old(self).wait_for_device && !old(self).waited {
                    SETTLE_DELAY_MS
                } else {
                    0
                },
            }),
            found@.len() == 0 && old(self).wait_for_device ==> final(self).waited && r == (
            ScanStep::Retry { delay_ms: RETRY_DELAY_MS }),
            found@.len() == 0 && !old(self).wait_for_device ==> final(self).waited
                == old(self).waited && r == ScanStep::GiveUp,
    {
        if found.len() > 0 {
            let settle_ms = if self.wait_for_device && !self.waited {
                SETTLE_DELAY_MS
            } else {
                0
            };
            ScanStep::Open { path: found[0].clone(), settle_ms }
        } else if self.wait_for_device {
            self.waited = true;
            ScanStep::Retry { delay_ms: RETRY_DELAY_MS }
        } else {
            ScanStep::GiveUp
        }
    }
}

} // verus!
