//! What the hidraw interface reports about a device, and the filtering and
//! text handling around it. Opening devices and ioctls are the daemon's part.
use crate::text::{parse_unsigned, parse_unsigned_range, trim, trim_chars};
use vstd::prelude::*;

verus! {

/// HID device info as HIDIOCGRAWINFO reports it, with the node's path.
#[derive(Debug)]
pub struct HidDeviceInfo {
    pub bus_type: u32,
    pub vendor_id: u16,
    pub product_id: u16,
    pub path: String,
}

/// The raw `struct hidraw_devinfo`.
#[derive(Debug, Clone, Copy)]
pub struct HidrawDevinfo {
    pub bustype: u32,
    pub vendor: i16,
    pub product: i16,
}

impl HidDeviceInfo {
    /// The device info of the node at `path` from its raw ioctl answer; the
    /// signed vendor and product ids are read as unsigned.
    pub fn from_devinfo(devinfo: HidrawDevinfo, path: String) -> (info: Self)
        ensures
            info.bus_type == devinfo.bustype,
            info.vendor_id == devinfo.vendor as u16,
            info.product_id == devinfo.product as u16,
            info.path == path,
    {
        HidDeviceInfo {
            bus_type: devinfo.bustype,
            vendor_id: devinfo.vendor as u16,
            product_id: devinfo.product as u16,
            path,
        }
    }

    /// A copy of the info.
    pub fn duplicate(&self) -> (c: Self)
        ensures
            c == *self,
    {
        HidDeviceInfo {
            bus_type: self.bus_type,
            vendor_id: self.vendor_id,
            product_id: self.product_id,
            path: self.path.clone(),
        }
    }
}

/// The devices of `s` with the given vendor and product id, in order.
pub open spec fn filter_ids(s: Seq<HidDeviceInfo>, vendor_id: u16, product_id: u16) -> Seq<
    HidDeviceInfo,
>
    decreases s.len(),
{
    if s.len() == 0 {
        s
    } else {
        let rest = filter_ids(s.drop_last(), vendor_id, product_id);
        if s.last().vendor_id == vendor_id && s.last().product_id == product_id {
            rest.push(s.last())
        } else {
            rest
        }
    }
}

/// The enumerated devices that match a vendor and product id.
pub fn find_devices(devices: &Vec<HidDeviceInfo>, vendor_id: u16, product_id: u16) -> (r: Vec<
    HidDeviceInfo,
>)
    ensures
        r@ == filter_ids(devices@, vendor_id, product_id),
{
    let mut out: Vec<HidDeviceInfo> = Vec::new();
    let mut i: usize = 0;
    assert(devices@.subrange(0, 0) =~= Seq::<HidDeviceInfo>::empty());
    while i < devices.len()
        invariant
            i <= devices@.len(),
            out@ == filter_ids(devices@.subrange(0, i as int), vendor_id, product_id),
        decreases devices.len() - i,
    {
        assert(devices@.subrange(0, i + 1).drop_last() =~= devices@.subrange(0, i as int));
        let d = &devices[i];
        if d.vendor_id == vendor_id && d.product_id == product_id {
            out.push(d.duplicate());
        }
        i = i + 1;
    }
    assert(devices@.subrange(0, devices@.len() as int) =~= devices@);
    out
}

/// `s` without its leading `0x` prefixes, as `trim_start_matches("0x")` leaves it.
pub open spec fn strip_hex_prefix(s: Seq<char>) -> Seq<char>
    decreases s.len(),
{
    if s.len() >= 2 && s[0] == '0' && s[1] == 'x' {
        strip_hex_prefix(s.subrange(2, s.len() as int))
    } else {
        s
    }
}

/// The bcdDevice value from the text of the USB `bcdDevice` attribute:
/// trimmed, `0x` prefixes removed, read as hexadecimal.
pub fn parse_bcd_device(content: &str) -> (r: Option<u16>)
    ensures
        match r {
            Some(v) => parse_unsigned(strip_hex_prefix(trim(content@)), 16, 0xffff) == Some(v as nat),
            None => parse_unsigned(strip_hex_prefix(trim(content@)), 16, 0xffff) is None,
        },
{
    let v = trim_chars(content);
    let n = v.len();
    let mut i: usize = 0;
    assert(v@.subrange(0, n as int) =~= v@);
    while n - i >= 2 && v[i] == '0' && v[i + 1] == 'x'
        invariant
            i <= n,
            n == v@.len(),
            strip_hex_prefix(v@) == strip_hex_prefix(v@.subrange(i as int, n as int)),
        decreases n - i,
    {
        assert(v@.subrange(i as int, n as int).subrange(2, (n - i) as int) =~= v@.subrange(
            i + 2,
            n as int,
        ));
        i = i + 2;
    }
    assert(strip_hex_prefix(v@.subrange(i as int, n as int)) == v@.subrange(i as int, n as int));
    match parse_unsigned_range(&v, i, n, 16, 0xffff) {
        Some(x) => Some(x as u16),
        None => None,
    }
}

/// The sysfs file holding the bcdDevice of the USB device behind hidraw
/// node `name`.
pub fn bcd_device_path(name: &str) -> (p: String)
    ensures
        p@ == "/sys/class/hidraw/"@ + name@ + "/device/../../bcdDevice"@,
{
    let mut p = String::from_str("/sys/class/hidraw/");
    p.append(name);
    p.append("/device/../../bcdDevice");
    p
}

} // verus!
