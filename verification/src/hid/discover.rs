//! Discovery of ITE keyboard LED controllers among the hidraw devices, and
//! the choice of controller for a discovered device.
use super::color_scaling::ColorScaling;
use super::hidraw::HidDeviceInfo;
use super::ite8291::{self, Ite8291};
use super::ite8291_lb::{self, Ite8291Lb};
use super::ite8297::{self, Ite8297};
use super::ite829x::{self, Ite829x};
use super::{bytes8, feature, one_report, reports_view, HidReport, Rgb};
use vstd::prelude::*;

verus! {

/// USB vendor id of ITE.
pub const ITE_VID: u16 = 0x048d;

#[derive(Debug, Clone, Copy, PartialEq, Eq, Structural)]
pub enum IteDeviceType {
    Ite8291,
    Ite8291Lb,
    Ite8297,
    Ite829x,
}

/// A discovered ITE LED device, ready to be opened.
#[derive(Debug)]
pub struct DiscoveredDevice {
    pub path: String,
    pub product_id: u16,
    pub device_type: IteDeviceType,
}

/// The controller type for a USB vendor and product id, if any.
pub open spec fn classify_spec(vendor_id: u16, product_id: u16) -> Option<IteDeviceType> {
    if vendor_id != ITE_VID {
        None
    } else if ite8291::is_pid_spec(product_id) {
        Some(IteDeviceType::Ite8291)
    } else if ite8291_lb::is_pid_spec(product_id) {
        Some(IteDeviceType::Ite8291Lb)
    } else if product_id == ite8297::PID {
        Some(IteDeviceType::Ite8297)
    } else if product_id == ite829x::PID {
        Some(IteDeviceType::Ite829x)
    } else {
        None
    }
}

/// The ITE controller table: only vendor 0x048d is ITE; its product ids
/// 0xce00, 0x6004, 0x600a and 0x600b are ITE 8291 keyboards, 0x6010, 0x7000
/// and 0x7001 lightbars, 0x8297 the ITE 8297 and 0x8910 the ITE 829x; any
/// other id is no keyboard LED controller.
pub proof fn lemma_classify_table(vendor_id: u16, product_id: u16)
    ensures
        vendor_id != 0x048d ==> classify_spec(vendor_id, product_id) is None,
        vendor_id == 0x048d ==> classify_spec(vendor_id, product_id) == (if product_id == 0xce00
            || product_id == 0x6004 || product_id == 0x600a || product_id == 0x600b {
            Some(IteDeviceType::Ite8291)
        } else if product_id == 0x6010 || product_id == 0x7000 || product_id == 0x7001 {
            Some(IteDeviceType::Ite8291Lb)
        } else if product_id == 0x8297 {
            Some(IteDeviceType::Ite8297)
        } else if product_id == 0x8910 {
            Some(IteDeviceType::Ite829x)
        } else {
            None
        }),
{
}

pub fn classify(vendor_id: u16, product_id: u16) -> (t: Option<IteDeviceType>)
    ensures
        t == classify_spec(vendor_id, product_id),
{
    if vendor_id != ITE_VID {
        None
    } else if ite8291::is_pid(product_id) {
        Some(IteDeviceType::Ite8291)
    } else if ite8291_lb::is_pid(product_id) {
        Some(IteDeviceType::Ite8291Lb)
    } else if product_id == ite8297::PID {
        Some(IteDeviceType::Ite8297)
    } else if product_id == ite829x::PID {
        Some(IteDeviceType::Ite829x)
    } else {
        None
    }
}

/// (path, product id, type) of every ITE LED device of `s`, in order.
pub open spec fn scan_spec(s: Seq<HidDeviceInfo>) -> Seq<(Seq<char>, u16, IteDeviceType)>
    decreases s.len(),
{
    if s.len() == 0 {
        Seq::empty()
    } else {
        let rest = scan_spec(s.drop_last());
        let d = s.last();
        match classify_spec(d.vendor_id, d.product_id) {
            Some(t) => rest.push((d.path@, d.product_id, t)),
            None => rest,
        }
    }
}

pub open spec fn discovered_view(d: DiscoveredDevice) -> (Seq<char>, u16, IteDeviceType) {
    (d.path@, d.product_id, d.device_type)
}

/// The ITE keyboard LED devices among the enumerated hidraw devices, in order.
pub fn scan(devices: &Vec<HidDeviceInfo>) -> (found: Vec<DiscoveredDevice>)
    ensures
        found@.map_values(|d: DiscoveredDevice| discovered_view(d)) == scan_spec(devices@),
{
    let mut found: Vec<DiscoveredDevice> = Vec::new();
    let mut i: usize = 0;
    assert(devices@.subrange(0, 0) =~= Seq::<HidDeviceInfo>::empty());
    while i < devices.len()
        invariant
            i <= devices@.len(),
            found@.map_values(|d: DiscoveredDevice| discovered_view(d)) == scan_spec(
                devices@.subrange(0, i as int),
            ),
        decreases devices.len() - i,
    {
        assert(devices@.subrange(0, i + 1).drop_last() =~= devices@.subrange(0, i as int));
        let dev = &devices[i];
        match classify(dev.vendor_id, dev.product_id) {
            Some(t) => {
                let ghost before = found@;
                found.push(
                    DiscoveredDevice { path: dev.path.clone(), product_id: dev.product_id, device_type: t },
                );
                assert(found@.map_values(|d: DiscoveredDevice| discovered_view(d)) =~= before.map_values(
                    |d: DiscoveredDevice| discovered_view(d),
                ).push((dev.path@, dev.product_id, t)));
            },
            None => {},
        }
        i = i + 1;
    }
    assert(devices@.subrange(0, devices@.len() as int) =~= devices@);
    found
}

/// An opened controller of one of the four kinds.
pub enum IteController {
    Ite8291(Ite8291),
    Ite8291Lb(Ite8291Lb),
    Ite8297(Ite8297),
    Ite829x(Ite829x),
}

/// The buffer of a per-key controller just opened: every key white, as
/// corrected for its row, and the two padding bytes of each row 0.
pub open spec fn white_key_buffer(c: Ite8291) -> bool {
    &&& forall|row: int, col: int|
        0 <= row < 6 && 0 <= col < 21 ==> {
            let w = c.scaled(Rgb::white_spec(), Some(row as u8));
            &&& #[trigger] c.row_data@[ite8291::blue_index(row, col)] == w.b
            &&& c.row_data@[ite8291::green_index(row, col)] == w.g
            &&& c.row_data@[ite8291::red_index(row, col)] == w.r
        }
    &&& forall|i: int| 0 <= i < 390 && i % 65 < 2 ==> #[trigger] c.row_data@[i] == 0u8
}

/// The controller for a discovered device and the reports that set it up.
/// `product_id` is the id the opened device reports; `bcd_device` is its
/// USB bcdDevice when it could be read (0 is used otherwise).
///
/// - ITE 8291 per-key: brightness 0, every key white in the buffer, no
///   report; zones: brightness 0, an empty buffer, zone control switched on.
/// - Lightbar: brightness 0, white, switched on in mono mode.
/// - ITE 8297: brightness 0, black, its state report.
/// - ITE 829x: brightness 0, all 120 keys white, brightness 0 then every key.
pub fn open_device(
    discovered: &DiscoveredDevice,
    product_id: u16,
    bcd_device: Option<u16>,
    color_scaling: ColorScaling,
) -> (r: (IteController, Vec<HidReport>))
    ensures
        discovered.device_type == IteDeviceType::Ite8291 ==> (r.0 matches IteController::Ite8291(c)
            && {
            &&& c.wf()
            &&& c.bcd_device == (match bcd_device {
                Some(b) => b,
                None => 0u16,
            })
            &&& c.variant == ite8291::variant_spec(product_id, c.bcd_device)
            &&& c.product_id == product_id
            &&& c.color_scaling == color_scaling
            &&& c.brightness == 0
            &&& c.variant == ite8291::Ite8291Variant::PerKey ==> {
                &&& reports_view(r.1@) == Seq::<(bool, Seq<u8>)>::empty()
                &&& white_key_buffer(c)
            }
            &&& c.variant == ite8291::Ite8291Variant::Zones ==> {
                &&& reports_view(r.1@) == seq![
                    feature(bytes8(0x1a, 0x00, 0x01, 0x04, 0x00, 0x00, 0x00, 0x01)),
                ]
                &&& c.row_data@ == Seq::new(390, |i: int| 0u8)
            }
        }),
        discovered.device_type == IteDeviceType::Ite8291Lb ==> (r.0 matches IteController::Ite8291Lb(
            c,
        ) && {
            &&& c.variant == ite8291_lb::variant_spec(product_id)
            &&& c.product_id == product_id
            &&& c.color_scaling == color_scaling
            &&& c.brightness == 0
            &&& c.color == Rgb::white_spec()
            &&& reports_view(r.1@) == seq![c.on_report()] + c.mono_reports()
        }),
        discovered.device_type == IteDeviceType::Ite8297 ==> (r.0 matches IteController::Ite8297(c)
            && {
            &&& c.brightness == 0
            &&& c.color == (Rgb { r: 0, g: 0, b: 0 })
            &&& reports_view(r.1@) == seq![c.state()]
        }),
        discovered.device_type == IteDeviceType::Ite829x ==> (r.0 matches IteController::Ite829x(c)
            && {
            &&& c.wf()
            &&& c.brightness == 0
            &&& c.keys@ == Seq::new(120, |i: int| Rgb::white_spec())
            &&& reports_view(r.1@) == seq![ite829x::brightness_report(0)] + ite829x::keys_reports(
                c.keys@,
            )
        }),
{
    match discovered.device_type {
        IteDeviceType::Ite8291 => {
            let bcd = match bcd_device {
                Some(b) => b,
                None => 0,
            };
            let mut ctrl = Ite8291::new(product_id, bcd, color_scaling);
            let reports = ctrl.init();
            (IteController::Ite8291(ctrl), reports)
        },
        IteDeviceType::Ite8291Lb => {
            let (ctrl, reports) = Ite8291Lb::new(product_id, color_scaling);
            (IteController::Ite8291Lb(ctrl), reports)
        },
        IteDeviceType::Ite8297 => {
            let (ctrl, report) = Ite8297::new();
            (IteController::Ite8297(ctrl), one_report(report))
        },
        IteDeviceType::Ite829x => {
            let (ctrl, reports) = Ite829x::new();
            (IteController::Ite829x(ctrl), reports)
        },
    }
}

} // verus!
