//! Device detection from DMI fields and from the WMI/ACPI device nodes that
//! are present. The daemon reads the fields and checks the nodes; the
//! classification is made here.
use crate::text::{
    chars_of, contains, decimal, has_prefix, has_substring, push_decimal, starts_with, str_eq,
    trim, trim_str,
};
use vstd::prelude::*;

verus! {

/// WMI GUID of the NB04 "AB" interface.
pub const NB04_WMI_AB_GUID: &'static str = "80C9BAA6-AC48-4538-9234-9F81A55E7C85";
/// WMI GUID of the Uniwill management interface "BA".
pub const UNIWILL_WMI_MGMT_GUID_BA: &'static str = "ABBC0F6D-8EA1-11D1-00A0-C90629100000";
/// WMI GUID of the Uniwill management interface "BB".
pub const UNIWILL_WMI_MGMT_GUID_BB: &'static str = "ABBC0F6E-8EA1-11D1-00A0-C90629100000";
/// WMI GUID of the Clevo method interface (shared with Uniwill "BA").
pub const CLEVO_WMI_METHOD_GUID: &'static str = "ABBC0F6D-8EA1-11D1-00A0-C90629100000";
/// ACPI hardware id of the Clevo device.
pub const CLEVO_ACPI_HID: &'static str = "CLV0001";

/// Hardware platform type, which determines the control path.
#[derive(Debug, Clone, Copy, PartialEq, Eq, Structural)]
pub enum Platform {
    Nb05,
    Nb04,
    Uniwill,
    Clevo,
    Tuxi,
}

pub open spec fn platform_name(p: Platform) -> Seq<char> {
    match p {
        Platform::Nb05 => "nb05"@,
        Platform::Nb04 => "nb04"@,
        Platform::Uniwill => "uniwill"@,
        Platform::Clevo => "clevo"@,
        Platform::Tuxi => "tuxi"@,
    }
}

impl Platform {
    pub fn as_str(&self) -> (s: &'static str)
        ensures
            s@ == platform_name(*self),
    {
        match self {
            Platform::Nb05 => "nb05",
            Platform::Nb04 => "nb04",
            Platform::Uniwill => "uniwill",
            Platform::Clevo => "clevo",
            Platform::Tuxi => "tuxi",
        }
    }
}

/// Keyboard backlight type.
#[derive(Debug, Clone, Copy, PartialEq, Eq, Structural)]
pub enum KeyboardType {
    ItePerKey,
    IteZones,
    IteLightbar,
    Ite8297,
    Ite829x,
    Wmi,
    Ec,
    /// No controllable backlight.
    NoBacklight,
}

/// NB05-specific device configuration.
#[derive(Debug, Clone, Copy, PartialEq, Eq, Structural)]
pub struct Nb05Data {
    /// Number of fans (1 for InfinityFlex, 2 for Pulse).
    pub num_fans: u8,
    /// Single-register fan control variant (InfinityFlex).
    pub fanctl_onereg: bool,
}

/// A detected TUXEDO device.
#[derive(Debug, Clone)]
pub struct TuxedoDevice {
    pub name: &'static str,
    pub platform: Platform,
    pub product_sku: String,
    pub keyboard_type: KeyboardType,
    pub nb05_data: Option<Nb05Data>,
}

/// What the daemon found on the machine: the DMI fields (already passed
/// through `read_dmi_field`) and which WMI/ACPI device nodes exist.
#[derive(Debug, Clone)]
pub struct DmiProbe {
    pub sys_vendor: Option<String>,
    pub board_vendor: Option<String>,
    pub chassis_vendor: Option<String>,
    pub product_sku: Option<String>,
    pub board_name: Option<String>,
    pub nb04_wmi_present: bool,
    pub uniwill_wmi_ba_present: bool,
    pub uniwill_wmi_bb_present: bool,
    pub clevo_acpi_present: bool,
}

/// The value of a DMI sysfs field from its file contents: trimmed, and
/// absent when nothing is left.
pub fn read_dmi_field(content: &str) -> (r: Option<String>)
    ensures
        match r {
            Some(s) => s@ == trim(content@) && s@.len() > 0,
            None => trim(content@).len() == 0,
        },
{
    let t = trim_str(content);
    if t.unicode_len() == 0 {
        return None;
    }
    Some(String::from_str(t))
}

pub open spec fn field_has(f: Option<String>, needle: Seq<char>) -> bool {
    match f {
        Some(s) => has_substring(s@, needle),
        None => false,
    }
}

/// Whether any of the vendor fields contains "TUXEDO".
pub open spec fn tuxedo_vendor_spec(p: DmiProbe) -> bool {
    field_has(p.sys_vendor, "TUXEDO"@) || field_has(p.board_vendor, "TUXEDO"@) || field_has(
        p.chassis_vendor,
        "TUXEDO"@,
    )
}

fn field_contains(f: &Option<String>, needle: &str) -> (r: bool)
    ensures
        r == field_has(*f, needle@),
{
    match f {
        Some(s) => contains(s.as_str(), needle),
        None => false,
    }
}

/// Whether any of the vendor fields contains "TUXEDO".
pub fn is_tuxedo_vendor(probe: &DmiProbe) -> (r: bool)
    ensures
        r == tuxedo_vendor_spec(*probe),
{
    field_contains(&probe.sys_vendor, "TUXEDO") || field_contains(&probe.board_vendor, "TUXEDO")
        || field_contains(&probe.chassis_vendor, "TUXEDO")
}

/// The text of an optional field, empty when it is absent.
pub open spec fn field_text(f: Option<String>) -> Seq<char> {
    match f {
        Some(s) => s@,
        None => Seq::empty(),
    }
}

fn field_or_empty(f: &Option<String>) -> (s: String)
    ensures
        s@ == field_text(*f),
{
    match f {
        Some(s) => s.clone(),
        None => String::new(),
    }
}

/// The board name prefixes of Clevo boards.
pub open spec fn clevo_board_spec(board_name: Seq<char>) -> bool {
    ||| has_prefix(board_name, "N85"@)
    ||| has_prefix(board_name, "N87"@)
    ||| has_prefix(board_name, "N95"@)
    ||| has_prefix(board_name, "N96"@)
    ||| has_prefix(board_name, "P65"@)
    ||| has_prefix(board_name, "P775"@)
    ||| has_prefix(board_name, "W6"@)
}

/// Whether the board name starts with one of the known Clevo prefixes.
pub fn is_clevo_board(board_name: &str) -> (r: bool)
    ensures
        r == clevo_board_spec(board_name@),
{
    starts_with(board_name, "N85") || starts_with(board_name, "N87") || starts_with(
        board_name,
        "N95",
    ) || starts_with(board_name, "N96") || starts_with(board_name, "P65") || starts_with(
        board_name,
        "P775",
    ) || starts_with(board_name, "W6")
}

/// Name, fan count and register variant of an NB05 model by product SKU.
pub open spec fn nb05_model(sku: Seq<char>) -> (Seq<char>, u8, bool) {
    if sku == "PULSE1403"@ {
        ("TUXEDO Pulse 14 Gen3"@, 2, false)
    } else if sku == "PULSE1404"@ {
        ("TUXEDO Pulse 14 Gen4"@, 2, false)
    } else if sku == "IFLX14I01"@ {
        ("TUXEDO InfinityFlex 14 Gen1"@, 1, true)
    } else {
        ("TUXEDO NB05 Device (unknown model)"@, 2, false)
    }
}

/// The NB05 device for a product SKU.
pub fn match_nb05(product_sku: &str) -> (d: TuxedoDevice)
    ensures
        d.name@ == nb05_model(product_sku@).0,
        d.platform == Platform::Nb05,
        d.product_sku@ == product_sku@,
        d.keyboard_type == KeyboardType::Ec,
        d.nb05_data == Some(
            Nb05Data { num_fans: nb05_model(product_sku@).1, fanctl_onereg: nb05_model(product_sku@).2 },
        ),
{
    let (name, num_fans, onereg): (&'static str, u8, bool) = if str_eq(product_sku, "PULSE1403") {
        ("TUXEDO Pulse 14 Gen3", 2, false)
    } else if str_eq(product_sku, "PULSE1404") {
        ("TUXEDO Pulse 14 Gen4", 2, false)
    } else if str_eq(product_sku, "IFLX14I01") {
        ("TUXEDO InfinityFlex 14 Gen1", 1, true)
    } else {
        ("TUXEDO NB05 Device (unknown model)", 2, false)
    };
    TuxedoDevice {
        name,
        platform: Platform::Nb05,
        product_sku: String::from_str(product_sku),
        keyboard_type: KeyboardType::Ec,
        nb05_data: Some(Nb05Data { num_fans, fanctl_onereg: onereg }),
    }
}

/// The NB05 model table: the Pulse 14 (Gen3 `PULSE1403`, Gen4 `PULSE1404`)
/// has two fans on the ranges registers, the InfinityFlex 14 (`IFLX14I01`)
/// one fan on the single register, and any other NB05 board is taken to
/// have two fans on the ranges registers.
pub proof fn lemma_nb05_models(sku: Seq<char>)
    ensures
        sku == "PULSE1403"@ ==> nb05_model(sku) == ("TUXEDO Pulse 14 Gen3"@, 2u8, false),
        sku == "PULSE1404"@ ==> nb05_model(sku) == ("TUXEDO Pulse 14 Gen4"@, 2u8, false),
        sku == "IFLX14I01"@ ==> nb05_model(sku) == ("TUXEDO InfinityFlex 14 Gen1"@, 1u8, true),
        sku != "PULSE1403"@ && sku != "PULSE1404"@ && sku != "IFLX14I01"@ ==> nb05_model(sku)
            == ("TUXEDO NB05 Device (unknown model)"@, 2u8, false),
{
    reveal_strlit("PULSE1403");
    reveal_strlit("PULSE1404");
    reveal_strlit("IFLX14I01");
    assert("PULSE1403"@[8] != "PULSE1404"@[8]);
    assert("PULSE1403"@[0] != "IFLX14I01"@[0]);
}

/// Name, platform and keyboard type that detection settles on for a TUXEDO
/// machine that is not an NB05 board, in the order the checks are made:
/// NB04 WMI interface, "TUXI" SKU, Clevo ACPI device, both Uniwill WMI
/// interfaces, Clevo board name, and Uniwill otherwise.
pub open spec fn non_nb05_class(p: DmiProbe) -> (Seq<char>, Platform, KeyboardType) {
    if p.nb04_wmi_present {
        ("TUXEDO NB04 Device"@, Platform::Nb04, KeyboardType::Wmi)
    } else if has_prefix(field_text(p.product_sku), "TUXI"@) {
        ("TUXEDO Tuxi"@, Platform::Tuxi, KeyboardType::NoBacklight)
    } else if p.clevo_acpi_present {
        ("TUXEDO Clevo Device"@, Platform::Clevo, KeyboardType::Wmi)
    } else if p.uniwill_wmi_ba_present && p.uniwill_wmi_bb_present {
        ("TUXEDO Uniwill Device"@, Platform::Uniwill, KeyboardType::Wmi)
    } else if clevo_board_spec(field_text(p.board_name)) {
        ("TUXEDO Clevo Device"@, Platform::Clevo, KeyboardType::Wmi)
    } else {
        ("TUXEDO Uniwill Device"@, Platform::Uniwill, KeyboardType::Wmi)
    }
}

/// Detects the TUXEDO device from what the daemon probed; `None` when no
/// vendor field names TUXEDO.
pub fn detect_device(probe: &DmiProbe) -> (r: Option<TuxedoDevice>)
    ensures
        !tuxedo_vendor_spec(*probe) ==> r is None,
        tuxedo_vendor_spec(*probe) ==> r is Some,
        r matches Some(d) ==> {
            &&& d.product_sku@ == field_text(probe.product_sku)
            &&& if field_text(probe.board_vendor) == "NB05"@ {
                &&& d.name@ == nb05_model(d.product_sku@).0
                &&& d.platform == Platform::Nb05
                &&& d.keyboard_type == KeyboardType::Ec
                &&& d.nb05_data == Some(
                    Nb05Data {
                        num_fans: nb05_model(d.product_sku@).1,
                        fanctl_onereg: nb05_model(d.product_sku@).2,
                    },
                )
            } else {
                &&& d.name@ == non_nb05_class(*probe).0
                &&& d.platform == non_nb05_class(*probe).1
                &&& d.keyboard_type == non_nb05_class(*probe).2
                &&& d.nb05_data is None
            }
        },
{
    if !is_tuxedo_vendor(probe) {
        return None;
    }
    let product_sku = field_or_empty(&probe.product_sku);
    let board_vendor = field_or_empty(&probe.board_vendor);
    let board_name = field_or_empty(&probe.board_name);

    if str_eq(board_vendor.as_str(), "NB05") {
        return Some(match_nb05(product_sku.as_str()));
    }
    let (name, platform, keyboard_type): (&'static str, Platform, KeyboardType) =
        if probe.nb04_wmi_present {
        ("TUXEDO NB04 Device", Platform::Nb04, KeyboardType::Wmi)
    } else if starts_with(product_sku.as_str(), "TUXI") {
        ("TUXEDO Tuxi", Platform::Tuxi, KeyboardType::NoBacklight)
    } else if probe.clevo_acpi_present {
        ("TUXEDO Clevo Device", Platform::Clevo, KeyboardType::Wmi)
    } else if probe.uniwill_wmi_ba_present && probe.uniwill_wmi_bb_present {
        ("TUXEDO Uniwill Device", Platform::Uniwill, KeyboardType::Wmi)
    } else if is_clevo_board(board_name.as_str()) {
        ("TUXEDO Clevo Device", Platform::Clevo, KeyboardType::Wmi)
    } else {
        ("TUXEDO Uniwill Device", Platform::Uniwill, KeyboardType::Wmi)
    };
    Some(TuxedoDevice { name, platform, product_sku, keyboard_type, nb05_data: None })
}

/// `str::to_uppercase`, by the Unicode case mapping.
pub uninterp spec fn to_uppercase_spec(s: Seq<char>) -> Seq<char>;

/// Calls `str::to_uppercase`; its result is named, not stated: the Unicode
/// case mapping is not written out here.
#[verifier::external_body]
fn to_uppercase(s: &str) -> (r: String)
    ensures
        r@ == to_uppercase_spec(s@),
{
    s.to_uppercase()
}

/// The sysfs nodes under which WMI registers a GUID already in upper case:
/// `{GUID}-0` to `{GUID}-3`.
pub fn wmi_device_paths(upper_guid: &str) -> (paths: Vec<String>)
    ensures
        paths@.len() == 4,
        forall|k: int|
            0 <= k < 4 ==> (#[trigger] paths@[k])@ == "/sys/bus/wmi/devices/"@ + upper_guid@ + "-"@
                + decimal(k as nat),
{
    let mut paths: Vec<String> = Vec::new();
    let mut suffix: u64 = 0;
    while suffix < 4
        invariant
            suffix <= 4,
            paths@.len() == suffix,
            forall|k: int|
                0 <= k < suffix ==> (#[trigger] paths@[k])@ == "/sys/bus/wmi/devices/"@
                    + upper_guid@ + "-"@ + decimal(k as nat),
        decreases 4 - suffix,
    {
        let mut p = String::from_str("/sys/bus/wmi/devices/");
        p.append(upper_guid);
        p.append("-");
        push_decimal(&mut p, suffix);
        paths.push(p);
        suffix = suffix + 1;
    }
    paths
}

/// The sysfs nodes under which WMI registers the GUID, `{GUID}-0` to `{GUID}-3`
/// with the GUID in upper case; the GUID is present when one of them exists.
pub fn wmi_guid_paths(guid: &str) -> (paths: Vec<String>)
    ensures
        paths@.len() == 4,
        forall|k: int|
            0 <= k < 4 ==> (#[trigger] paths@[k])@ == "/sys/bus/wmi/devices/"@ + to_uppercase_spec(
                guid@,
            ) + "-"@ + decimal(k as nat),
{
    let upper = to_uppercase(guid);
    wmi_device_paths(upper.as_str())
}

/// The sysfs node of the Clevo ACPI device.
pub fn clevo_acpi_path() -> (p: String)
    ensures
        p@ == "/sys/bus/acpi/devices/"@ + CLEVO_ACPI_HID@ + ":00"@,
{
    let mut p = String::from_str("/sys/bus/acpi/devices/");
    p.append(CLEVO_ACPI_HID);
    p.append(":00");
    p
}

/// The sysfs node of the tuxedo-ec kernel module's EC RAM.
pub const EC_SYSFS_PATH: &'static str = "/sys/devices/platform/tuxedo-ec/ec_ram";
/// The sysfs directory of the upstream uniwill-laptop driver.
pub const UNIWILL_LAPTOP_PATH: &'static str = "/sys/bus/wmi/drivers/uniwill-laptop/";

} // verus!
