//! Clevo platform: fan control through the `tuxedo-clevo` kernel shim
//! (WMI or ACPI DSM). `fanN_info` packs duty (bits 7..0), temperature
//! (bits 15..8) and RPM (bits 31..16); `fan_speed` takes the duties of
//! fans 0, 1 and 2 in bits 7..0, 15..8 and 23..16.
use crate::sysfs::{indexed_attr, not_found_message, write_number, write_text, AttrWrite};
use crate::text::{decimal, parse_trimmed_u32, parse_unsigned, trim};
use vstd::prelude::*;

verus! {

/// The shim's sysfs directory.
pub const SHIM_SYSFS_PATH: &'static str = "/sys/devices/platform/tuxedo-clevo";
/// The attribute whose presence shows the shim.
pub const SHIM_MARKER_ATTR: &'static str = "fan0_info";

/// A decoded `fanN_info` value.
#[derive(Debug, Clone, Copy, PartialEq, Eq, Structural)]
pub struct FanInfo {
    pub duty: u8,
    pub temp: u8,
    pub rpm: u16,
}

pub open spec fn fan_info_spec(raw: u32) -> FanInfo {
    FanInfo {
        duty: (raw % 0x100) as u8,
        temp: ((raw / 0x100) % 0x100) as u8,
        rpm: (raw / 0x1_0000) as u16,
    }
}

impl FanInfo {
    /// Decodes a `fanN_info` value.
    pub fn parse(raw: u32) -> (info: Self)
        ensures
            info == fan_info_spec(raw),
    {
        let duty = (raw & 0xFF) as u8;
        let temp = ((raw >> 8) & 0xFF) as u8;
        let rpm = ((raw >> 16) & 0xFFFF) as u16;
        assert(raw & 0xFF == raw % 0x100) by (bit_vector);
        assert((raw >> 8) & 0xFF == (raw / 0x100) % 0x100) by (bit_vector);
        assert((raw >> 16) & 0xFFFF == raw / 0x1_0000) by (bit_vector);
        FanInfo { duty, temp, rpm }
    }

    /// Whether any field is non-zero (the fan exists).
    pub open spec fn present(self) -> bool {
        self.duty > 0 || self.temp > 0 || self.rpm > 0
    }
}

/// Decoding the packed fields gives them back.
pub proof fn lemma_fan_info_round_trip(duty: u8, temp: u8, rpm: u16)
    ensures
        fan_info_spec((duty + temp * 0x100 + rpm * 0x1_0000) as u32) == (FanInfo { duty, temp, rpm }),
{
    let raw = duty + temp * 0x100 + rpm * 0x1_0000;
    assert(raw <= 0xffff_ffff);
    assert(raw % 0x100 == duty && (raw / 0x100) % 0x100 == temp && raw / 0x1_0000 == rpm) by (nonlinear_arith)
        requires
            raw == duty + temp * 0x100 + rpm * 0x1_0000,
            0 <= duty < 0x100,
            0 <= temp < 0x100,
            0 <= rpm < 0x1_0000,
    ;
}

/// The fan info in the text of a `fanN_info` attribute, if it holds a `u32`.
pub open spec fn info_from_text(text: Option<Seq<char>>) -> Option<FanInfo> {
    match text {
        Some(t) => match parse_unsigned(trim(t), 10, 0xffff_ffff) {
            Some(v) => Some(fan_info_spec(v as u32)),
            None => None,
        },
        None => None,
    }
}

pub open spec fn opt_view(t: Option<&str>) -> Option<Seq<char>> {
    match t {
        Some(s) => Some(s@),
        None => None,
    }
}

/// The fan count: 1, then 2 when `fan1_info` reads non-zero, then 3 when
/// `fan2_info` does too.
pub open spec fn fan_count_spec(fan1: Option<Seq<char>>, fan2: Option<Seq<char>>) -> u8 {
    if info_from_text(fan1) matches Some(i) && i.present() {
        if info_from_text(fan2) matches Some(j) && j.present() {
            3
        } else {
            2
        }
    } else {
        1
    }
}

/// The packed `fan_speed` value for three duties.
pub open spec fn pack_speeds(s0: u8, s1: u8, s2: u8) -> nat {
    (s0 + s1 * 0x100 + s2 * 0x1_0000) as nat
}

/// The duty that fan `i` keeps during a write: its current duty when its
/// info could be read, 0 otherwise.
pub open spec fn kept_duty(current: Seq<Option<String>>, num_fans: u8, i: int) -> u8 {
    if i < num_fans {
        match current[i] {
            Some(t) => match info_from_text(Some(t@)) {
                Some(info) => info.duty,
                None => 0,
            },
            None => 0,
        }
    } else {
        0
    }
}

/// The duty of fan `i` after fan `fan_index` is set to `pwm`.
pub open spec fn new_duty(
    current: Seq<Option<String>>,
    num_fans: u8,
    fan_index: u8,
    pwm: u8,
    i: int,
) -> u8 {
    if i == fan_index {
        pwm
    } else {
        kept_duty(current, num_fans, i)
    }
}

#[derive(Debug)]
pub struct ClevoPlatform {
    pub shim_path: String,
    pub num_fans: u8,
}

impl ClevoPlatform {
    pub open spec fn wf(self) -> bool {
        1 <= self.num_fans <= 3
    }

    /// The platform at the default shim path.
    pub fn init(marker_present: bool, fan1_info: Option<&str>, fan2_info: Option<&str>) -> (r:
        Result<Self, String>)
        ensures
            marker_present ==> (r matches Ok(p) && p.wf() && p.shim_path@ == SHIM_SYSFS_PATH@
                && p.num_fans == fan_count_spec(opt_view(fan1_info), opt_view(fan2_info))),
            !marker_present ==> (r matches Err(m) && m@ == "Clevo shim"@ + " not found at "@
                + SHIM_SYSFS_PATH@),
    {
        Self::init_with_path(SHIM_SYSFS_PATH, marker_present, fan1_info, fan2_info)
    }

    /// The platform at `shim_path`: `marker_present` tells whether
    /// `fan0_info` exists; `fan1_info` and `fan2_info` are the texts of
    /// those attributes when they could be read.
    pub fn init_with_path(
        shim_path: &str,
        marker_present: bool,
        fan1_info: Option<&str>,
        fan2_info: Option<&str>,
    ) -> (r: Result<Self, String>)
        ensures
            marker_present ==> (r matches Ok(p) && p.wf() && p.shim_path@ == shim_path@
                && p.num_fans == fan_count_spec(opt_view(fan1_info), opt_view(fan2_info))),
            !marker_present ==> (r matches Err(m) && m@ == "Clevo shim"@ + " not found at "@
                + shim_path@),
    {
        if !marker_present {
            return Err(not_found_message("Clevo shim", shim_path));
        }
        let num_fans = Self::probe_fan_count(fan1_info, fan2_info);
        Ok(ClevoPlatform { shim_path: String::from_str(shim_path), num_fans })
    }

    /// Counts the fans from the texts of `fan1_info` and `fan2_info`.
    pub fn probe_fan_count(fan1_info: Option<&str>, fan2_info: Option<&str>) -> (n: u8)
        ensures
            n == fan_count_spec(opt_view(fan1_info), opt_view(fan2_info)),
            1 <= n <= 3,
    {
        let mut count: u8 = 1;
        if let Some(t) = fan1_info {
            if let Some(info) = Self::read_fan_info_at(t) {
                if info.duty > 0 || info.temp > 0 || info.rpm > 0 {
                    count = 2;
                }
            }
        }
        if count == 2 {
            if let Some(t) = fan2_info {
                if let Some(info) = Self::read_fan_info_at(t) {
                    if info.duty > 0 || info.temp > 0 || info.rpm > 0 {
                        count = 3;
                    }
                }
            }
        }
        count
    }

    /// Attribute `fan<i>_info`.
    pub fn info_attr(fan_index: u8) -> (s: String)
        ensures
            s@ == "fan"@ + decimal(fan_index as nat) + "_info"@,
    {
        indexed_attr("fan", fan_index as u64, "_info")
    }

    /// The fan info in the text of a `fanN_info` attribute.
    pub fn read_fan_info_at(content: &str) -> (r: Option<FanInfo>)
        ensures
            r == info_from_text(Some(content@)),
    {
        match parse_trimmed_u32(content) {
            Some(raw) => Some(FanInfo::parse(raw)),
            None => None,
        }
    }

    /// The temperature from the text of `fan0_info`.
    pub fn read_temp(fan0_info: &str) -> (r: Option<u8>)
        ensures
            r == (match info_from_text(Some(fan0_info@)) {
                Some(i) => Some(i.temp),
                None => None,
            }),
    {
        match Self::read_fan_info_at(fan0_info) {
            Some(info) => Some(info.temp),
            None => None,
        }
    }

    /// The duty from the text of `fan<i>_info`.
    pub fn read_pwm(fan_info: &str) -> (r: Option<u8>)
        ensures
            r == (match info_from_text(Some(fan_info@)) {
                Some(i) => Some(i.duty),
                None => None,
            }),
    {
        match Self::read_fan_info_at(fan_info) {
            Some(info) => Some(info.duty),
            None => None,
        }
    }

    /// The RPM from the text of `fan<i>_info`.
    pub fn read_fan_rpm(fan_info: &str) -> (r: Option<u16>)
        ensures
            r == (match info_from_text(Some(fan_info@)) {
                Some(i) => Some(i.rpm),
                None => None,
            }),
    {
        match Self::read_fan_info_at(fan_info) {
            Some(info) => Some(info.rpm),
            None => None,
        }
    }

    /// The write that sets fan `fan_index` to `pwm` and keeps the other
    /// fans at their current duty. `current[i]` is the text of `fan<i>_info`
    /// for each fan, `None` where it could not be read (that fan gets 0).
    pub fn write_pwm(&self, fan_index: u8, pwm: u8, current: &Vec<Option<String>>) -> (w: AttrWrite)
        requires
            self.wf(),
            current@.len() >= self.num_fans,
        ensures
            w.attr@ == "fan_speed"@,
            w.value@ == decimal(
                pack_speeds(
                    new_duty(current@, self.num_fans, fan_index, pwm, 0),
                    new_duty(current@, self.num_fans, fan_index, pwm, 1),
                    new_duty(current@, self.num_fans, fan_index, pwm, 2),
                ),
            ),
    {
        let mut speeds: [u8; 3] = [0, 0, 0];
        let mut i: u8 = 0;
        while i < self.num_fans
            invariant
                self.wf(),
                current@.len() >= self.num_fans,
                i <= self.num_fans,
                forall|k: int| 0 <= k < 3 ==> #[trigger] speeds@[k] == (if k < i {
                    kept_duty(current@, self.num_fans, k)
                } else {
                    0
                }),
            decreases self.num_fans - i,
        {
            if let Some(t) = &current[i as usize] {
                if let Some(info) = Self::read_fan_info_at(t.as_str()) {
                    speeds[i as usize] = info.duty;
                }
            }
            assert(speeds@[i as int] == kept_duty(current@, self.num_fans, i as int));
            i = i + 1;
        }
        if (fan_index as usize) < 3 {
            speeds[fan_index as usize] = pwm;
        }
        let packed: u32 = speeds[0] as u32 | (speeds[1] as u32) << 8 | (speeds[2] as u32) << 16;
        let s0 = speeds[0] as u32;
        let s1 = speeds[1] as u32;
        let s2 = speeds[2] as u32;
        assert(s0 | s1 << 8 | s2 << 16 == s0 + s1 * 0x100 + s2 * 0x1_0000) by (bit_vector)
            requires
                s0 < 0x100,
                s1 < 0x100,
                s2 < 0x100,
        ;
        write_number(String::from_str("fan_speed"), packed as u64)
    }

    /// The write that gives all fans back to the firmware (any fan index).
    pub fn set_auto(fan_index: u8) -> (w: AttrWrite)
        ensures
            w.attr@ == "fan_auto"@,
            w.value@ == "1"@,
    {
        write_text("fan_auto", "1")
    }

    /// The write made on shutdown: automatic fan mode.
    pub fn shutdown(&self) -> (w: AttrWrite)
        ensures
            w.attr@ == "fan_auto"@,
            w.value@ == "1"@,
    {
        write_text("fan_auto", "1")
    }

    pub fn num_fans(&self) -> (n: u8)
        ensures
            n == self.num_fans,
    {
        self.num_fans
    }
}

/// `fan_speed` as the shim reads it: the duty of fan `k` is byte `k` of the
/// packed value, so a write sets the chosen fan and leaves the others at
/// the duty they had.
pub proof fn lemma_packed_speeds_decode(s0: u8, s1: u8, s2: u8)
    ensures
        pack_speeds(s0, s1, s2) % 0x100 == s0,
        (pack_speeds(s0, s1, s2) / 0x100) % 0x100 == s1,
        (pack_speeds(s0, s1, s2) / 0x1_0000) % 0x100 == s2,
{
    let p = pack_speeds(s0, s1, s2);
    assert(p % 0x100 == s0 && (p / 0x100) % 0x100 == s1 && (p / 0x1_0000) % 0x100 == s2) by (nonlinear_arith)
        requires
            p == s0 + s1 * 0x100 + s2 * 0x1_0000,
            0 <= s0 < 0x100,
            0 <= s1 < 0x100,
            0 <= s2 < 0x100,
    ;
}

} // verus!
