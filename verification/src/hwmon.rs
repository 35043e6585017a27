//! Generic hwmon sysfs client: which device to use, and the attributes it
//! reads and writes under `/sys/class/hwmon/hwmonN/`.
use crate::sysfs::{indexed_attr, two_writes, write_number, writes_view, AttrWrite};
use crate::text::{
    decimal, parse_signed, parse_trimmed_i32, parse_trimmed_u16, parse_trimmed_u8,
    parse_unsigned, str_eq, trim, trim_str,
};
use vstd::prelude::*;

verus! {

/// Where hwmon devices are listed.
pub const HWMON_CLASS_PATH: &'static str = "/sys/class/hwmon";

/// One directory under the hwmon class: its path, the contents of its
/// `name` attribute if it could be read, and whether `pwm1` to `pwm4` exist.
#[derive(Debug)]
pub struct HwmonEntry {
    pub path: String,
    pub name: Option<String>,
    pub pwm_present: [bool; 4],
}

/// Handle to one hwmon device.
#[derive(Debug)]
pub struct HwmonDevice {
    pub path: String,
    pub num_fans: u8,
}

/// The number of consecutive `pwmN` attributes from `pwm1` on.
pub open spec fn fan_count_spec(present: Seq<bool>) -> u8 {
    if !present[0] {
        0
    } else if !present[1] {
        1
    } else if !present[2] {
        2
    } else if !present[3] {
        3
    } else {
        4
    }
}

/// Whether the `name` attribute of an entry names `name`.
pub open spec fn entry_named(e: HwmonEntry, name: Seq<char>) -> bool {
    e.name matches Some(n) && trim(n@) == name
}

/// The index of the first entry named `name` at or after `i`.
pub open spec fn first_named_from(entries: Seq<HwmonEntry>, name: Seq<char>, i: int) -> Option<int>
    decreases entries.len() - i,
{
    if i < 0 || i >= entries.len() {
        None
    } else if entry_named(entries[i], name) {
        Some(i)
    } else {
        first_named_from(entries, name, i + 1)
    }
}

/// Degrees C from millidegrees: divided by 1000 toward zero, clamped to 0..=255.
pub open spec fn celsius_from_millideg(v: int) -> u8 {
    if v < 0 {
        0
    } else if v / 1000 > 255 {
        255
    } else {
        (v / 1000) as u8
    }
}

impl HwmonDevice {
    /// Counts the consecutive `pwmN` attributes from `pwm1` on.
    pub fn probe_fan_count(present: &[bool; 4]) -> (n: u8)
        ensures
            n == fan_count_spec(present@),
    {
        let mut count: u8 = 0;
        let mut i: usize = 0;
        while i < 4
            invariant
                i <= 4,
                count == i,
                forall|k: int| 0 <= k < i ==> present@[k],
            decreases 4 - i,
        {
            if !present[i] {
                return count;
            }
            count = count + 1;
            i = i + 1;
        }
        count
    }

    /// The first listed device whose `name` attribute (trimmed) is `name`,
    /// with its fan count; otherwise the not-found message.
    pub fn find_by_name(entries: &Vec<HwmonEntry>, name: &str) -> (r: Result<HwmonDevice, String>)
        ensures
            match first_named_from(entries@, name@, 0) {
                Some(k) => r matches Ok(d) && d.path == entries@[k].path && d.num_fans
                    == fan_count_spec(entries@[k].pwm_present@),
                None => r matches Err(m) && m@ == "no hwmon device named '"@ + name@ + "'"@,
            },
    {
        let mut i: usize = 0;
        while i < entries.len()
            invariant
                i <= entries@.len(),
                first_named_from(entries@, name@, 0) == first_named_from(entries@, name@, i as int),
            decreases entries.len() - i,
        {
            let e = &entries[i];
            match &e.name {
                Some(content) => {
                    if str_eq(trim_str(content.as_str()), name) {
                        return Ok(
                            HwmonDevice {
                                path: e.path.clone(),
                                num_fans: Self::probe_fan_count(&e.pwm_present),
                            },
                        );
                    }
                },
                None => {},
            }
            i = i + 1;
        }
        let mut m = String::from_str("no hwmon device named '");
        m.append(name);
        m.append("'");
        Err(m)
    }

    /// Attribute `tempN_input`.
    pub fn temp_attr(index: u8) -> (s: String)
        ensures
            s@ == "temp"@ + decimal(index as nat) + "_input"@,
    {
        indexed_attr("temp", index as u64, "_input")
    }

    /// Attribute `fanN_input`.
    pub fn fan_attr(index: u8) -> (s: String)
        ensures
            s@ == "fan"@ + decimal(index as nat) + "_input"@,
    {
        indexed_attr("fan", index as u64, "_input")
    }

    /// Attribute `pwmN`.
    pub fn pwm_attr(index: u8) -> (s: String)
        ensures
            s@ == "pwm"@ + decimal(index as nat),
    {
        let s = indexed_attr("pwm", index as u64, "");
        proof {
            reveal_strlit("");
        }
        assert(s@ =~= "pwm"@ + decimal(index as nat));
        s
    }

    /// Degrees C from the text of `tempN_input` (millidegrees C); `None`
    /// when it is not an `i32`.
    pub fn read_temp(content: &str) -> (r: Option<u8>)
        ensures
            match parse_signed(trim(content@), -0x8000_0000, 0x7fff_ffff) {
                Some(v) => r == Some(celsius_from_millideg(v)),
                None => r is None,
            },
    {
        match parse_trimmed_i32(content) {
            None => None,
            Some(millideg) => {
                if millideg < 0 {
                    Some(0)
                } else if millideg / 1000 > 255 {
                    Some(255)
                } else {
                    Some((millideg / 1000) as u8)
                }
            },
        }
    }

    /// RPM from the text of `fanN_input`.
    pub fn read_fan_rpm(content: &str) -> (r: Option<u16>)
        ensures
            match r {
                Some(v) => parse_unsigned(trim(content@), 10, 0xffff) == Some(v as nat),
                None => parse_unsigned(trim(content@), 10, 0xffff) is None,
            },
    {
        parse_trimmed_u16(content)
    }

    /// PWM 0-255 from the text of `pwmN`.
    pub fn read_pwm(content: &str) -> (r: Option<u8>)
        ensures
            match r {
                Some(v) => parse_unsigned(trim(content@), 10, 255) == Some(v as nat),
                None => parse_unsigned(trim(content@), 10, 255) is None,
            },
    {
        parse_trimmed_u8(content)
    }

    /// The write of `pwm` to `pwmN`.
    pub fn write_pwm(index: u8, pwm: u8) -> (w: AttrWrite)
        ensures
            w.attr@ == "pwm"@ + decimal(index as nat),
            w.value@ == decimal(pwm as nat),
    {
        write_number(Self::pwm_attr(index), pwm as u64)
    }

    /// The write of `mode` to `pwmN_enable` (1 manual, 2 auto).
    pub fn write_pwm_enable(index: u8, mode: u8) -> (w: AttrWrite)
        ensures
            w.attr@ == "pwm"@ + decimal(index as nat) + "_enable"@,
            w.value@ == decimal(mode as nat),
    {
        write_number(indexed_attr("pwm", index as u64, "_enable"), mode as u64)
    }

    pub fn path(&self) -> (p: &str)
        ensures
            p@ == self.path@,
    {
        self.path.as_str()
    }

    pub fn num_fans(&self) -> (n: u8)
        ensures
            n == self.num_fans,
    {
        self.num_fans
    }

    /// The writes that give fan `fan_index` (0-based) a PWM value: manual
    /// mode on `pwm<fan_index + 1>_enable`, then the value.
    pub fn manual_pwm_writes(fan_index: u8, pwm: u8) -> (ws: Vec<AttrWrite>)
        requires
            fan_index < 255,
        ensures
            writes_view(ws@) == seq![
                ("pwm"@ + decimal((fan_index + 1) as nat) + "_enable"@, decimal(1)),
                ("pwm"@ + decimal((fan_index + 1) as nat), decimal(pwm as nat)),
            ],
    {
        let idx = fan_index + 1;
        two_writes(Self::write_pwm_enable(idx, 1), Self::write_pwm(idx, pwm))
    }

    /// The write that puts fan `fan_index` (0-based) under firmware control.
    pub fn auto_write(fan_index: u8) -> (w: AttrWrite)
        requires
            fan_index < 255,
        ensures
            w.attr@ == "pwm"@ + decimal((fan_index + 1) as nat) + "_enable"@,
            w.value@ == decimal(2),
    {
        Self::write_pwm_enable(fan_index + 1, 2)
    }
}

/// A PWM value written through `write_pwm` reads back unchanged through
/// `read_pwm`.
pub proof fn lemma_pwm_write_read_back(pwm: u8)
    ensures
        parse_unsigned(trim(decimal(pwm as nat)), 10, 255) == Some(pwm as nat),
{
    crate::text::lemma_trim_decimal(pwm as nat);
    crate::text::lemma_parse_decimal(pwm as nat, 255);
}

} // verus!
