//! EC RAM of NB05 devices, exposed by the tuxedo-ec kernel module as a
//! 64 KiB binary sysfs file in which each byte offset is an EC address.
use vstd::prelude::*;

verus! {

/// The EC RAM sysfs file.
pub const EC_RAM_PATH: &'static str = "/sys/devices/platform/tuxedo-ec/ec_ram";
/// EC address of the firmware major version.
pub const FW_VERSION_MAJOR_ADDR: u16 = 0x0400;
/// EC address of the firmware minor version.
pub const FW_VERSION_MINOR_ADDR: u16 = 0x0401;

/// A write of one byte to an EC address.
#[derive(Debug, Clone, Copy, PartialEq, Eq, Structural)]
pub struct EcWrite {
    pub addr: u16,
    pub value: u8,
}

/// Writes as (address, value) pairs, for contracts.
pub open spec fn ec_writes_view(ws: Seq<EcWrite>) -> Seq<(u16, u8)> {
    ws.map_values(|w: EcWrite| (w.addr, w.value))
}

/// Appends the write of `value` to `addr`.
pub fn push_write(v: &mut Vec<EcWrite>, addr: u16, value: u8)
    ensures
        ec_writes_view(final(v)@) == ec_writes_view(old(v)@).push((addr, value)),
{
    v.push(EcWrite { addr, value });
    assert(ec_writes_view(v@) =~= ec_writes_view(old(v)@).push((addr, value)));
}

/// The writes of `value` to the `count` consecutive addresses from `first`.
pub open spec fn fill_spec(first: u16, count: nat, value: u8) -> Seq<(u16, u8)> {
    Seq::new(count, |i: int| ((first + i) as u16, value))
}

/// Appends writes of `value` to `count` consecutive addresses from `first`.
pub fn push_fill(v: &mut Vec<EcWrite>, first: u16, count: u16, value: u8)
    requires
        first + count <= 0x1_0000,
    ensures
        ec_writes_view(final(v)@) == ec_writes_view(old(v)@) + fill_spec(first, count as nat, value),
{
    let ghost start = ec_writes_view(v@);
    let mut i: u16 = 0;
    while i < count
        invariant
            first + count <= 0x1_0000,
            i <= count,
            ec_writes_view(v@) == start + fill_spec(first, i as nat, value),
        decreases count - i,
    {
        push_write(v, first + i, value);
        i = i + 1;
        assert(ec_writes_view(v@) =~= start + fill_spec(first, i as nat, value));
    }
}

} // verus!
