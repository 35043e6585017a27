//! NB05 temperature and fan RPM sensors in EC RAM. Fan 1 reads its RPM
//! from 0x0298 (high) and 0x0299 (low), fan 2 from 0x0218 and 0x0219.
use crate::text::str_eq;
use vstd::prelude::*;

verus! {

/// EC address of the CPU temperature in degrees C.
pub const CPU_TEMP_ADDR: u16 = 0x0470;
/// EC addresses (high, low) of the fan 1 RPM.
pub const FAN1_RPM_HIGH: u16 = 0x0298;
pub const FAN1_RPM_LOW: u16 = 0x0299;
/// EC addresses (high, low) of the fan 2 RPM.
pub const FAN2_RPM_HIGH: u16 = 0x0218;
pub const FAN2_RPM_LOW: u16 = 0x0219;

/// The RPM from its high and low register bytes.
pub fn rpm_from_bytes(high: u8, low: u8) -> (rpm: u16)
    ensures
        rpm == high * 256 + low,
{
    let h = high as u16;
    let l = low as u16;
    assert((h << 8) | l == h * 256 + l) by (bit_vector)
        requires
            h < 256,
            l < 256,
    ;
    (h << 8) | l
}

/// Lowest and highest fan RPM of a model.
#[derive(Debug, Clone, Copy, PartialEq, Eq, Structural)]
pub struct FanLimits {
    pub min_rpm: u16,
    pub max_rpm: u16,
}

/// The fan limits of the model with this product SKU: 0-5600 RPM for the
/// InfinityFlex, 0-5400 RPM otherwise.
pub fn fan_limits(product_sku: &str) -> (l: FanLimits)
    ensures
        l == (if product_sku@ == "IFLX14I01"@ {
            FanLimits { min_rpm: 0, max_rpm: 5600 }
        } else {
            FanLimits { min_rpm: 0, max_rpm: 5400 }
        }),
{
    if str_eq(product_sku, "IFLX14I01") {
        FanLimits { min_rpm: 0, max_rpm: 5600 }
    } else {
        FanLimits { min_rpm: 0, max_rpm: 5400 }
    }
}

} // verus!
