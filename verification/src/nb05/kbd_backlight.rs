//! NB05 keyboard backlight: a white LED with 3 brightness steps, written
//! as EC duty values. The register differs between Pulse and InfinityFlex.
use crate::ec::EcWrite;
use crate::text::{decimal, push_decimal, str_eq};
use vstd::prelude::*;

verus! {

/// Highest brightness step (0 off, 1 dim, 2 bright).
pub const BRIGHTNESS_MAX: u8 = 2;

/// The EC duty value of a brightness step.
pub open spec fn step_duty(step: u8) -> u8 {
    if step == 0 {
        0x00
    } else if step == 1 {
        0x5c
    } else {
        0xb8
    }
}

/// The brightness register for a product SKU.
pub open spec fn register_for(sku: Seq<char>) -> u16 {
    if sku == "IFLX14I01"@ {
        0x03e2
    } else {
        0x0409
    }
}

#[derive(Debug, Clone, Copy)]
pub struct KbdBacklight {
    /// EC register of the brightness.
    pub register: u16,
}

impl KbdBacklight {
    /// The backlight of the model with this product SKU.
    pub fn new(product_sku: &str) -> (k: Self)
        ensures
            k.register == register_for(product_sku@),
    {
        let register = if str_eq(product_sku, "IFLX14I01") {
            0x03e2
        } else {
            0x0409
        };
        KbdBacklight { register }
    }

    /// The write that sets a brightness step; an error above step 2.
    pub fn set_brightness(&self, step: u8) -> (r: Result<EcWrite, String>)
        ensures
            step <= BRIGHTNESS_MAX ==> r == Ok::<EcWrite, String>(
                EcWrite { addr: self.register, value: step_duty(step) },
            ),
            step > BRIGHTNESS_MAX ==> (r matches Err(m) && m@ == "brightness step "@ + decimal(
                step as nat,
            ) + " exceeds max "@ + decimal(BRIGHTNESS_MAX as nat)),
    {
        if step > BRIGHTNESS_MAX {
            let mut m = String::from_str("brightness step ");
            push_decimal(&mut m, step as u64);
            m.append(" exceeds max ");
            push_decimal(&mut m, BRIGHTNESS_MAX as u64);
            return Err(m);
        }
        let map: [u8; 3] = [0x00, 0x5c, 0xb8];
        Ok(EcWrite { addr: self.register, value: map[step as usize] })
    }
}

} // verus!
