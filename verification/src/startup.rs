//! What the daemon starts: the platform of the detected device, when its
//! kernel interface is present, and which started platform drives the fans.
use crate::dmi::Platform;
use vstd::prelude::*;

verus! {

/// Whether to start platform `p`: the detected device is of platform `p`
/// and `p`'s kernel interface (the EC module for NB05, the shim for the
/// others) is present.
pub fn should_start(device: Option<Platform>, p: Platform, interface_present: bool) -> (r: bool)
    ensures
        r == (device == Some(p) && interface_present),
{
    match device {
        Some(d) => d == p && interface_present,
        None => false,
    }
}

/// The platform whose fans the daemon controls, among those started, in
/// the order NB05, Uniwill, Tuxi, Clevo; `None` when none of them started.
/// NB04 has no fan control and is never chosen.
pub fn choose_fan_backend(nb05: bool, uniwill: bool, tuxi: bool, clevo: bool) -> (r: Option<
    Platform,
>)
    ensures
        r == (if nb05 {
            Some(Platform::Nb05)
        } else if uniwill {
            Some(Platform::Uniwill)
        } else if tuxi {
            Some(Platform::Tuxi)
        } else if clevo {
            Some(Platform::Clevo)
        } else {
            None
        }),
        r matches Some(p) ==> p != Platform::Nb04,
{
    if nb05 {
        Some(Platform::Nb05)
    } else if uniwill {
        Some(Platform::Uniwill)
    } else if tuxi {
        Some(Platform::Tuxi)
    } else if clevo {
        Some(Platform::Clevo)
    } else {
        None
    }
}

} // verus!
