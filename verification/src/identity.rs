//! The identity a device reports to the input subsystem.
//!
//! The synthetic device copies the physical device's identity so that
//! downstream consumers see the same vendor/product signature.

use vstd::prelude::*;

verus! {

/// The identity tuple of an input device: bus type, vendor, product,
/// version.
#[derive(Clone, Copy, PartialEq, Eq, Structural, Debug)]
pub struct InputIdentity {
    /// The bus the device is attached by.
    pub bus_type: u16,
    /// The vendor identifier.
    pub vendor: u16,
    /// The product identifier.
    pub product: u16,
    /// The device version.
    pub version: u16,
}

impl InputIdentity {
    /// Builds an identity value.
    pub fn new(bus_type: u16, vendor: u16, product: u16, version: u16) -> (id: InputIdentity)
        ensures
            id == (InputIdentity { bus_type, vendor, product, version }),
    {
        InputIdentity { bus_type, vendor, product, version }
    }
}

} // verus!
