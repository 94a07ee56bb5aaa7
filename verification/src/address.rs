//! Addresses: a name and one device of that name.

use crate::error::{validation_error, BridgeError};
use crate::table::TableKey;
use vstd::prelude::*;

verus! {

/// What an address stands for: a name and a device id.
pub type AddressView = (Seq<char>, u32);

/// The largest device id.
pub const MAX_DEVICE_ID: u32 = 127;

/// The device ids are 1 to 127.
pub open spec fn valid_device_id(id: u32) -> bool {
    1 <= id <= MAX_DEVICE_ID
}

/// Accepts a device id in its range.
pub fn make_device_id(id: u32) -> (r: Result<u32, BridgeError>)
    ensures
        match r {
            Ok(device) => valid_device_id(id) && device == id,
            Err(e) => !valid_device_id(id) && crate::error::refused_with(
                e,
                "Invalid device ID (must be 1-127)"@,
            ),
        },
{
    if 1 <= id && id <= MAX_DEVICE_ID {
        Ok(id)
    } else {
        Err(validation_error("Invalid device ID (must be 1-127)"))
    }
}

/// A party's device: the party's name and the device's id.
#[derive(Debug)]
pub struct WasmProtocolAddress {
    name: String,
    device_id: u32,
}

impl View for WasmProtocolAddress {
    type V = AddressView;

    closed spec fn view(&self) -> AddressView {
        (self.name@, self.device_id)
    }
}

impl WasmProtocolAddress {
    #[verifier::type_invariant]
    spec fn inv(&self) -> bool {
        valid_device_id(self.device_id)
    }

    /// The address of a device, whose id must be in range.
    pub fn new(name: String, device_id: u32) -> (r: Result<WasmProtocolAddress, BridgeError>)
        ensures
            match r {
                Ok(address) => valid_device_id(device_id) && address@ == (name@, device_id),
                Err(e) => !valid_device_id(device_id) && crate::error::refused_with(
                    e,
                    "Invalid device ID (must be 1-127)"@,
                ),
            },
    {
        match make_device_id(device_id) {
            Ok(device_id) => Ok(WasmProtocolAddress { name, device_id }),
            Err(e) => Err(e),
        }
    }

    /// The party's name.
    pub fn name(&self) -> (name: String)
        ensures
            name@ == self@.0,
    {
        self.name.clone()
    }

    /// The device's id, which is in range.
    pub fn device_id(&self) -> (id: u32)
        ensures
            id == self@.1,
            valid_device_id(id),
    {
        proof {
            use_type_invariant(self);
        }
        self.device_id
    }
}

impl Clone for WasmProtocolAddress {
    fn clone(&self) -> (copy: Self)
        ensures
            copy@ == self@,
    {
        proof {
            use_type_invariant(self);
        }
        WasmProtocolAddress { name: self.name.clone(), device_id: self.device_id }
    }
}

impl TableKey for WasmProtocolAddress {
    fn same_key(&self, other: &Self) -> (same: bool) {
        self.device_id == other.device_id && self.name == other.name
    }

    fn copy_key(&self) -> (copy: Self) {
        self.clone()
    }
}

} // verus!
