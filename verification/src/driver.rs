//! Drivers: the pieces of libsigrok that talk to one family of devices.

use vstd::prelude::*;

verus! {

/// The mathematical content of a driver.
pub struct DriverModel {
    pub handle: usize,
    pub name: Seq<char>,
    pub long_name: Seq<char>,
}

/// Sigrok's drivers for all devices.
///
/// Before being able to connect to any device, a driver must be found and
/// used to search for the device. Only a matching pair of (driver, device)
/// can communicate with each other.
#[derive(Clone, Debug)]
pub struct Driver {
    /// Handle of the driver structure inside libsigrok.
    handle: usize,
    /// Driver's name.
    name: String,
    /// Driver's long name.
    long_name: String,
}

impl View for Driver {
    type V = DriverModel;

    closed spec fn view(&self) -> DriverModel {
        DriverModel { handle: self.handle, name: self.name@, long_name: self.long_name@ }
    }
}

impl Default for Driver {
    fn default() -> (d: Driver)
        ensures
            d@ == (DriverModel { handle: 0, name: Seq::empty(), long_name: Seq::empty() }),
    {
        Driver { handle: 0, name: String::new(), long_name: String::new() }
    }
}

impl Driver {
    /// Builds a driver from the handle of its libsigrok structure and its
    /// names.
    pub fn new(handle: usize, name: String, long_name: String) -> (d: Driver)
        ensures
            d@ == (DriverModel { handle, name: name@, long_name: long_name@ }),
    {
        Driver { handle, name, long_name }
    }

    /// Returns the driver's name.
    pub fn get_name(&self) -> (r: &String)
        ensures
            r@ == self@.name,
    {
        &self.name
    }

    /// Returns the driver's long name.
    pub fn get_long_name(&self) -> (r: &String)
        ensures
            r@ == self@.long_name,
    {
        &self.long_name
    }

    /// Returns the handle of the driver structure inside libsigrok.
    pub fn get_pointer(&self) -> (r: usize)
        ensures
            r == self@.handle,
    {
        self.handle
    }
}

} // verus!
