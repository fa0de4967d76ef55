//! Powers an external display on and off from a screen-mirroring session
//! marker file and the host's idle time.
//!
//! The library holds the decisions: which file-system notifications mean a
//! session started or ended, how a power register value reads as on or off,
//! how often a power-on write is retried, and what the reconciliation loop
//! does for each event. The hardware access goes through `ddc` / `ddc_i2c`.
use vstd::prelude::*;

pub mod device;
pub mod display;
pub mod reconcile;
pub mod watch;

use crate::device::PowerDevice;

verus! {

/// Whether a mirroring client is connected.
#[derive(Debug, Clone, Copy, PartialEq, Eq, Structural)]
pub enum ConnectionState {
    Connected,
    Disconnected,
}

#[verifier::external_type_specification]
#[verifier::external_body]
pub struct ExIoError(std::io::Error);

/// What can go wrong while talking to the display.
#[derive(Debug)]
pub enum DisplayError {
    /// The bus device could not be opened, read or written.
    Device(std::io::Error),
    /// The power register held a value that is neither the "on" nor the "off" value.
    UnexpectedValue(u16),
    /// Every power-on attempt was rejected.
    PowerOnFailed { attempts: u32 },
}

/// Where the display's control bus is and which power register values mean on and off.
#[derive(Debug, Clone)]
pub struct I2cConfig {
    pub on: u16,
    pub off: u16,
    pub path: String,
}

impl I2cConfig {
    /// Opens a fresh handle to the bus device at `path`.
    pub fn connect(&self) -> (r: Result<PowerDevice, DisplayError>)
        ensures
            r is Err ==> r->Err_0 is Device,
            r matches Ok(dev) ==> dev.writes() == Seq::<device::FeatureWrite>::empty(),
    {
        match device::open_device(&self.path) {
            Ok(d) => Ok(d),
            Err(e) => Err(DisplayError::Device(e)),
        }
    }

    /// The register values for "on" and "off", in that order.
    pub fn values(&self) -> (r: (u16, u16))
        ensures
            r == (self.on, self.off),
    {
        (self.on, self.off)
    }
}

} // verus!
