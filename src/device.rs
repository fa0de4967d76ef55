//! The display's control-bus device, reached through `ddc_i2c` and `ddc`.
use ddc::Ddc;
use vstd::prelude::*;

verus! {

/// An open DDC/CI handle on an i2c device node.
///
/// The handle's type names the standard library's file type, which the
/// verifier cannot be told about, so the handle is kept opaque here and
/// reached only through the functions below.
#[verifier::external_body]
pub struct DdcHandle {
    handle: ddc_i2c::I2cDeviceDdc,
}

/// One write to a feature register, and whether the device accepted it.
#[derive(Debug, Clone, Copy, PartialEq, Eq, Structural)]
pub struct FeatureWrite {
    pub code: u8,
    pub value: u16,
    pub accepted: bool,
}

/// An open device, with the record of the writes made through it.
///
/// The record starts empty when the device is opened and grows only by
/// `write_feature`, one entry per call.
pub struct PowerDevice {
    handle: DdcHandle,
    writes: Ghost<Seq<FeatureWrite>>,
}

impl PowerDevice {
    /// The writes made through this device, in order.
    pub closed spec fn writes(&self) -> Seq<FeatureWrite> {
        self.writes@
    }
}

/// The writes made through all the devices handed to `absorb`, in order.
///
/// It can only grow by the record of a device.
pub struct BusLog {
    writes: Ghost<Seq<FeatureWrite>>,
}

impl BusLog {
    pub closed spec fn writes(&self) -> Seq<FeatureWrite> {
        self.writes@
    }

    pub fn new() -> (r: Self)
        ensures
            r.writes() == Seq::<FeatureWrite>::empty(),
    {
        BusLog { writes: Ghost(Seq::empty()) }
    }

    /// Releases `dev`, appending the writes made through it.
    pub fn absorb(&mut self, dev: PowerDevice)
        ensures
            final(self).writes() == old(self).writes() + dev.writes(),
    {
        self.writes = Ghost(self.writes@ + dev.writes@);
    }
}

/// Relies on `ddc_i2c::from_i2c_device`: opens the i2c device node at `path`
/// and wraps it in a DDC/CI handle, or returns the I/O error.
#[verifier::external_body]
fn open_handle(path: &String) -> (r: Result<DdcHandle, std::io::Error>) {
    ddc_i2c::from_i2c_device(path.as_str()).map(|handle| DdcHandle { handle })
}

/// Opens the device at `path`, with no writes made through it yet.
pub fn open_device(path: &String) -> (r: Result<PowerDevice, std::io::Error>)
    ensures
        r matches Ok(dev) ==> dev.writes() == Seq::<FeatureWrite>::empty(),
{
    match open_handle(path) {
        Ok(handle) => Ok(PowerDevice { handle, writes: Ghost(Seq::empty()) }),
        Err(e) => Err(e),
    }
}

/// Relies on `ddc::Ddc::set_vcp_feature`: writes the 16-bit `value` to the
/// VCP feature register `code`, and returns whether the device accepted it.
/// The call is recorded in the device's writes.
#[verifier::external_body]
pub(crate) fn write_feature(dev: &mut PowerDevice, code: u8, value: u16) -> (r: Result<(), std::io::Error>)
    ensures
        final(dev).writes() == old(dev).writes().push(
            FeatureWrite { code, value, accepted: r is Ok },
        ),
{
    dev.handle.handle.set_vcp_feature(code, value).map_err(std::io::Error::from)
}

} // verus!
