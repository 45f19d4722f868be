use i2cdev::linux::LinuxI2CError;
use vstd::prelude::*;

verus! {

/// The bus error of i2cdev, carried through unchanged: nothing here looks inside it.
#[verifier::external_type_specification]
#[verifier::external_body]
pub struct ExLinuxI2CError(LinuxI2CError);

/// Why a read from the UPS could not be turned into a record.
#[derive(Debug)]
pub enum Error {
    /// The bus transaction itself failed.
    I2CError(LinuxI2CError),
    /// The block read from register `.0` held `.2` bytes where `.1` were expected.
    InvalidDataLen(u8, usize, usize),
    /// The three charger activity bits held the undefined code `.0`.
    InvalidChargerActivity(u8),
}

impl From<LinuxI2CError> for Error {
    fn from(err: LinuxI2CError) -> (r: Self)
        ensures
            r == Error::I2CError(err),
    {
        Error::I2CError(err)
    }
}

impl vstd::std_specs::convert::FromSpecImpl<LinuxI2CError> for Error {
    open spec fn obeys_from_spec() -> bool {
        true
    }

    open spec fn from_spec(err: LinuxI2CError) -> Self {
        Error::I2CError(err)
    }
}

} // verus!
