//! What is installed of the SGX software: the driver, the platform software
//! and the AESM service, each known by the files it leaves.

use vstd::prelude::*;

verus! {

/// The socket of the AESM service.
pub const PATH_AESM_SOCKET: &'static str = "/var/run/aesmd/aesm.socket";

/// The device of the out-of-tree driver.
pub const PATH_DEVICE_ISGX: &'static str = "/dev/isgx";

/// The device of the driver of the data-center attestation primitives.
pub const PATH_DEVICE_SGX: &'static str = "/dev/sgx";

/// The device of the in-kernel driver.
pub const PATH_DEVICE_SGX_ENCLAVE: &'static str = "/dev/sgx_enclave";

/// The configuration of the AESM service.
pub const PATH_AESMD_CONF: &'static str = "/etc/aesmd.conf";

/// Which of the files of an SGX installation exist.
#[derive(Clone, Copy, Debug, PartialEq, Eq, Structural)]
pub struct Installation {
    /// Whether `PATH_DEVICE_ISGX` exists.
    pub device_isgx: bool,
    /// Whether `PATH_DEVICE_SGX` exists.
    pub device_sgx: bool,
    /// Whether `PATH_DEVICE_SGX_ENCLAVE` exists.
    pub device_sgx_enclave: bool,
    /// Whether `PATH_AESMD_CONF` exists.
    pub aesmd_conf: bool,
    /// Whether `PATH_AESM_SOCKET` exists.
    pub aesm_socket: bool,
}

impl Installation {
    /// A driver is loaded where one of the three devices exists.
    pub open spec fn has_driver(self) -> bool {
        self.device_isgx || self.device_sgx || self.device_sgx_enclave
    }

    /// The platform software is installed where a driver is loaded and the
    /// configuration of the AESM service exists.
    pub open spec fn has_psw(self) -> bool {
        self.has_driver() && self.aesmd_conf
    }

    /// The AESM service is installed where its socket exists.
    pub open spec fn has_aesmd(self) -> bool {
        self.aesm_socket
    }
}

/// Whether the AESM service is installed.
pub fn aesmd_installed(files: &Installation) -> (r: bool)
    ensures
        r == files.has_aesmd(),
{
    files.aesm_socket
}

/// Whether an SGX driver is loaded.
pub fn driver_loaded(files: &Installation) -> (r: bool)
    ensures
        r == files.has_driver(),
{
    files.device_isgx || files.device_sgx || files.device_sgx_enclave
}

/// Whether the platform software is installed.
pub fn psw_installed(files: &Installation) -> (r: bool)
    ensures
        r == files.has_psw(),
{
    driver_loaded(files) && files.aesmd_conf
}

} // verus!
