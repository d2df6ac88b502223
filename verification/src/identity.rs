//! The emulated system, controller devices and firmware a movie is recorded for.
use vstd::prelude::*;

use crate::input::TasDigest;
use crate::text::{clone_string, str_eq};

verus! {

/// One input device plugged into a named port (such as `p1`).
#[derive(Debug, PartialEq, Eq)]
pub struct TasDeviceIdentity {
    pub port: String,
    pub device: String,
}

/// Firmware a movie requires.
#[derive(Debug, PartialEq, Eq)]
pub enum TasFirmwareIdentity {
    /// Firmware built into the emulator core.
    Builtin { firmware_id: String },
    /// A firmware image supplied by the user, identified by its id and digest.
    External { firmware_id: String, digest: TasDigest },
}

/// What a movie is recorded for.
#[derive(Debug, PartialEq, Eq)]
pub struct TasProjectIdentity {
    pub system: String,
    pub devices: Vec<TasDeviceIdentity>,
    pub firmware: Vec<TasFirmwareIdentity>,
    pub effective_media_digest: TasDigest,
}

/// Mathematical model of a device.
pub struct DeviceModel {
    pub port: Seq<char>,
    pub device: Seq<char>,
}

/// Mathematical model of a firmware requirement.
pub enum FirmwareModel {
    Builtin { firmware_id: Seq<char> },
    External { firmware_id: Seq<char>, digest: TasDigest },
}

/// Mathematical model of an identity.
pub struct IdentityModel {
    pub system: Seq<char>,
    pub devices: Seq<DeviceModel>,
    pub firmware: Seq<FirmwareModel>,
    pub effective_media_digest: TasDigest,
}

impl View for TasDeviceIdentity {
    type V = DeviceModel;

    open spec fn view(&self) -> DeviceModel {
        DeviceModel { port: self.port@, device: self.device@ }
    }
}

impl View for TasFirmwareIdentity {
    type V = FirmwareModel;

    open spec fn view(&self) -> FirmwareModel {
        match self {
            TasFirmwareIdentity::Builtin { firmware_id } => FirmwareModel::Builtin {
                firmware_id: firmware_id@,
            },
            TasFirmwareIdentity::External { firmware_id, digest } => FirmwareModel::External {
                firmware_id: firmware_id@,
                digest: *digest,
            },
        }
    }
}

impl View for TasProjectIdentity {
    type V = IdentityModel;

    open spec fn view(&self) -> IdentityModel {
        IdentityModel {
            system: self.system@,
            devices: self.devices@.map_values(|d: TasDeviceIdentity| d@),
            firmware: self.firmware@.map_values(|f: TasFirmwareIdentity| f@),
            effective_media_digest: self.effective_media_digest,
        }
    }
}

impl TasDeviceIdentity {
    pub fn new(port: &str, device: &str) -> (r: Self)
        ensures
            r.port@ == port@,
            r.device@ == device@,
    {
        TasDeviceIdentity { port: port.to_owned(), device: device.to_owned() }
    }

    pub fn clone_device(&self) -> (r: Self)
        ensures
            r@ == self@,
    {
        TasDeviceIdentity { port: clone_string(&self.port), device: clone_string(&self.device) }
    }
}

impl TasFirmwareIdentity {
    pub fn clone_firmware(&self) -> (r: Self)
        ensures
            r@ == self@,
    {
        match self {
            TasFirmwareIdentity::Builtin { firmware_id } => TasFirmwareIdentity::Builtin {
                firmware_id: clone_string(firmware_id),
            },
            TasFirmwareIdentity::External { firmware_id, digest } => TasFirmwareIdentity::External {
                firmware_id: clone_string(firmware_id),
                digest: *digest,
            },
        }
    }
}

impl TasProjectIdentity {
    pub fn clone_identity(&self) -> (r: Self)
        ensures
            r@ == self@,
    {
        let mut devices: Vec<TasDeviceIdentity> = Vec::new();
        let mut i: usize = 0;
        while i < self.devices.len()
            invariant
                0 <= i <= self.devices@.len(),
                devices@.len() == i,
                forall|k: int| 0 <= k < i ==> (#[trigger] devices@[k])@ == self.devices@[k]@,
            decreases self.devices@.len() - i,
        {
            devices.push(self.devices[i].clone_device());
            i += 1;
        }
        let mut firmware: Vec<TasFirmwareIdentity> = Vec::new();
        let mut j: usize = 0;
        while j < self.firmware.len()
            invariant
                0 <= j <= self.firmware@.len(),
                firmware@.len() == j,
                forall|k: int| 0 <= k < j ==> (#[trigger] firmware@[k])@ == self.firmware@[k]@,
            decreases self.firmware@.len() - j,
        {
            firmware.push(self.firmware[j].clone_firmware());
            j += 1;
        }
        let r = TasProjectIdentity {
            system: clone_string(&self.system),
            devices,
            firmware,
            effective_media_digest: self.effective_media_digest,
        };
        proof {
            assert(r@.devices =~= self@.devices);
            assert(r@.firmware =~= self@.firmware);
        }
        r
    }

    /// Whether some device of the identity is `device`.
    pub fn has_device(&self, device: &str) -> (r: bool)
        ensures
            r == exists|k: int| 0 <= k < self.devices@.len() && (#[trigger] self.devices@[k]).device@ == device@,
    {
        let mut i: usize = 0;
        while i < self.devices.len()
            invariant
                0 <= i <= self.devices@.len(),
                forall|k: int| 0 <= k < i ==> (#[trigger] self.devices@[k]).device@ != device@,
            decreases self.devices@.len() - i,
        {
            if str_eq(self.devices[i].device.as_str(), device) {
                return true;
            }
            i += 1;
        }
        false
    }

    /// Whether the system id is `system`.
    pub fn system_is(&self, system: &str) -> (r: bool)
        ensures
            r == (self.system@ == system@),
    {
        str_eq(self.system.as_str(), system)
    }
}

} // verus!
