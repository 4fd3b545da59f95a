//! Records for managing the platform: stations and what they are built
//! from, users and organizations.

pub mod user;

use crate::fixed::Fixed;
use vstd::prelude::*;

verus! {

/// A station: a receiver that picks up telegrams and submits them under its
/// token.
#[derive(Debug, Clone)]
pub struct Station {
    /// Unique identifier (a UUID, as its 128-bit number).
    pub id: u128,
    /// Secret token that the station sends with every telegram.
    pub token: Option<String>,
    /// Name of the station.
    pub name: String,
    /// Latitude in degrees.
    pub lat: Fixed,
    /// Longitude in degrees.
    pub lon: Fixed,
    /// Region in which the station stands.
    pub region: i64,
    /// The user who owns the station (a UUID).
    pub owner: u128,
    /// Whether the station may submit data.
    pub approved: bool,
    /// Whether the station is deleted; it is kept for consistency.
    pub deactivated: bool,
    /// Whether what is known of the station may be shared.
    pub public: bool,
    /// Number of its [`Radio`].
    pub radio: Option<i32>,
    /// Number of its [`Architecture`].
    pub architecture: Option<i32>,
    /// Number of its [`Device`].
    pub device: Option<i32>,
    /// Elevation of the antenna in metres.
    pub elevation: Option<Fixed>,
    /// Number of its [`Antenna`].
    pub antenna: Option<i32>,
    /// Version of the decoder that runs on the station.
    pub telegram_decoder_version: Option<String>,
    /// Free-form notes.
    pub notes: Option<String>,
    /// The organization that the station belongs to (a UUID).
    pub organization: u128,
}

/// The computer that a station runs on.
#[derive(Clone, Copy, Debug, PartialEq, Eq, Structural)]
pub enum Device {
    /// Unknown or unlisted.
    Other,
    /// Raspberry Pi 3.
    Raspberry3,
    /// Raspberry Pi 3b.
    Raspberry3b,
    /// Raspberry Pi 3b+.
    Raspberry3bPlus,
    /// Raspberry Pi 4.
    Raspberry4,
    /// Odroid C1.
    OdroidC1,
    /// Odroid C2.
    OdroidC2,
    /// Odroid C4.
    OdroidC4,
    /// Odroid N2.
    OdroidN2,
    /// Odroid U2.
    OdroidU2,
    /// Odroid U3.
    OdroidU3,
    /// Pine H64.
    PineH64,
    /// Pine Rock 64.
    PineRock64,
    /// Dell Wyse 3040.
    DellWyse3040,
}

/// The software-defined radio of a station.
#[derive(Clone, Copy, Debug, PartialEq, Eq, Structural)]
pub enum Radio {
    /// Unknown or unlisted.
    Other,
    /// HackRF.
    HackRf,
    /// RTL-SDR.
    RTLSDR,
    /// NESDR.
    NESDR,
}

/// The processor architecture of a station.
#[derive(Clone, Copy, Debug, PartialEq, Eq, Structural)]
pub enum Architecture {
    /// Unknown or unlisted.
    Other,
    /// x86, 64 bit.
    X86,
    /// ARMv8, 64 bit.
    Aarch64,
}

/// The kind of antenna of a station.
#[derive(Clone, Copy, Debug, PartialEq, Eq, Structural)]
pub enum Antenna {
    /// Unknown or unlisted.
    Other,
    /// Dipole.
    Dipole,
    /// Ground plane.
    GroundPlane,
    /// Yagi.
    Yagi,
}

/// How the data inside the telegrams of a region is encoded.
#[derive(Clone, Copy, Debug, PartialEq, Eq, Structural)]
pub enum Encoding {
    /// Unknown or unlisted.
    Other,
    /// On-off keying.
    OnOffKeying,
    /// Nemo.
    Nemo,
}

/// The name under which a device is configured.
pub open spec fn device_name(device: Device) -> Seq<char> {
    match device {
        Device::Raspberry3 | Device::Raspberry3b | Device::Raspberry3bPlus => "rpi3"@,
        Device::Raspberry4 => "rpi4"@,
        Device::DellWyse3040 => "dell-wyse-3040"@,
        _ => "other"@,
    }
}

/// The name of the system that an architecture is built as.
pub open spec fn arch_name(arch: Architecture) -> Seq<char> {
    match arch {
        Architecture::X86 => "x86_64-linux"@,
        Architecture::Aarch64 => "aarch64-linux"@,
        Architecture::Other => "other"@,
    }
}

/// The name under which a device is configured: the three Raspberry Pi 3
/// models share one, and every device without a name of its own is "other".
pub fn device_to_string(device: &Device) -> (name: String)
    ensures
        name@ == device_name(*device),
{
    match device {
        Device::Raspberry3 => "rpi3".to_owned(),
        Device::Raspberry3b => "rpi3".to_owned(),
        Device::Raspberry3bPlus => "rpi3".to_owned(),
        Device::Raspberry4 => "rpi4".to_owned(),
        Device::DellWyse3040 => "dell-wyse-3040".to_owned(),
        _ => "other".to_owned(),
    }
}

/// The name of the system that an architecture is built as.
pub fn arch_to_string(arch: &Architecture) -> (name: String)
    ensures
        name@ == arch_name(*arch),
{
    match arch {
        Architecture::X86 => "x86_64-linux".to_owned(),
        Architecture::Aarch64 => "aarch64-linux".to_owned(),
        Architecture::Other => "other".to_owned(),
    }
}

} // verus!
