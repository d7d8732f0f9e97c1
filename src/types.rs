//! Records decoded from the sensor's responses.
use vstd::prelude::*;

verus! {

/// Measured values as the sensor reports them, before scaling.
#[derive(Debug, Clone, Copy, PartialEq, Eq)]
pub struct SensorDataInt {
    pub mass_concentration_pm1p0: u16,
    pub mass_concentration_pm2p5: u16,
    pub mass_concentration_pm4p0: u16,
    pub mass_concentration_pm10p0: u16,
    pub ambient_humidity: i16,
    pub ambient_temperature: i16,
    pub voc_index: i16,
    pub nox_index: i16,
}

/// Raw signals of the humidity, temperature, VOC and NOx sensing elements.
#[derive(Debug, Clone, Copy, PartialEq, Eq)]
pub struct SensorDataRaw {
    pub raw_humidity: i16,
    pub raw_temperature: i16,
    pub raw_voc: u16,
    pub raw_nox: u16,
}

pub struct ProductName {
    pub name: &'static str,
}

/// Firmware, hardware and protocol versions of the device.
#[derive(Debug, Clone, Copy, PartialEq, Eq)]
pub struct VersionInfo {
    pub firmware_major: u8,
    pub firmware_minor: u8,
    pub firmware_debug: bool,
    pub hardware_major: u8,
    pub hardware_minor: u8,
    pub protocol_major: u8,
    pub protocol_minor: u8,
}

} // verus!
