//! The sensor's command set, with the opcode and settle delay of each.
use vstd::prelude::*;

verus! {

/// List of SEN5x sensor commands.
#[derive(Debug, Copy, Clone, PartialEq, Eq)]
pub enum Command {
    DeviceReset,
    GetSerialNumber,
    GetVersion,
    GetProductName,
    ReadDeviceStatus,
    SetTemperatureOffsetParameters,
    StartMeasurement,
    StartMeasurementWithoutPm,
    StopMeasurement,
    ReadMeasuredValuesAsIntegers,
    ReadMeasuredRawValues,
    StartFanCleaning,
    GetWarmStartParameter,
    SetWarmStartParameter,
}

impl Command {
    /// The wire opcode of the command and the delay, in milliseconds, that the
    /// device needs after receiving it.
    pub open spec fn table(self) -> (u16, u32) {
        match self {
            Command::DeviceReset => (0xD304, 200),
            Command::GetSerialNumber => (0xD033, 50),
            Command::GetVersion => (0xD100, 20),
            Command::GetProductName => (0xD014, 50),
            Command::ReadDeviceStatus => (0xD206, 20),
            Command::SetTemperatureOffsetParameters => (0x60B2, 20),
            Command::StartMeasurement => (0x0021, 50),
            Command::StartMeasurementWithoutPm => (0x0037, 50),
            Command::StopMeasurement => (0x0104, 50),
            Command::ReadMeasuredValuesAsIntegers => (0x03C4, 20),
            Command::ReadMeasuredRawValues => (0x03D2, 20),
            Command::StartFanCleaning => (0x5607, 20),
            Command::GetWarmStartParameter => (0x60C6, 20),
            Command::SetWarmStartParameter => (0x60C6, 20),
        }
    }

    pub open spec fn opcode(self) -> u16 {
        self.table().0
    }

    pub open spec fn delay_ms(self) -> u32 {
        self.table().1
    }

    /// Get the command opcode and its settle delay in milliseconds.
    pub fn as_tuple(&self) -> (r: (u16, u32))
        ensures
            r == self.table(),
    {
        match self {
            Command::DeviceReset => (0xD304, 200),
            Command::GetSerialNumber => (0xD033, 50),
            Command::GetVersion => (0xD100, 20),
            Command::GetProductName => (0xD014, 50),
            Command::ReadDeviceStatus => (0xD206, 20),
            Command::SetTemperatureOffsetParameters => (0x60B2, 20),
            Command::StartMeasurement => (0x0021, 50),
            Command::StartMeasurementWithoutPm => (0x0037, 50),
            Command::StopMeasurement => (0x0104, 50),
            Command::ReadMeasuredValuesAsIntegers => (0x03C4, 20),
            Command::ReadMeasuredRawValues => (0x03D2, 20),
            Command::StartFanCleaning => (0x5607, 20),
            Command::GetWarmStartParameter => (0x60C6, 20),
            Command::SetWarmStartParameter => (0x60C6, 20),
        }
    }
}

} // verus!
