use sen5x::scripted::{NoopDelay, ScriptError, ScriptedBus};
use sen5x::sen5x::{Sen5x, SEN5X_I2C_ADDRESS};
use sen5x::types::{SensorDataRaw, VersionInfo};
use sen5x::{Command, Error, SensorDataInt};

/// Lays out 16-bit words as the sensor sends them: two bytes and a checksum each.
fn words(ws: &[u16]) -> Vec<u8> {
    let mut out = Vec::new();
    for w in ws {
        let b = w.to_be_bytes();
        out.push(b[0]);
        out.push(b[1]);
        out.push(sensirion_i2c::crc8::calculate(&b));
    }
    out
}

fn sensor(replies: Vec<Vec<u8>>) -> Sen5x<ScriptedBus, NoopDelay> {
    Sen5x::new(ScriptedBus::new(replies), NoopDelay::new())
}

#[test]
fn test_get_serial_number() {
    let (cmd, _) = Command::GetSerialNumber.as_tuple();
    let mut sensor = sensor(vec![vec![0xbe, 0xef, 0x92, 0xbe, 0xef, 0x92, 0xbe, 0xef, 0x92]]);
    let serial = sensor.serial_number().unwrap();
    assert_eq!(serial, 0xbeefbeefbeef);
    let (bus, _) = sensor.release();
    assert_eq!(bus.written(), &vec![cmd.to_be_bytes().to_vec()]);
    assert_eq!(bus.reads(), &vec![9usize]);
}

#[test]
fn address_is_fixed() {
    assert_eq!(SEN5X_I2C_ADDRESS, 0x69);
}

fn check_no_reply_command(
    run: fn(&mut Sen5x<ScriptedBus, NoopDelay>) -> Result<(), Error<ScriptError>>,
    opcode: [u8; 2],
) {
    let mut sensor = sensor(vec![]);
    assert_eq!(run(&mut sensor), Ok(()));
    let (bus, _) = sensor.release();
    assert_eq!(bus.written(), &vec![opcode.to_vec()]);
    assert!(bus.reads().is_empty());
}

#[test]
fn device_reset_writes_opcode_only() {
    check_no_reply_command(|s| s.device_reset(), [0xD3, 0x04]);
}

#[test]
fn start_measurement_writes_opcode_only() {
    check_no_reply_command(|s| s.start_measurement(), [0x00, 0x21]);
}

#[test]
fn start_measurement_without_pm_writes_opcode_only() {
    check_no_reply_command(|s| s.start_measurement_without_pm(), [0x00, 0x37]);
}

#[test]
fn stop_measurement_writes_opcode_only() {
    check_no_reply_command(|s| s.stop_measurement(), [0x01, 0x04]);
}

#[test]
fn start_fan_cleaning_writes_opcode_only() {
    check_no_reply_command(|s| s.start_fan_cleaning(), [0x56, 0x07]);
}

#[test]
fn failed_write_is_reported() {
    let mut sensor = Sen5x::new(ScriptedBus::refusing_writes(vec![]), NoopDelay::new());
    assert_eq!(sensor.device_reset(), Err(Error::I2c(ScriptError::WriteRefused)));
}

#[test]
fn set_warm_start_parameter_frame() {
    let mut sensor = sensor(vec![]);
    assert_eq!(sensor.set_warm_start_parameter(0x1234), Ok(()));
    let (bus, _) = sensor.release();
    assert_eq!(bus.written(), &vec![vec![0x60, 0xC6, 0x12, 0x34, 0x37]]);
    assert!(bus.reads().is_empty());
}

#[test]
fn set_warm_start_parameter_write_failure() {
    let mut sensor = Sen5x::new(ScriptedBus::refusing_writes(vec![]), NoopDelay::new());
    assert_eq!(
        sensor.set_warm_start_parameter(0x0001),
        Err(Error::I2c(ScriptError::WriteRefused))
    );
}

#[test]
fn checksum_mismatch_is_reported() {
    let mut reply = words(&[0xbeef, 0xbeef, 0xbeef]);
    reply[5] ^= 0x01;
    let mut sensor = sensor(vec![reply]);
    assert_eq!(sensor.serial_number(), Err(Error::Crc));
}

#[test]
fn failed_write_prevents_read() {
    let reply = words(&[0xbeef, 0xbeef, 0xbeef]);
    let mut sensor = Sen5x::new(ScriptedBus::refusing_writes(vec![reply]), NoopDelay::new());
    assert_eq!(sensor.serial_number(), Err(Error::I2c(ScriptError::WriteRefused)));
    let (bus, _) = sensor.release();
    assert_eq!(bus.written().len(), 1);
    assert!(bus.reads().is_empty());
}

#[test]
fn failed_read_is_reported() {
    let mut sensor = sensor(vec![]);
    assert_eq!(sensor.read_device_status(), Err(Error::I2c(ScriptError::NoReply)));
    let mut sensor = self::sensor(vec![words(&[1])]);
    assert_eq!(sensor.read_device_status(), Err(Error::I2c(ScriptError::LengthMismatch)));
}

#[test]
fn device_status_joins_two_words() {
    let mut sensor = sensor(vec![words(&[0x0020, 0x0010])]);
    assert_eq!(sensor.read_device_status(), Ok(0x0020_0010));
    let (bus, _) = sensor.release();
    assert_eq!(bus.written(), &vec![vec![0xD2, 0x06]]);
    assert_eq!(bus.reads(), &vec![6usize]);
}

#[test]
fn warm_start_parameter_is_read() {
    let mut sensor = sensor(vec![words(&[0x8000])]);
    assert_eq!(sensor.get_warm_start_parameter(), Ok(0x8000));
    let (bus, _) = sensor.release();
    assert_eq!(bus.written(), &vec![vec![0x60, 0xC6]]);
}

#[test]
fn version_info_fields() {
    let reply = words(&[0x0207, 0x0004, 0x0501, 0x0000]);
    let mut sensor = sensor(vec![reply]);
    let v = sensor.get_version_info().unwrap();
    assert_eq!(
        v,
        VersionInfo {
            firmware_major: 2,
            firmware_minor: 7,
            firmware_debug: false,
            hardware_major: 4,
            hardware_minor: 5,
            protocol_major: 1,
            protocol_minor: 0,
        }
    );
    let (bus, _) = sensor.release();
    assert_eq!(bus.written(), &vec![vec![0xD1, 0x00]]);
    assert_eq!(bus.reads(), &vec![12usize]);
}

#[test]
fn version_info_debug_flag() {
    let reply = words(&[0x0207, 0x0104, 0x0501, 0x0000]);
    let mut sensor = sensor(vec![reply]);
    assert!(sensor.get_version_info().unwrap().firmware_debug);
}

#[test]
fn measured_values_as_integers() {
    let reply = words(&[10, 25, 40, 100, 4500, 0xFF38, 0xFFFF, 0x7FFF]);
    let mut sensor = sensor(vec![reply]);
    let v = sensor.read_measured_values_as_integers().unwrap();
    assert_eq!(
        v,
        SensorDataInt {
            mass_concentration_pm1p0: 10,
            mass_concentration_pm2p5: 25,
            mass_concentration_pm4p0: 40,
            mass_concentration_pm10p0: 100,
            ambient_humidity: 4500,
            ambient_temperature: -200,
            voc_index: -1,
            nox_index: 0x7FFF,
        }
    );
    let (bus, _) = sensor.release();
    assert_eq!(bus.written(), &vec![vec![0x03, 0xC4]]);
    assert_eq!(bus.reads(), &vec![24usize]);
}

#[test]
fn measured_raw_values_one_per_word() {
    let reply = words(&[0xFFFE, 0x0102, 0x8304, 0x0506]);
    let mut sensor = sensor(vec![reply]);
    let v = sensor.read_measured_raw_values().unwrap();
    assert_eq!(
        v,
        SensorDataRaw {
            raw_humidity: -2,
            raw_temperature: 0x0102,
            raw_voc: 0x8304,
            raw_nox: 0x0506,
        }
    );
    let (bus, _) = sensor.release();
    assert_eq!(bus.written(), &vec![vec![0x03, 0xD2]]);
    assert_eq!(bus.reads(), &vec![12usize]);
}
