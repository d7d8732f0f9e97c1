//! The SEN5x driver: command transactions on the bus and decoding of the
//! responses.
use vstd::prelude::*;

use crate::bus::{received, DelayMs, I2cBus, Transfer};
use crate::checksum::{crc8, crc8_of, crc_words_valid, word_ok, words_valid};
use crate::commands::Command;
use crate::error::Error;
use crate::types::{SensorDataInt, SensorDataRaw, VersionInfo};
use crate::utils::{
    be_i16, be_u16, get_bool_from_buf, get_i16_from_buf, get_u16_from_buf, get_u32_from_buf,
    get_u64_from_buf, get_u8_from_buf,
};

verus! {

pub const SEN5X_I2C_ADDRESS: u8 = 0x69;

/// The two big-endian bytes of a 16-bit word.
pub open spec fn word_bytes(w: u16) -> Seq<u8> {
    seq![(w / 256) as u8, (w % 256) as u8]
}


/// One step a driver takes with what it owns, in the order taken: a bus
/// transaction as the bus records it, or a settle delay.
pub enum Event<E> {
    Bus(Transfer<E>),
    Wait(u32),
}

/// The write of `frame` to the sensor, ending in `outcome`.
pub open spec fn frame_write<E>(frame: Seq<u8>, outcome: Result<(), E>) -> Event<E> {
    Event::Bus(Transfer::Write(SEN5X_I2C_ADDRESS, frame, outcome))
}

/// The write that issues `cmd` without a payload, ending in `outcome`.
pub open spec fn command_write<E>(cmd: Command, outcome: Result<(), E>) -> Event<E> {
    frame_write(word_bytes(cmd.opcode()), outcome)
}

/// The frame that issues `cmd` with the payload `value`, guarded by `checksum`.
pub open spec fn payload_frame_spec(cmd: Command, value: u16, checksum: u8) -> Seq<u8> {
    word_bytes(cmd.opcode()) + word_bytes(value) + seq![checksum]
}

/// The steps of a command that sends `frame` and expects no reply: one write
/// of `frame`, followed by the settle delay where the write succeeded. No read
/// is issued. The result is `Ok` exactly when the write succeeded, and the
/// bus's own error otherwise.
pub open spec fn wrote_frame<E>(
    e0: Seq<Event<E>>,
    e1: Seq<Event<E>>,
    frame: Seq<u8>,
    delay: u32,
    r: Result<(), Error<E>>,
) -> bool {
    &&& r is Ok ==> e1 == e0.push(frame_write(frame, Ok(()))).push(Event::Wait(delay))
    &&& r is Err ==> r->Err_0 is I2c && e1 == e0.push(frame_write(frame, Err(r->Err_0->I2c_0)))
}

/// The steps of a command without payload that expects no reply.
pub open spec fn wrote_command<E>(
    e0: Seq<Event<E>>,
    e1: Seq<Event<E>>,
    cmd: Command,
    r: Result<(), Error<E>>,
) -> bool {
    wrote_frame(e0, e1, word_bytes(cmd.opcode()), cmd.delay_ms(), r)
}

/// What a command returns for the outcome `data` of its read: the bus's own
/// error where the read failed, a checksum error where a word of the reply does not
/// match its checksum, and `decode` of the reply otherwise.
pub open spec fn reply_result<T, E>(
    data: Result<Seq<u8>, E>,
    r: Result<T, Error<E>>,
    decode: spec_fn(Seq<u8>) -> T,
) -> bool {
    match data {
        Err(e) => r == Err::<T, Error<E>>(Error::I2c(e)),
        Ok(raw) => if words_valid(raw) {
            r is Ok && r->Ok_0 == decode(raw)
        } else {
            r is Err && r->Err_0 is Crc
        },
    }
}

/// The steps of a command that expects a reply of `len` bytes. Either the
/// write failed, and the bus error is reported with no delay and no read; or
/// the write succeeded, the settle delay came next, and then one read, the
/// result being as `reply_result` says of what that read received.
pub open spec fn read_reply<T, E>(
    e0: Seq<Event<E>>,
    e1: Seq<Event<E>>,
    cmd: Command,
    len: nat,
    r: Result<T, Error<E>>,
    decode: spec_fn(Seq<u8>) -> T,
) -> bool {
    ||| {
        &&& r is Err && r->Err_0 is I2c
        &&& e1 == e0.push(command_write(cmd, Err(r->Err_0->I2c_0)))
    }
    ||| {
        &&& e1.len() == e0.len() + 3
        &&& e1 == e0.push(command_write(cmd, Ok(()))).push(Event::Wait(cmd.delay_ms())).push(
            e1.last(),
        )
        &&& e1.last() is Bus
        &&& e1.last()->Bus_0 is Read
        &&& e1.last()->Bus_0->Read_0 == SEN5X_I2C_ADDRESS
        &&& e1.last()->Bus_0->Read_1 == len
        &&& reply_result(e1.last()->Bus_0->Read_2, r, decode)
    }
}

/// A reply buffer seen as its bytes.
pub open spec fn bytes_result<E>(r: Result<Vec<u8>, Error<E>>) -> Result<Seq<u8>, Error<E>> {
    match r {
        Ok(v) => Ok(v@),
        Err(e) => Err(e),
    }
}

/// A command that expects no reply puts exactly one transaction on the bus:
/// a write of the two bytes of its opcode. No read follows it.
pub proof fn lemma_no_reply_single_write<E>(
    e0: Seq<Event<E>>,
    e1: Seq<Event<E>>,
    cmd: Command,
    r: Result<(), Error<E>>,
)
    requires
        wrote_command(e0, e1, cmd, r),
    ensures
        e1.subrange(0, e0.len() as int) == e0,
        e1[e0.len() as int] is Bus,
        e1[e0.len() as int]->Bus_0 is Write,
        e1[e0.len() as int]->Bus_0->Write_0 == SEN5X_I2C_ADDRESS,
        e1[e0.len() as int]->Bus_0->Write_1 == word_bytes(cmd.opcode()),
        word_bytes(cmd.opcode()).len() == 2,
        forall|i: int| e0.len() < i < e1.len() ==> (#[trigger] e1[i]) is Wait,
{
    assert(e1.subrange(0, e0.len() as int) =~= e0);
}

/// Where a word of the reply does not match its checksum, a command that
/// reads reports a checksum error and returns no decoded data; it issued one
/// write and one read, and nothing more.
pub proof fn lemma_checksum_mismatch_reported<T, E>(
    e0: Seq<Event<E>>,
    e1: Seq<Event<E>>,
    cmd: Command,
    len: nat,
    r: Result<T, Error<E>>,
    decode: spec_fn(Seq<u8>) -> T,
    raw: Seq<u8>,
    k: int,
)
    requires
        read_reply(e0, e1, cmd, len, r, decode),
        e1.last() == Event::Bus(Transfer::Read(SEN5X_I2C_ADDRESS, len, Ok::<Seq<u8>, E>(raw))),
        0 <= k < raw.len() / 3,
        !word_ok(raw, k),
    ensures
        r is Err,
        r->Err_0 is Crc,
        e1 == e0.push(command_write(cmd, Ok(()))).push(Event::Wait(cmd.delay_ms())).push(e1.last()),
{
}

/// Where writing the command fails, a command that reads reports the bus
/// error, issues no read and does not wait.
pub proof fn lemma_failed_write_stops_read<T, E>(
    e0: Seq<Event<E>>,
    e1: Seq<Event<E>>,
    cmd: Command,
    len: nat,
    r: Result<T, Error<E>>,
    decode: spec_fn(Seq<u8>) -> T,
    e: E,
)
    requires
        read_reply(e0, e1, cmd, len, r, decode),
        e1.len() > e0.len(),
        e1[e0.len() as int] == command_write(cmd, Err::<(), E>(e)),
    ensures
        e1 == e0.push(command_write(cmd, Err::<(), E>(e))),
        r == Err::<T, Error<E>>(Error::I2c(e)),
{
    if e1.len() == e0.len() + 3 {
        assert(e1[e0.len() as int] == command_write(cmd, Ok::<(), E>(())));
    } else {
        assert(e1[e0.len() as int] == command_write(cmd, Err::<(), E>(r->Err_0->I2c_0)));
    }
}

/// The 48-bit serial number carried by the three words of its reply.
pub open spec fn serial_of(raw: Seq<u8>) -> u64 {
    (be_u16(raw, 0) * 0x1_0000_0000 + be_u16(raw, 3) * 0x1_0000 + be_u16(raw, 6)) as u64
}

/// The status register carried by the two words of its reply.
pub open spec fn status_of(raw: Seq<u8>) -> u32 {
    (be_u16(raw, 0) * 0x1_0000 + be_u16(raw, 3)) as u32
}

pub open spec fn warm_start_of(raw: Seq<u8>) -> u16 {
    be_u16(raw, 0) as u16
}

/// Version fields in the first seven data bytes of the reply, the checksum
/// byte after each pair of data bytes left out.
pub open spec fn version_of(raw: Seq<u8>) -> VersionInfo {
    VersionInfo {
        firmware_major: raw[0],
        firmware_minor: raw[1],
        firmware_debug: raw[3] != 0,
        hardware_major: raw[4],
        hardware_minor: raw[6],
        protocol_major: raw[7],
        protocol_minor: raw[9],
    }
}

/// Measured values, one per word of the reply: four unsigned mass
/// concentrations, then humidity, temperature, VOC and NOx as signed values.
pub open spec fn measured_of(raw: Seq<u8>) -> SensorDataInt {
    SensorDataInt {
        mass_concentration_pm1p0: be_u16(raw, 0) as u16,
        mass_concentration_pm2p5: be_u16(raw, 3) as u16,
        mass_concentration_pm4p0: be_u16(raw, 6) as u16,
        mass_concentration_pm10p0: be_u16(raw, 9) as u16,
        ambient_humidity: be_i16(raw, 12) as i16,
        ambient_temperature: be_i16(raw, 15) as i16,
        voc_index: be_i16(raw, 18) as i16,
        nox_index: be_i16(raw, 21) as i16,
    }
}

/// Raw signals, one per data word of the reply: humidity and temperature
/// signed, VOC and NOx unsigned.
pub open spec fn raw_signals_of(raw: Seq<u8>) -> SensorDataRaw {
    SensorDataRaw {
        raw_humidity: be_i16(raw, 0) as i16,
        raw_temperature: be_i16(raw, 3) as i16,
        raw_voc: be_u16(raw, 6) as u16,
        raw_nox: be_u16(raw, 9) as u16,
    }
}

/// The two big-endian bytes of `w`, as a buffer.
fn word_frame(w: u16) -> (r: Vec<u8>)
    ensures
        r@ == word_bytes(w),
{
    let mut v: Vec<u8> = Vec::new();
    v.push((w / 256) as u8);
    v.push((w % 256) as u8);
    v
}

/// The frame that sets a parameter: the opcode of `cmd`, the big-endian
/// `value` and the checksum of the value's two bytes.
pub fn payload_frame(cmd: Command, value: u16, checksum: u8) -> (r: Vec<u8>)
    ensures
        r@ == payload_frame_spec(cmd, value, checksum),
{
    let (opcode, _) = cmd.as_tuple();
    let mut v = word_frame(opcode);
    v.push((value / 256) as u8);
    v.push((value % 256) as u8);
    v.push(checksum);
    assert(v@ =~= payload_frame_spec(cmd, value, checksum));
    v
}

/// Accepts a reply only when every word carries a matching checksum.
pub fn check_words<E>(raw: Vec<u8>) -> (r: Result<Vec<u8>, Error<E>>)
    requires
        raw@.len() % 3 == 0,
    ensures
        words_valid(raw@) ==> r == Ok::<Vec<u8>, Error<E>>(raw),
        !words_valid(raw@) ==> r is Err && r->Err_0 is Crc,
{
    if crc_words_valid(raw.as_slice()) {
        Ok(raw)
    } else {
        Err(Error::Crc)
    }
}

/// Decodes the serial number from a `GetSerialNumber` reply.
pub fn decode_serial_number(raw: &[u8]) -> (r: u64)
    requires
        raw@.len() == 9,
    ensures
        r == serial_of(raw@),
{
    let mut logical: Vec<u8> = Vec::new();
    logical.push(0);
    logical.push(0);
    logical.push(raw[0]);
    logical.push(raw[1]);
    logical.push(raw[3]);
    logical.push(raw[4]);
    logical.push(raw[6]);
    logical.push(raw[7]);
    get_u64_from_buf(logical.as_slice(), 0)
}

/// Decodes the status register from a `ReadDeviceStatus` reply.
pub fn decode_device_status(raw: &[u8]) -> (r: u32)
    requires
        raw@.len() == 6,
    ensures
        r == status_of(raw@),
{
    let mut logical: Vec<u8> = Vec::new();
    logical.push(raw[0]);
    logical.push(raw[1]);
    logical.push(raw[3]);
    logical.push(raw[4]);
    get_u32_from_buf(logical.as_slice(), 0)
}

/// Decodes the version fields from a `GetVersion` reply.
pub fn decode_version_info(raw: &[u8]) -> (r: VersionInfo)
    requires
        raw@.len() == 12,
    ensures
        r == version_of(raw@),
{
    VersionInfo {
        firmware_major: get_u8_from_buf(raw, 0),
        firmware_minor: get_u8_from_buf(raw, 1),
        firmware_debug: get_bool_from_buf(raw, 3),
        hardware_major: get_u8_from_buf(raw, 4),
        hardware_minor: get_u8_from_buf(raw, 6),
        protocol_major: get_u8_from_buf(raw, 7),
        protocol_minor: get_u8_from_buf(raw, 9),
    }
}

/// Decodes the measured values from a `ReadMeasuredValuesAsIntegers` reply.
pub fn decode_measured_values(raw: &[u8]) -> (r: SensorDataInt)
    requires
        raw@.len() == 24,
    ensures
        r == measured_of(raw@),
{
    SensorDataInt {
        mass_concentration_pm1p0: get_u16_from_buf(raw, 0),
        mass_concentration_pm2p5: get_u16_from_buf(raw, 3),
        mass_concentration_pm4p0: get_u16_from_buf(raw, 6),
        mass_concentration_pm10p0: get_u16_from_buf(raw, 9),
        ambient_humidity: get_i16_from_buf(raw, 12),
        ambient_temperature: get_i16_from_buf(raw, 15),
        voc_index: get_i16_from_buf(raw, 18),
        nox_index: get_i16_from_buf(raw, 21),
    }
}

/// Decodes the raw signals from a `ReadMeasuredRawValues` reply.
pub fn decode_raw_values(raw: &[u8]) -> (r: SensorDataRaw)
    requires
        raw@.len() == 12,
    ensures
        r == raw_signals_of(raw@),
{
    SensorDataRaw {
        raw_humidity: get_i16_from_buf(raw, 0),
        raw_temperature: get_i16_from_buf(raw, 3),
        raw_voc: get_u16_from_buf(raw, 6),
        raw_nox: get_u16_from_buf(raw, 9),
    }
}

/// SEN5X sensor instance. Use related methods to take measurements.
pub struct Sen5x<I2C: I2cBus, D> {
    i2c: I2C,
    delay: D,
    steps: Ghost<Seq<Event<I2C::Error>>>,
}

impl<I2C: I2cBus, D: DelayMs> Sen5x<I2C, D> {
    /// The bus the driver owns.
    pub closed spec fn bus(&self) -> I2C {
        self.i2c
    }

    /// The delay provider the driver owns.
    pub closed spec fn clock(&self) -> D {
        self.delay
    }

    /// Every step taken since the driver was made, oldest first. Each bus step
    /// is the transaction the bus recorded for that call, and each wait the
    /// delay the delay provider recorded.
    pub closed spec fn events(&self) -> Seq<Event<I2C::Error>> {
        self.steps@
    }

    pub fn new(i2c: I2C, delay: D) -> (r: Self)
        ensures
            r.bus() == i2c,
            r.clock() == delay,
            r.events() == Seq::<Event<I2C::Error>>::empty(),
    {
        Sen5x { i2c, delay, steps: Ghost(Seq::empty()) }
    }

    /// Gives back the bus and the delay provider.
    pub fn release(self) -> (r: (I2C, D))
        ensures
            r.0 == self.bus(),
            r.1 == self.clock(),
    {
        (self.i2c, self.delay)
    }

    /// Reset the sensor
    pub fn device_reset(&mut self) -> (r: Result<(), Error<I2C::Error>>)
        ensures
            wrote_command(old(self).events(), final(self).events(), Command::DeviceReset, r),
    {
        self.write_command(Command::DeviceReset)
    }

    /// Get 48-bit serial number
    pub fn serial_number(&mut self) -> (r: Result<u64, Error<I2C::Error>>)
        ensures
            read_reply(old(self).events(), final(self).events(), Command::GetSerialNumber, 9, r,
                |raw| serial_of(raw)),
    {
        let raw = self.delayed_read_cmd(Command::GetSerialNumber, 9)?;
        Ok(decode_serial_number(raw.as_slice()))
    }

    pub fn get_version_info(&mut self) -> (r: Result<VersionInfo, Error<I2C::Error>>)
        ensures
            read_reply(old(self).events(), final(self).events(), Command::GetVersion, 12, r,
                |raw| version_of(raw)),
    {
        let raw = self.delayed_read_cmd(Command::GetVersion, 12)?;
        Ok(decode_version_info(raw.as_slice()))
    }

    pub fn read_device_status(&mut self) -> (r: Result<u32, Error<I2C::Error>>)
        ensures
            read_reply(old(self).events(), final(self).events(), Command::ReadDeviceStatus, 6, r,
                |raw| status_of(raw)),
    {
        let raw = self.delayed_read_cmd(Command::ReadDeviceStatus, 6)?;
        Ok(decode_device_status(raw.as_slice()))
    }

    /// Start periodic measurement
    pub fn start_measurement(&mut self) -> (r: Result<(), Error<I2C::Error>>)
        ensures
            wrote_command(old(self).events(), final(self).events(), Command::StartMeasurement, r),
    {
        self.write_command(Command::StartMeasurement)
    }

    /// Start periodic measurement without PM
    pub fn start_measurement_without_pm(&mut self) -> (r: Result<(), Error<I2C::Error>>)
        ensures
            wrote_command(old(self).events(), final(self).events(),
                Command::StartMeasurementWithoutPm, r),
    {
        self.write_command(Command::StartMeasurementWithoutPm)
    }

    /// Stop periodic measurement
    pub fn stop_measurement(&mut self) -> (r: Result<(), Error<I2C::Error>>)
        ensures
            wrote_command(old(self).events(), final(self).events(), Command::StopMeasurement, r),
    {
        self.write_command(Command::StopMeasurement)
    }

    /// Start fan cleaning
    pub fn start_fan_cleaning(&mut self) -> (r: Result<(), Error<I2C::Error>>)
        ensures
            wrote_command(old(self).events(), final(self).events(), Command::StartFanCleaning, r),
    {
        self.write_command(Command::StartFanCleaning)
    }

    /// Get warm start parameter
    pub fn get_warm_start_parameter(&mut self) -> (r: Result<u16, Error<I2C::Error>>)
        ensures
            read_reply(old(self).events(), final(self).events(), Command::GetWarmStartParameter, 3,
                r, |raw| warm_start_of(raw)),
    {
        let raw = self.delayed_read_cmd(Command::GetWarmStartParameter, 3)?;
        Ok(get_u16_from_buf(raw.as_slice(), 0))
    }

    /// Set warm start parameter. The write carries the value and its checksum;
    /// on success the settle delay follows.
    pub fn set_warm_start_parameter(&mut self, warm_start: u16) -> (r: Result<(), Error<I2C::Error>>)
        ensures
            wrote_frame(old(self).events(), final(self).events(), payload_frame_spec(
                Command::SetWarmStartParameter, warm_start, crc8_of(word_bytes(warm_start))),
                Command::SetWarmStartParameter.delay_ms(), r),
    {
        self.write_command_with_u16(Command::SetWarmStartParameter, warm_start)
    }

    pub fn read_measured_raw_values(&mut self) -> (r: Result<SensorDataRaw, Error<I2C::Error>>)
        ensures
            read_reply(old(self).events(), final(self).events(), Command::ReadMeasuredRawValues, 12,
                r, |raw| raw_signals_of(raw)),
    {
        let raw = self.delayed_read_cmd(Command::ReadMeasuredRawValues, 12)?;
        Ok(decode_raw_values(raw.as_slice()))
    }

    pub fn read_measured_values_as_integers(&mut self) -> (r: Result<SensorDataInt, Error<I2C::Error>>)
        ensures
            read_reply(old(self).events(), final(self).events(),
                Command::ReadMeasuredValuesAsIntegers, 24, r, |raw| measured_of(raw)),
    {
        let raw = self.delayed_read_cmd(Command::ReadMeasuredValuesAsIntegers, 24)?;
        Ok(decode_measured_values(raw.as_slice()))
    }

    /// Writes `bytes` to the sensor and records the transaction as the bus
    /// recorded it.
    fn bus_write(&mut self, bytes: &[u8]) -> (r: Result<(), I2C::Error>)
        ensures
            final(self).events() == old(self).events().push(
                Event::Bus(Transfer::Write(SEN5X_I2C_ADDRESS, bytes@, r)),
            ),
    {
        let r = self.i2c.write(SEN5X_I2C_ADDRESS, bytes);
        self.steps = Ghost(self.steps@.push(Event::Bus(self.i2c.transfers().last())));
        r
    }

    /// Reads `len` bytes from the sensor and records the transaction as the
    /// bus recorded it.
    fn bus_read(&mut self, len: usize) -> (r: Result<Vec<u8>, I2C::Error>)
        ensures
            final(self).events() == old(self).events().push(
                Event::Bus(Transfer::Read(SEN5X_I2C_ADDRESS, len as nat, received(r))),
            ),
            r is Ok ==> r->Ok_0@.len() == len,
    {
        let r = self.i2c.read(SEN5X_I2C_ADDRESS, len);
        self.steps = Ghost(self.steps@.push(Event::Bus(self.i2c.transfers().last())));
        r
    }

    /// Waits `ms` milliseconds and records the delay as the provider recorded it.
    fn wait(&mut self, ms: u32)
        ensures
            final(self).events() == old(self).events().push(Event::Wait(ms)),
    {
        self.delay.delay_ms(ms);
        self.steps = Ghost(self.steps@.push(Event::Wait(self.delay.waits().last())));
    }

    /// Issues `cmd`, waits for its settle delay, then reads a reply of `len`
    /// bytes whose words must all carry matching checksums.
    fn delayed_read_cmd(&mut self, cmd: Command, len: usize) -> (r: Result<Vec<u8>, Error<I2C::Error>>)
        requires
            len % 3 == 0,
        ensures
            read_reply(old(self).events(), final(self).events(), cmd, len as nat, bytes_result(r),
                |raw| raw),
            r is Ok ==> r->Ok_0@.len() == len,
    {
        self.write_command(cmd)?;
        let raw = match self.bus_read(len) {
            Ok(raw) => raw,
            Err(e) => return Err(Error::I2c(e)),
        };
        check_words(raw)
    }

    /// Writes `frame`, then waits `delay` where the write succeeded.
    fn write_frame(&mut self, frame: &[u8], delay: u32) -> (r: Result<(), Error<I2C::Error>>)
        ensures
            wrote_frame(old(self).events(), final(self).events(), frame@, delay, r),
    {
        let written = self.bus_write(frame);
        match written {
            Ok(()) => {},
            Err(e) => return Err(Error::I2c(e)),
        }
        // a successful write carries the unit value
        assert(written->Ok_0 == ());
        self.wait(delay);
        Ok(())
    }

    /// Writes commands without additional arguments.
    fn write_command(&mut self, cmd: Command) -> (r: Result<(), Error<I2C::Error>>)
        ensures
            wrote_command(old(self).events(), final(self).events(), cmd, r),
    {
        let (command, delay) = cmd.as_tuple();
        let frame = word_frame(command);
        self.write_frame(frame.as_slice(), delay)
    }

    /// Sets sensor internal parameter
    fn write_command_with_u16(&mut self, cmd: Command, data: u16) -> (r: Result<(), Error<I2C::Error>>)
        ensures
            wrote_frame(old(self).events(), final(self).events(), payload_frame_spec(cmd, data,
                crc8_of(word_bytes(data))), cmd.delay_ms(), r),
    {
        let (_, delay) = cmd.as_tuple();
        let d = word_frame(data);
        let checksum = crc8(d.as_slice());
        let frame = payload_frame(cmd, data, checksum);
        self.write_frame(frame.as_slice(), delay)
    }
}

} // verus!
