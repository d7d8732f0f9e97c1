use sen5x::sen5x::{
    check_words, decode_device_status, decode_serial_number, payload_frame,
};
use sen5x::utils::{
    get_bool_from_buf, get_i16_from_buf, get_u16_from_buf, get_u32_from_buf, get_u64_from_buf,
    get_u8_from_buf,
};
use sen5x::{Command, Error};

#[test]
fn command_table_values() {
    assert_eq!(Command::DeviceReset.as_tuple(), (0xD304, 200));
    assert_eq!(Command::GetSerialNumber.as_tuple(), (0xD033, 50));
    assert_eq!(Command::ReadMeasuredValuesAsIntegers.as_tuple(), (0x03C4, 20));
    assert_eq!(Command::ReadMeasuredRawValues.as_tuple(), (0x03D2, 20));
    assert_eq!(Command::StartFanCleaning.as_tuple(), (0x5607, 20));
}

#[test]
fn warm_start_commands_share_opcode() {
    assert_eq!(
        Command::GetWarmStartParameter.as_tuple(),
        Command::SetWarmStartParameter.as_tuple()
    );
}

#[test]
fn byte_decoders() {
    let b = [0x00, 0x12, 0x34, 0x56, 0x78, 0x9a, 0xbc, 0xde, 0xf0, 0xff];
    assert_eq!(get_u8_from_buf(&b, 1), 0x12);
    assert!(!get_bool_from_buf(&b, 0));
    assert!(get_bool_from_buf(&b, 1));
    assert_eq!(get_u16_from_buf(&b, 1), 0x1234);
    assert_eq!(get_i16_from_buf(&b, 1), 0x1234);
    assert_eq!(get_i16_from_buf(&b, 8), -3841);
    assert_eq!(get_u32_from_buf(&b, 1), 0x1234_5678);
    assert_eq!(get_u64_from_buf(&b, 1), 0x1234_5678_9abc_def0);
    assert_eq!(get_u64_from_buf(&b, 2), 0x3456_789a_bcde_f0ff);
}

#[test]
fn i16_decoder_extremes() {
    assert_eq!(get_i16_from_buf(&[0x80, 0x00], 0), i16::MIN);
    assert_eq!(get_i16_from_buf(&[0x7f, 0xff], 0), i16::MAX);
    assert_eq!(get_i16_from_buf(&[0xff, 0xff], 0), -1);
}

#[test]
fn serial_number_skips_checksum_bytes() {
    let raw = [0x12, 0x34, 0x00, 0x56, 0x78, 0x00, 0x9a, 0xbc, 0x00];
    assert_eq!(decode_serial_number(&raw), 0x1234_5678_9abc);
}

#[test]
fn device_status_skips_checksum_bytes() {
    assert_eq!(decode_device_status(&[0x00, 0x20, 0xff, 0x00, 0x10, 0xff]), 0x0020_0010);
}

#[test]
fn payload_frame_layout() {
    assert_eq!(
        payload_frame(Command::SetWarmStartParameter, 0x1234, 0x37),
        vec![0x60, 0xC6, 0x12, 0x34, 0x37]
    );
}

#[test]
fn check_words_accepts_and_rejects() {
    let good = vec![0xbe, 0xef, 0x92, 0x00, 0x00, 0x81];
    assert_eq!(check_words::<()>(good.clone()), Ok(good));
    let bad = vec![0xbe, 0xef, 0x92, 0x00, 0x00, 0x80];
    assert_eq!(check_words::<()>(bad), Err(Error::Crc));
    assert_eq!(check_words::<()>(vec![]), Ok(vec![]));
}
