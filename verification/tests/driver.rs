use embedded_hal::i2c::ErrorKind;
use embedded_sht3x::command::RESET_DURATION_US;
use embedded_sht3x::crc::{check_crc, crc_verdict};
use embedded_sht3x::decode::{measurement_from_reply, status_from_reply, RawMeasurement};
use embedded_sht3x::device::{
    after_reset_write, measurement_outcome, status_outcome, write_outcome,
};
use embedded_sht3x::status::Flag;
use embedded_sht3x::{
    decode_measurement, decode_status, get_u16_value, Command, Error, Repeatability, Sht3x,
    Status, DEFAULT_I2C_ADDRESS, I2C_ADDRESS_LOGIC_HIGH, I2C_ADDRESS_LOGIC_LOW,
};
use weather_utils::{Celsius, RelativeHumidity, TemperatureAndRelativeHumidity};

fn create_device() -> Sht3x<(), ()> {
    let device = Sht3x::from_parts((), DEFAULT_I2C_ADDRESS, ());
    assert_eq!(Command::Reset.bytes(), [0x30, 0xa2]);
    let device = device.finish_new::<ErrorKind>(Ok(())).unwrap();
    assert_eq!(device.address(), DEFAULT_I2C_ADDRESS);
    device
}

fn to_celsius_and_rh(raw: RawMeasurement) -> TemperatureAndRelativeHumidity<Celsius> {
    TemperatureAndRelativeHumidity {
        temperature: Celsius(((raw.temperature as f32 * 175.0) / 65535.0) - 45.0),
        relative_humidity: RelativeHumidity::new((raw.humidity as f32 * 100.0) / 65535.0)
            .unwrap(),
    }
}

fn assert_no_flag(status: &Status) {
    assert!(!status.contains(Flag::WriteDataChecksum.status()));
    assert!(!status.contains(Flag::Command.status()));
    assert!(!status.contains(Flag::Reset.status()));
    assert!(!status.contains(Flag::TTrackingAlert.status()));
    assert!(!status.contains(Flag::RhTrackingAlert.status()));
    assert!(!status.contains(Flag::Heater.status()));
    assert!(!status.contains(Flag::AlertPending.status()));
}

#[test]
fn clear_status() {
    let _device = create_device();
    assert_eq!(Command::ClearStatus.bytes(), [0x30, 0x41]);
    assert!(matches!(write_outcome::<ErrorKind>(Ok(())), Ok(())));
    assert_eq!(Command::GetStatus.bytes(), [0xf3, 0x2d]);
    let status = status_outcome::<ErrorKind>(Ok([0x00, 0x00, 0x81]));
    let status = match status {
        Ok(s) => s,
        Err(e) => panic!("Expected Ok(status), got Err({e:?})"),
    };
    assert_no_flag(&status);
    assert_eq!(status.to_flags_string(), "");
}

#[test]
fn get_status() {
    let _device = create_device();
    assert_eq!(Command::GetStatus.bytes(), [0xf3, 0x2d]);
    let status = status_outcome::<ErrorKind>(Ok([0x00, 0x00, 0x81]));
    let status = match status {
        Ok(s) => s,
        Err(e) => panic!("Expected Ok(status), got Err({e:?})"),
    };
    assert_no_flag(&status);
    assert_eq!(status.to_flags_string(), "");
}

#[test]
fn get_status_bad_crc() {
    let _device = create_device();
    let err = status_outcome::<ErrorKind>(Ok([0x00, 0x00, 0x73])).expect_err("Bad CRC");
    assert!(matches!(err, Error::BadCrc));
}

#[test]
fn heater() {
    let _device = create_device();
    assert_eq!(Command::EnableHeater.bytes(), [0x30, 0x6d]);
    assert!(matches!(write_outcome::<ErrorKind>(Ok(())), Ok(())));
    let status = status_outcome::<ErrorKind>(Ok([0x20, 0x03, 0x0e]));
    let status = match status {
        Ok(s) => s,
        Err(e) => panic!("Expected Ok(status), got Err({e:?})"),
    };
    assert!(status.contains(Flag::WriteDataChecksum.status()));
    assert!(status.contains(Flag::Command.status()));
    assert!(!status.contains(Flag::Reset.status()));
    assert!(!status.contains(Flag::TTrackingAlert.status()));
    assert!(!status.contains(Flag::RhTrackingAlert.status()));
    assert!(status.contains(Flag::Heater.status()));
    assert!(!status.contains(Flag::AlertPending.status()));
    assert_eq!(status.to_flags_string(), "WRITE_DATA_CHECKSUM | COMMAND | HEATER");
    assert_eq!(Command::DisableHeater.bytes(), [0x30, 0x66]);
    assert!(matches!(write_outcome::<ErrorKind>(Ok(())), Ok(())));
    let status = status_outcome::<ErrorKind>(Ok([0x00, 0x03, 0xd2]));
    let status = match status {
        Ok(s) => s,
        Err(e) => panic!("Expected Ok(status), got Err({e:?})"),
    };
    assert!(status.contains(Flag::WriteDataChecksum.status()));
    assert!(status.contains(Flag::Command.status()));
    assert!(!status.contains(Flag::Reset.status()));
    assert!(!status.contains(Flag::TTrackingAlert.status()));
    assert!(!status.contains(Flag::RhTrackingAlert.status()));
    assert!(!status.contains(Flag::Heater.status()));
    assert!(!status.contains(Flag::AlertPending.status()));
    assert_eq!(status.to_flags_string(), "WRITE_DATA_CHECKSUM | COMMAND");
}

#[test]
fn reset() {
    let _device = create_device();
    assert_eq!(Command::Reset.bytes(), [0x30, 0xa2]);
    assert!(matches!(after_reset_write::<ErrorKind>(Ok(())), Ok(1500)));
    assert_eq!(RESET_DURATION_US, 1500);
}

#[test]
fn reset_with_arbitration_loss_error() {
    let _device = create_device();
    assert!(matches!(
        after_reset_write(Err(ErrorKind::ArbitrationLoss)),
        Err(Error::I2c(ErrorKind::ArbitrationLoss))
    ));
    assert!(matches!(
        write_outcome(Err(ErrorKind::ArbitrationLoss)),
        Err(Error::I2c(ErrorKind::ArbitrationLoss))
    ));
}

#[test]
fn single_measurement_high_repeatability() {
    let mut device = create_device();
    device.repeatability = Repeatability::High;
    assert_eq!(device.measurement_command().bytes(), [0x2c, 0x06]);
    let measurement = measurement_outcome::<ErrorKind>(Ok([0x5f, 0x58, 0x38, 0x7b, 0xb2, 0x7d]));
    let measurement = match measurement {
        Ok(m) => m,
        Err(e) => panic!("Expected Ok(measurement), got Err({e:?})"),
    };
    assert_eq!(
        to_celsius_and_rh(measurement),
        TemperatureAndRelativeHumidity {
            temperature: Celsius(20.18),
            relative_humidity: RelativeHumidity::new(48.32).unwrap()
        }
    );
}

#[test]
fn single_measurement_low_repeatability() {
    let mut device = create_device();
    device.repeatability = Repeatability::Low;
    assert_eq!(device.measurement_command().bytes(), [0x2c, 0x10]);
    let measurement = measurement_outcome::<ErrorKind>(Ok([0x5f, 0x58, 0x38, 0x7b, 0xb2, 0x7d]));
    let measurement = match measurement {
        Ok(m) => m,
        Err(e) => panic!("Expected Ok(measurement), got Err({e:?})"),
    };
    assert_eq!(
        to_celsius_and_rh(measurement),
        TemperatureAndRelativeHumidity {
            temperature: Celsius(20.18),
            relative_humidity: RelativeHumidity::new(48.32).unwrap()
        }
    );
}

#[test]
fn single_measurement_medium_repeatability() {
    let device = create_device();
    assert_eq!(device.measurement_command().bytes(), [0x2c, 0x0d]);
    let measurement = measurement_outcome::<ErrorKind>(Ok([0x71, 0x17, 0x9a, 0xcb, 0x91, 0x39]));
    let measurement = match measurement {
        Ok(m) => m,
        Err(e) => panic!("Expected Ok(measurement), got Err({e:?})"),
    };
    assert_eq!(
        to_celsius_and_rh(measurement),
        TemperatureAndRelativeHumidity {
            temperature: Celsius(32.31),
            relative_humidity: RelativeHumidity::new(79.52).unwrap()
        }
    );
}

#[test]
fn crc_of_datasheet_example() {
    // The datasheet's example: the checksum of 0xBEEF is 0x92.
    assert!(matches!(check_crc::<ErrorKind>(&[0xbe, 0xef], 0x92), Ok(())));
    assert!(matches!(check_crc::<ErrorKind>(&[0xbe, 0xef], 0xef), Err(Error::BadCrc)));
    assert!(matches!(check_crc::<ErrorKind>(&[0x00, 0x00], 0x81), Ok(())));
}

#[test]
fn crc_verdict_compares() {
    assert!(matches!(crc_verdict::<ErrorKind>(0x81, 0x81), Ok(())));
    assert!(matches!(crc_verdict::<ErrorKind>(0x81, 0x80), Err(Error::BadCrc)));
}

#[test]
fn big_endian_words() {
    assert_eq!(get_u16_value(&[0x12, 0x34]), 0x1234);
    assert_eq!(get_u16_value(&[0xff, 0x00]), 0xff00);
    assert_eq!(get_u16_value(&[0x00, 0xff]), 0x00ff);
}

#[test]
fn decode_status_of_framed_word() {
    let status = decode_status::<ErrorKind>(&[0xbe, 0xef, 0x92]).unwrap();
    assert_eq!(status.bits(), 0xbeef);
    assert!(matches!(decode_status::<ErrorKind>(&[0xbe, 0xef, 0x93]), Err(Error::BadCrc)));
    let status = status_from_reply::<ErrorKind>(&[0x12, 0x34, 0x56], 0x56).unwrap();
    assert_eq!(status.bits(), 0x1234);
    assert!(matches!(
        status_from_reply::<ErrorKind>(&[0x12, 0x34, 0x56], 0x57),
        Err(Error::BadCrc)
    ));
}

#[test]
fn measurement_checksums() {
    let raw = decode_measurement::<ErrorKind>(&[0x5f, 0x58, 0x38, 0x7b, 0xb2, 0x7d]).unwrap();
    assert_eq!(raw, RawMeasurement { temperature: 0x5f58, humidity: 0x7bb2 });
    // Bad temperature checksum.
    assert!(matches!(
        decode_measurement::<ErrorKind>(&[0x5f, 0x58, 0x39, 0x7b, 0xb2, 0x7d]),
        Err(Error::BadCrc)
    ));
    // Bad humidity checksum.
    assert!(matches!(
        decode_measurement::<ErrorKind>(&[0x5f, 0x58, 0x38, 0x7b, 0xb2, 0x7e]),
        Err(Error::BadCrc)
    ));
    let raw = measurement_from_reply::<ErrorKind>(&[1, 2, 3, 4, 5, 6], 3, 6).unwrap();
    assert_eq!(raw, RawMeasurement { temperature: 0x0102, humidity: 0x0405 });
    assert!(matches!(
        measurement_from_reply::<ErrorKind>(&[1, 2, 3, 4, 5, 6], 3, 7),
        Err(Error::BadCrc)
    ));
    assert!(matches!(
        measurement_outcome(Err(ErrorKind::Bus)),
        Err(Error::I2c(ErrorKind::Bus))
    ));
}

#[test]
fn status_bits_are_retained() {
    let status = Status::from_bits_retain(0xffff);
    assert_eq!(status.bits(), 0xffff);
    assert_eq!(
        status.to_flags_string(),
        "WRITE_DATA_CHECKSUM | COMMAND | RESET | T_TRACKING_ALERT | RH_TRACKING_ALERT | HEATER | ALERT_PENDING | 0x53ec"
    );
    assert_eq!(Status::from_bits_retain(0x0004).to_flags_string(), "0x4");
    assert_eq!(
        Status::from_bits_retain(0x8050).to_flags_string(),
        "RESET | ALERT_PENDING | 0x40"
    );
    assert_eq!(Status::from_bits_retain(0x0400).to_flags_string(), "T_TRACKING_ALERT");
    assert_eq!(Status::from_bits_retain(0x0000).to_flags_string(), "");
}

#[test]
fn flags_and_contains() {
    assert_eq!(Flag::at(0), Flag::WriteDataChecksum);
    assert_eq!(Flag::at(6), Flag::AlertPending);
    assert_eq!(Flag::RhTrackingAlert.bit(), 0x0800);
    assert_eq!(Flag::TTrackingAlert.name(), "T_TRACKING_ALERT");
    let status = Status::from_bits_retain(0x2003);
    assert!(status.contains(Status::from_bits_retain(0x2001)));
    assert!(!status.contains(Status::from_bits_retain(0x2005)));
    assert!(status.contains(Status::from_bits_retain(0)));
}

#[test]
fn addresses_and_creation() {
    assert_eq!(I2C_ADDRESS_LOGIC_LOW, 0x44);
    assert_eq!(I2C_ADDRESS_LOGIC_HIGH, 0x45);
    assert_eq!(DEFAULT_I2C_ADDRESS, 0x44);
    let device = Sht3x::from_parts(7u8, I2C_ADDRESS_LOGIC_HIGH, 9u8);
    assert_eq!(device.address(), 0x45);
    assert_eq!(device.repeatability, Repeatability::Medium);
    assert_eq!(device.release(), (7, 9));
    let device = Sht3x::from_parts(1u8, DEFAULT_I2C_ADDRESS, 2u8);
    assert!(matches!(
        device.finish_new(after_reset_write(Err(ErrorKind::NoAcknowledge(
            embedded_hal::i2c::NoAcknowledgeSource::Address
        ))).map(|_| ())),
        Err(Error::I2c(ErrorKind::NoAcknowledge(_)))
    ));
}

#[test]
fn bus_parts_are_lent() {
    let mut device = Sht3x::from_parts(1u8, DEFAULT_I2C_ADDRESS, 2u8);
    {
        let (i2c, delay) = device.bus_mut();
        *i2c = 10;
        *delay = 20;
    }
    assert_eq!(device.release(), (10, 20));
}

#[test]
fn error_from_bus_error() {
    let err: Error<ErrorKind> = ErrorKind::Overrun.into();
    assert!(matches!(err, Error::I2c(ErrorKind::Overrun)));
}

#[test]
fn measurement_commands_by_repeatability() {
    assert_eq!(Repeatability::High.measurement_command(), Command::MeasureHighRepeatability);
    assert_eq!(Repeatability::Medium.measurement_command(), Command::MeasureMediumRepeatability);
    assert_eq!(Repeatability::Low.measurement_command(), Command::MeasureLowRepeatability);
    assert_eq!(Command::MeasureMediumRepeatability.bytes(), [0x2c, 0x0d]);
}
