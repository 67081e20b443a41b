use bxcan::Id;
use elmar_mppt::codec::{lower_float, upper_float, word_bytes};
use elmar_mppt::{
    decode, encode_command, Command, CommandFrame, Error, ErrorFlags, FrameId, LimitFlags, Mode, Mppt, Status,
    Topic, ID_BASE, ID_INC,
};

fn payload_of(f: &CommandFrame) -> Vec<u8> {
    f.frame().data().unwrap().to_vec()
}

fn raw_id_of(f: &CommandFrame) -> u16 {
    match f.frame().id() {
        Id::Standard(id) => id.as_raw(),
        Id::Extended(_) => panic!("extended identifier"),
    }
}

fn float_payload(a: f32, b: f32) -> Vec<u8> {
    let mut v = a.to_le_bytes().to_vec();
    v.extend_from_slice(&b.to_le_bytes());
    v
}

#[test]
fn test_get_input_voltage() {
    let mut m = Mppt::new(ID_BASE);
    let data = [0x00u8, 0x00, 0x00, 0x00, 0x00, 0x00, 0x00, 0x00];
    assert_eq!(m.receive(FrameId::Standard(ID_BASE), true, &data), Ok(()));
    assert_eq!(f32::from_bits(m.status().input_voltage.unwrap()), 0f32);
}

#[test]
fn test_get_input_current() {
    let mut m = Mppt::new(ID_BASE);
    let data = [0x00u8, 0x00, 0x00, 0x00, 0x00, 0x00, 0x00, 0x00];
    assert_eq!(m.receive(FrameId::Standard(ID_BASE), true, &data), Ok(()));
    assert_eq!(f32::from_bits(m.status().input_current.unwrap()), 0f32);
}

#[test]
fn test_set_mode() {
    let m = Mppt::new(ID_BASE);

    let f = m.set_mode(Mode::On).unwrap();
    assert_eq!(payload_of(&f).len(), 1);
    assert_eq!(payload_of(&f)[0], 1);

    let f = m.set_mode(Mode::Standby).unwrap();
    assert_eq!(payload_of(&f).len(), 1);
    assert_eq!(payload_of(&f)[0], 0);
}

#[test]
fn new_device_knows_nothing() {
    let m = Mppt::new(ID_BASE + ID_INC);
    assert_eq!(m.status(), Status::new());
    assert_eq!(m.status().mode, None);
    assert_eq!(m.status().input_voltage, None);
}

#[test]
fn receive_reads_each_two_float_topic() {
    let cases: [(u16, f32, f32); 6] = [
        (0x00, 12.5, 3.25),
        (0x01, 48.0, -1.5),
        (0x02, 40.0, 35.5),
        (0x03, 12.0, 3.3),
        (0x04, 58.0, 9.0),
        (0x06, 47.5, 22.0),
    ];
    for (offset, a, b) in cases {
        let mut m = Mppt::new(ID_BASE);
        let data = float_payload(a, b);
        assert_eq!(m.receive(FrameId::Standard(ID_BASE + offset), true, &data), Ok(()));
        let s = m.status();
        let (lo, hi) = match offset {
            0x00 => (s.input_voltage, s.input_current),
            0x01 => (s.output_voltage, s.output_current),
            0x02 => (s.mostfet_temperature, s.controller_temperature),
            0x03 => (s.rail_12v, s.rail_3v),
            0x04 => (s.maximum_output_voltage, s.maximum_input_current),
            _ => (s.power_connector_voltage, s.power_connector_temperature),
        };
        assert_eq!(lo, Some(a.to_bits()));
        assert_eq!(hi, Some(b.to_bits()));
    }
}

#[test]
fn receive_reads_status_topic() {
    let mut m = Mppt::new(ID_BASE);
    let data = [3u8, 4, 5, 0xFF, 0xA5, 1, 0xEE, 42];
    assert_eq!(m.receive(FrameId::Standard(ID_BASE + 0x05), true, &data), Ok(()));
    let s = m.status();
    assert_eq!(s.can_rx_error_count, Some(3));
    assert_eq!(s.can_tx_error_count, Some(4));
    assert_eq!(s.can_tx_overflow_count, Some(5));
    assert_eq!(s.error_flags.unwrap().bits(), 0xFB);
    assert_eq!(s.limit_flags.unwrap().bits(), 0xA5);
    assert_eq!(s.mode, Some(Mode::On));
    assert_eq!(s.test_counter, Some(42));
    assert_eq!(s.input_voltage, None);
}

#[test]
fn status_round_trip_with_standby() {
    let mut s = Status::new();
    let data = [0u8, 255, 7, 0x04, 0x00, 0, 0, 255];
    assert_eq!(decode(&mut s, 0x600, FrameId::Standard(0x605), true, &data), Ok(Topic::Status));
    assert_eq!(s.can_rx_error_count, Some(0));
    assert_eq!(s.can_tx_error_count, Some(255));
    assert_eq!(s.can_tx_overflow_count, Some(7));
    assert_eq!(s.error_flags.unwrap().bits(), 0x00);
    assert_eq!(s.limit_flags.unwrap().bits(), 0x00);
    assert_eq!(s.mode, Some(Mode::Standby));
    assert_eq!(s.test_counter, Some(255));
}

#[test]
fn float_round_trip_through_input_topic() {
    for v in [0.0f32, -0.0, 1.0, -273.15, f32::MAX, f32::MIN_POSITIVE, f32::INFINITY] {
        let mut s = Status::new();
        let data = float_payload(v, 0.0);
        assert_eq!(decode(&mut s, 0x600, FrameId::Standard(0x600), true, &data), Ok(Topic::Input));
        assert_eq!(s.input_voltage, Some(v.to_bits()));
        assert_eq!(s.input_current, Some(0.0f32.to_bits()));
        let data = float_payload(0.0, v);
        assert_eq!(decode(&mut s, 0x600, FrameId::Standard(0x600), true, &data), Ok(Topic::Input));
        assert_eq!(s.input_current, Some(v.to_bits()));
    }
}

#[test]
fn nan_bits_survive() {
    let bits: u32 = 0x7FC0_1234;
    let mut s = Status::new();
    let data = float_payload(f32::from_bits(bits), 1.0);
    assert_eq!(decode(&mut s, 0x600, FrameId::Standard(0x601), true, &data), Ok(Topic::Output));
    assert_eq!(s.output_voltage, Some(bits));
}

#[test]
fn below_base_is_not_ours() {
    let mut m = Mppt::new(ID_BASE);
    let data = [1u8, 2, 3, 4, 5, 6, 7, 8];
    assert_eq!(m.receive(FrameId::Standard(ID_BASE - 1), true, &data), Err(Error::NotAddressedToDevice));
    assert_eq!(m.status(), Status::new());

    let mut s = Status::new();
    assert_eq!(decode(&mut s, 0x600, FrameId::Standard(0), true, &data), Err(Error::NotAddressedToDevice));
    assert_eq!(s, Status::new());
}

#[test]
fn unknown_offset_is_unhandled() {
    let data = [1u8, 2, 3, 4, 5, 6, 7, 8];
    for offset in [0x07u16, 0x08, 0x0A, 0x0B, 0x10, 0x1FF] {
        let mut m = Mppt::new(ID_BASE);
        assert_eq!(m.receive(FrameId::Standard(ID_BASE + offset), true, &data), Err(Error::UnhandledMessageId));
        assert_eq!(m.status(), Status::new());
    }
}

#[test]
fn invalid_mode_applies_nothing() {
    let mut m = Mppt::new(ID_BASE);
    assert_eq!(m.receive(FrameId::Standard(ID_BASE + 0x05), true, &[1, 2, 3, 4, 5, 0, 7, 8]), Ok(()));
    let before = m.status();
    for mode in [2u8, 3, 0x80, 0xFF] {
        let data = [9u8, 9, 9, 9, 9, mode, 9, 9];
        assert_eq!(m.receive(FrameId::Standard(ID_BASE + 0x05), true, &data), Err(Error::InvalidModeValue));
        assert_eq!(m.status(), before);
        assert_eq!(m.status().test_counter, Some(8));
        assert_eq!(m.status().can_rx_error_count, Some(1));
    }
}

#[test]
fn remote_frame_is_not_a_data_frame() {
    let mut m = Mppt::new(ID_BASE);
    assert_eq!(m.receive(FrameId::Standard(ID_BASE), false, &[]), Err(Error::NotADataFrame));
    assert_eq!(m.receive(FrameId::Extended(0x1234_5678), false, &[]), Err(Error::NotADataFrame));
    assert_eq!(m.receive(FrameId::Standard(0), false, &[1, 2]), Err(Error::NotADataFrame));
    assert_eq!(m.status(), Status::new());

    let mut s = Status::new();
    let data = [0u8; 8];
    assert_eq!(decode(&mut s, 0x600, FrameId::Standard(0x600), false, &data), Err(Error::NotADataFrame));
    assert_eq!(decode(&mut s, 0x600, FrameId::Extended(5), false, &data), Err(Error::NotADataFrame));
    assert_eq!(s, Status::new());
}

#[test]
fn extended_identifier_is_wrong_addressing_mode() {
    let mut m = Mppt::new(ID_BASE);
    assert_eq!(m.receive(FrameId::Extended(0x600), true, &[0u8; 8]), Err(Error::WrongAddressingMode));
    assert_eq!(m.status(), Status::new());
}

#[test]
fn short_payload_leaves_fields_unknown() {
    let mut m = Mppt::new(ID_BASE);
    let full = float_payload(1.0, 2.0);
    assert_eq!(m.receive(FrameId::Standard(ID_BASE), true, &full), Ok(()));
    assert_eq!(m.receive(FrameId::Standard(ID_BASE), true, &full[..4]), Ok(()));
    assert_eq!(m.status().input_voltage, Some(1.0f32.to_bits()));
    assert_eq!(m.status().input_current, None);
    assert_eq!(m.receive(FrameId::Standard(ID_BASE), true, &full[..3]), Ok(()));
    assert_eq!(m.status().input_voltage, None);
    assert_eq!(m.receive(FrameId::Standard(ID_BASE), true, &[]), Ok(()));
    assert_eq!(m.status().input_current, None);

    assert_eq!(m.receive(FrameId::Standard(ID_BASE + 0x05), true, &[1, 2, 3]), Ok(()));
    let s = m.status();
    assert_eq!(s.can_rx_error_count, Some(1));
    assert_eq!(s.can_tx_overflow_count, Some(3));
    assert_eq!(s.error_flags, None);
    assert_eq!(s.mode, None);
    assert_eq!(s.test_counter, None);
}

#[test]
fn newer_frame_overwrites_only_its_topic() {
    let mut m = Mppt::new(ID_BASE);
    assert_eq!(m.receive(FrameId::Standard(ID_BASE), true, &float_payload(1.0, 2.0)), Ok(()));
    assert_eq!(m.receive(FrameId::Standard(ID_BASE + 1), true, &float_payload(3.0, 4.0)), Ok(()));
    assert_eq!(m.receive(FrameId::Standard(ID_BASE), true, &float_payload(5.0, 6.0)), Ok(()));
    let s = m.status();
    assert_eq!(s.input_voltage, Some(5.0f32.to_bits()));
    assert_eq!(s.input_current, Some(6.0f32.to_bits()));
    assert_eq!(s.output_voltage, Some(3.0f32.to_bits()));
    assert_eq!(s.output_current, Some(4.0f32.to_bits()));
}

#[test]
fn error_flags_truncate_reserved_bit() {
    let f = ErrorFlags::from_bits_truncate(0xFF);
    assert_eq!(f.bits(), 0xFB);
    assert!(!f.contains(1 << 2));
    assert!(f.contains(ErrorFlags::HW_OVERVOLTAGE | ErrorFlags::LOW_ARRAY_POWER));
    let f = ErrorFlags::from_bits_truncate(0x04);
    assert_eq!(f.bits(), 0);
    assert!(!f.contains(ErrorFlags::BATTERY_LOW));
    assert_eq!(ErrorFlags::from_bits_truncate(0x30).bits(), ErrorFlags::BATTERY_FULL | ErrorFlags::BATTERY_LOW);
}

#[test]
fn limit_flags_keep_every_bit() {
    let f = LimitFlags::from_bits_truncate(0xFF);
    assert_eq!(f.bits(), 0xFF);
    assert!(f.contains(LimitFlags::DUTY_CYCLE_MAX));
    let f = LimitFlags::from_bits_truncate(LimitFlags::GLOBAL_MPPT | LimitFlags::INPUT_CURRENT_MIN);
    assert_eq!(f.bits(), 0x81);
    assert!(!f.contains(LimitFlags::LOCAL_MPPT));
}

#[test]
fn set_mode_frame_identifier() {
    let m = Mppt::new(ID_BASE);
    let f = m.set_mode(Mode::On).unwrap();
    assert_eq!(raw_id_of(&f), 0x608);
    assert!(f.frame().is_data_frame());
    assert_eq!(payload_of(&f), vec![0x01]);
    assert_eq!(f.into_frame().dlc(), 1);
    let f = m.set_mode(Mode::Standby).unwrap();
    assert_eq!(raw_id_of(&f), 0x608);
    assert_eq!(payload_of(&f), vec![0x00]);
}

#[test]
fn encode_mode_command() {
    assert_eq!(encode_command(0x600, Command::SetMode(Mode::On)), Ok((0x608, vec![0x01])));
    assert_eq!(encode_command(0x600, Command::SetMode(Mode::Standby)), Ok((0x608, vec![0x00])));
    assert_eq!(encode_command(0x000, Command::SetMode(Mode::On)), Ok((0x008, vec![0x01])));
}

#[test]
fn max_output_voltage_zero_round_trip() {
    let mut m = Mppt::new(ID_BASE);
    let f = m.set_maximum_output_voltage(0.0f32.to_bits()).unwrap();
    assert_eq!(raw_id_of(&f), ID_BASE + 0x0A);
    assert_eq!(payload_of(&f), vec![0, 0, 0, 0]);
    assert_eq!(
        encode_command(ID_BASE, Command::SetMaximumOutputVoltage(0)),
        Ok((0x60A, vec![0, 0, 0, 0]))
    );

    let mut s = Status::new();
    let data = payload_of(&f);
    assert_eq!(decode(&mut s, ID_BASE, FrameId::Standard(ID_BASE + 0x04), true, &data), Ok(Topic::Limits));
    assert_eq!(f32::from_bits(s.maximum_output_voltage.unwrap()), 0.0);
    assert_eq!(s.maximum_input_current, None);
}

#[test]
fn float_commands_are_little_endian() {
    let mut m = Mppt::new(ID_BASE);
    let f = m.set_maximum_output_voltage(58.5f32.to_bits()).unwrap();
    assert_eq!(payload_of(&f), 58.5f32.to_le_bytes().to_vec());
    let f = m.set_maximum_input_current(7.25f32.to_bits()).unwrap();
    assert_eq!(raw_id_of(&f), ID_BASE + 0x0B);
    assert_eq!(payload_of(&f), 7.25f32.to_le_bytes().to_vec());
    assert_eq!(word_bytes(0x1234_5678), vec![0x78, 0x56, 0x34, 0x12]);
    assert_eq!(
        encode_command(0x610, Command::SetMaximumInputCurrent(0xAABB_CCDD)),
        Ok((0x61B, vec![0xDD, 0xCC, 0xBB, 0xAA]))
    );
}

#[test]
fn command_identifier_overflow() {
    let mut m = Mppt::new(0x7F7);
    assert!(m.set_mode(Mode::On).is_ok());
    assert_eq!(m.set_maximum_output_voltage(0).err(), Some(Error::AddressOverflow));
    assert_eq!(m.set_maximum_input_current(0).err(), Some(Error::AddressOverflow));
    let m = Mppt::new(0x7F8);
    assert_eq!(m.set_mode(Mode::On).err(), Some(Error::AddressOverflow));
    assert_eq!(encode_command(u16::MAX, Command::SetMode(Mode::On)), Err(Error::AddressOverflow));
    assert_eq!(encode_command(0x7F4, Command::SetMaximumInputCurrent(1)), Ok((0x7FF, vec![1, 0, 0, 0])));
}

#[test]
fn lower_and_upper_float_bounds() {
    let data = [0x01u8, 0x02, 0x03, 0x04, 0x05, 0x06, 0x07, 0x08];
    assert_eq!(lower_float(&data), Some(0x0403_0201));
    assert_eq!(upper_float(&data), Some(0x0807_0605));
    assert_eq!(lower_float(&data[..3]), None);
    assert_eq!(upper_float(&data[..7]), None);
    assert_eq!(upper_float(&data[..8]), Some(0x0807_0605));
}

#[test]
fn mode_bytes() {
    assert_eq!(Mode::On.to_u8(), 1);
    assert_eq!(Mode::Standby.to_u8(), 0);
    assert_eq!(Mode::from_u8(0), Some(Mode::Standby));
    assert_eq!(Mode::from_u8(1), Some(Mode::On));
    assert_eq!(Mode::from_u8(2), None);
    assert_eq!(Topic::from_offset(0x05), Some(Topic::Status));
    assert_eq!(Topic::from_offset(0x08), None);
}

#[test]
fn default_status_is_unknown() {
    assert_eq!(Status::default(), Status::new());
}

#[test]
fn max_input_current_one() {
    let mut m = Mppt::new(0x600);
    let f = m.set_maximum_input_current(1.0f32.to_bits()).unwrap();
    assert_eq!(raw_id_of(&f), 0x60B);
    assert_eq!(payload_of(&f), vec![0x00, 0x00, 0x80, 0x3F]);
    assert_eq!(f.frame().dlc(), 4);
}

#[test]
fn command_payload_decodes_back() {
    let mut m = Mppt::new(ID_BASE);
    for v in [0.0f32, -0.0, 12.75, -1.0e-3, f32::NAN] {
        let p = payload_of(&m.set_maximum_output_voltage(v.to_bits()).unwrap());
        assert_eq!(lower_float(&p), Some(v.to_bits()));
        let q = payload_of(&m.set_maximum_input_current(v.to_bits()).unwrap());
        let mut data = vec![9u8, 9, 9, 9];
        data.extend_from_slice(&q);
        assert_eq!(upper_float(&data), Some(v.to_bits()));
    }
}
