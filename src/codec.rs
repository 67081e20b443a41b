//! Decoding of broadcast frames into the status snapshot, and encoding of commands.
use vstd::prelude::*;

use crate::constants::{
    ID_BROADCAST_AUX_POWER, ID_BROADCAST_INPUT, ID_BROADCAST_LIMITS, ID_BROADCAST_OUTPUT,
    ID_BROADCAST_POWER_CONNECTOR, ID_BROADCAST_STATUS, ID_BROADCAST_TEMPERATURE,
    ID_COMMAND_MAX_INPUT_CURERNT, ID_COMMAND_MAX_OUTPUT_VOLTAGE, ID_COMMAND_MODE,
    MAX_STANDARD_ID,
};
use crate::flags::{ErrorFlags, LimitFlags};

verus! {

/// Operating mode.
#[derive(Clone, Copy, Debug, PartialEq, Eq, Structural)]
pub enum Mode {
    Standby,
    On,
}

impl Mode {
    /// The byte that stands for the mode on the bus.
    pub open spec fn spec_to_u8(self) -> u8 {
        match self {
            Mode::Standby => 0,
            Mode::On => 1,
        }
    }

    /// The mode a byte stands for; no mode for any byte but 0 and 1.
    pub open spec fn spec_from_u8(b: u8) -> Option<Mode> {
        if b == 0 {
            Some(Mode::Standby)
        } else if b == 1 {
            Some(Mode::On)
        } else {
            None
        }
    }

    pub fn to_u8(self) -> (r: u8)
        ensures
            r == self.spec_to_u8(),
    {
        match self {
            Mode::Standby => 0,
            Mode::On => 1,
        }
    }

    pub fn from_u8(b: u8) -> (r: Option<Mode>)
        ensures
            r == Mode::spec_from_u8(b),
    {
        if b == 0 {
            Some(Mode::Standby)
        } else if b == 1 {
            Some(Mode::On)
        } else {
            None
        }
    }
}

/// Status of the device.
///
/// Each field is `None` until a frame of its topic has been decoded.
/// Measurements are 32-bit IEEE-754 floats, held here as their bit patterns.
#[derive(Clone, Copy, Debug, PartialEq, Eq, Structural)]
pub struct Status {
    pub input_voltage: Option<u32>,
    pub input_current: Option<u32>,
    pub output_voltage: Option<u32>,
    pub output_current: Option<u32>,
    pub mostfet_temperature: Option<u32>,
    pub controller_temperature: Option<u32>,
    pub rail_12v: Option<u32>,
    pub rail_3v: Option<u32>,
    pub maximum_output_voltage: Option<u32>,
    pub maximum_input_current: Option<u32>,
    pub can_rx_error_count: Option<u8>,
    pub can_tx_error_count: Option<u8>,
    pub can_tx_overflow_count: Option<u8>,
    pub error_flags: Option<ErrorFlags>,
    pub limit_flags: Option<LimitFlags>,
    pub mode: Option<Mode>,
    pub test_counter: Option<u8>,
    pub power_connector_voltage: Option<u32>,
    pub power_connector_temperature: Option<u32>,
}

impl Status {
    /// The snapshot in which no field is known yet.
    pub open spec fn unknown() -> Status {
        Status {
            input_voltage: None,
            input_current: None,
            output_voltage: None,
            output_current: None,
            mostfet_temperature: None,
            controller_temperature: None,
            rail_12v: None,
            rail_3v: None,
            maximum_output_voltage: None,
            maximum_input_current: None,
            can_rx_error_count: None,
            can_tx_error_count: None,
            can_tx_overflow_count: None,
            error_flags: None,
            limit_flags: None,
            mode: None,
            test_counter: None,
            power_connector_voltage: None,
            power_connector_temperature: None,
        }
    }

    pub fn new() -> (r: Status)
        ensures
            r == Status::unknown(),
    {
        Status {
            input_voltage: None,
            input_current: None,
            output_voltage: None,
            output_current: None,
            mostfet_temperature: None,
            controller_temperature: None,
            rail_12v: None,
            rail_3v: None,
            maximum_output_voltage: None,
            maximum_input_current: None,
            can_rx_error_count: None,
            can_tx_error_count: None,
            can_tx_overflow_count: None,
            error_flags: None,
            limit_flags: None,
            mode: None,
            test_counter: None,
            power_connector_voltage: None,
            power_connector_temperature: None,
        }
    }
}

impl Default for Status {
    fn default() -> (r: Status)
        ensures
            r == Status::unknown(),
    {
        Status::new()
    }
}

/// Identifier of a received frame, by addressing mode.
#[derive(Clone, Copy, Debug, PartialEq, Eq, Structural)]
pub enum FrameId {
    Standard(u16),
    Extended(u32),
}

/// A broadcast topic of the device.
#[derive(Clone, Copy, Debug, PartialEq, Eq, Structural)]
pub enum Topic {
    Input,
    Output,
    Temperature,
    AuxPower,
    Limits,
    Status,
    PowerConnector,
}

impl Topic {
    /// The topic at an offset from the base identifier, if any.
    pub open spec fn spec_from_offset(offset: int) -> Option<Topic> {
        if offset == ID_BROADCAST_INPUT {
            Some(Topic::Input)
        } else if offset == ID_BROADCAST_OUTPUT {
            Some(Topic::Output)
        } else if offset == ID_BROADCAST_TEMPERATURE {
            Some(Topic::Temperature)
        } else if offset == ID_BROADCAST_AUX_POWER {
            Some(Topic::AuxPower)
        } else if offset == ID_BROADCAST_LIMITS {
            Some(Topic::Limits)
        } else if offset == ID_BROADCAST_STATUS {
            Some(Topic::Status)
        } else if offset == ID_BROADCAST_POWER_CONNECTOR {
            Some(Topic::PowerConnector)
        } else {
            None
        }
    }

    pub fn from_offset(offset: u16) -> (r: Option<Topic>)
        ensures
            r == Topic::spec_from_offset(offset as int),
    {
        match offset {
            ID_BROADCAST_INPUT => Some(Topic::Input),
            ID_BROADCAST_OUTPUT => Some(Topic::Output),
            ID_BROADCAST_TEMPERATURE => Some(Topic::Temperature),
            ID_BROADCAST_AUX_POWER => Some(Topic::AuxPower),
            ID_BROADCAST_LIMITS => Some(Topic::Limits),
            ID_BROADCAST_STATUS => Some(Topic::Status),
            ID_BROADCAST_POWER_CONNECTOR => Some(Topic::PowerConnector),
            _ => None,
        }
    }
}

/// Why a frame was not decoded, or a command not encoded.
#[derive(Clone, Copy, Debug, PartialEq, Eq, Structural)]
pub enum Error {
    /// The identifier lies below the base identifier: the frame is for another device.
    NotAddressedToDevice,
    /// The offset from the base identifier names no broadcast topic.
    UnhandledMessageId,
    /// The frame is a remote frame and carries no data.
    NotADataFrame,
    /// The frame uses extended identifiers; the device uses standard ones.
    WrongAddressingMode,
    /// The mode byte of a status frame is neither 0 nor 1.
    InvalidModeValue,
    /// The command's identifier does not fit in a standard identifier.
    AddressOverflow,
}

/// The 32-bit word whose little-endian bytes are the first four of `b`.
pub open spec fn le_u32(b: Seq<u8>) -> u32
    recommends
        b.len() >= 4,
{
    (b[0] + 256 * b[1] + 65536 * b[2] + 16777216 * b[3]) as u32
}

/// The four little-endian bytes of `v`.
pub open spec fn le_bytes(v: u32) -> Seq<u8> {
    seq![
        (v % 256) as u8,
        (v / 256 % 256) as u8,
        (v / 65536 % 256) as u8,
        (v / 16777216) as u8,
    ]
}

/// The float in bytes 0 to 3 of a payload, if it holds them.
pub open spec fn spec_lower_float(data: Seq<u8>) -> Option<u32> {
    if data.len() >= 4 {
        Some(le_u32(data.subrange(0, 4)))
    } else {
        None
    }
}

/// The float in bytes 4 to 7 of a payload, if it holds them.
pub open spec fn spec_upper_float(data: Seq<u8>) -> Option<u32> {
    if data.len() >= 8 {
        Some(le_u32(data.subrange(4, 8)))
    } else {
        None
    }
}

/// Byte `i` of a payload, if it holds it.
pub open spec fn byte_at(data: Seq<u8>, i: int) -> Option<u8> {
    if 0 <= i < data.len() {
        Some(data[i])
    } else {
        None
    }
}

/// The snapshot after a frame of `topic` with payload `data`.
pub open spec fn apply_topic(s: Status, topic: Topic, data: Seq<u8>) -> Result<Status, Error> {
    let lo = spec_lower_float(data);
    let hi = spec_upper_float(data);
    match topic {
        Topic::Input => Ok(Status { input_voltage: lo, input_current: hi, ..s }),
        Topic::Output => Ok(Status { output_voltage: lo, output_current: hi, ..s }),
        Topic::Temperature => Ok(
            Status { mostfet_temperature: lo, controller_temperature: hi, ..s },
        ),
        Topic::AuxPower => Ok(Status { rail_12v: lo, rail_3v: hi, ..s }),
        Topic::Limits => Ok(Status { maximum_output_voltage: lo, maximum_input_current: hi, ..s }),
        Topic::PowerConnector => Ok(
            Status { power_connector_voltage: lo, power_connector_temperature: hi, ..s },
        ),
        Topic::Status => {
            if data.len() > 5 && data[5] > 1 {
                Err(Error::InvalidModeValue)
            } else {
                Ok(
                    Status {
                        can_rx_error_count: byte_at(data, 0),
                        can_tx_error_count: byte_at(data, 1),
                        can_tx_overflow_count: byte_at(data, 2),
                        error_flags: if data.len() > 3 {
                            Some(ErrorFlags::spec_from_bits_truncate(data[3]))
                        } else {
                            None
                        },
                        limit_flags: if data.len() > 4 {
                            Some(LimitFlags::spec_from_bits_truncate(data[4]))
                        } else {
                            None
                        },
                        mode: if data.len() > 5 {
                            Mode::spec_from_u8(data[5])
                        } else {
                            None
                        },
                        test_counter: byte_at(data, 7),
                        ..s
                    },
                )
            }
        },
    }
}

/// What decoding a frame yields: its topic and the new snapshot, or an error.
pub open spec fn spec_decode(
    s: Status,
    base_id: u16,
    id: FrameId,
    is_data_frame: bool,
    payload: Seq<u8>,
) -> Result<(Topic, Status), Error> {
    if !is_data_frame {
        Err(Error::NotADataFrame)
    } else {
        match id {
            FrameId::Extended(_) => Err(Error::WrongAddressingMode),
            FrameId::Standard(a) => {
                if a < base_id {
                    Err(Error::NotAddressedToDevice)
                } else {
                    match Topic::spec_from_offset(a - base_id) {
                        None => Err(Error::UnhandledMessageId),
                        Some(t) => match apply_topic(s, t, payload) {
                            Ok(s2) => Ok((t, s2)),
                            Err(e) => Err(e),
                        },
                    }
                }
            },
        }
    }
}

/// Reads the little-endian word in bytes `start` to `start + 3`.
fn le_word(data: &[u8], start: usize) -> (r: u32)
    requires
        start + 4 <= data@.len(),
    ensures
        r == le_u32(data@.subrange(start as int, start + 4)),
{
    let b0 = data[start] as u32;
    let b1 = data[start + 1] as u32;
    let b2 = data[start + 2] as u32;
    let b3 = data[start + 3] as u32;
    b0 + 256 * b1 + 65536 * b2 + 16777216 * b3
}

/// The float in bytes 0 to 3, or `None` where the payload is shorter.
pub fn lower_float(data: &[u8]) -> (r: Option<u32>)
    ensures
        r == spec_lower_float(data@),
{
    if data.len() >= 4 {
        Some(le_word(data, 0))
    } else {
        None
    }
}

/// The float in bytes 4 to 7, or `None` where the payload is shorter.
pub fn upper_float(data: &[u8]) -> (r: Option<u32>)
    ensures
        r == spec_upper_float(data@),
{
    if data.len() >= 8 {
        Some(le_word(data, 4))
    } else {
        None
    }
}

fn byte(data: &[u8], i: usize) -> (r: Option<u8>)
    ensures
        r == byte_at(data@, i as int),
{
    if i < data.len() {
        Some(data[i])
    } else {
        None
    }
}

/// Folds a frame of `topic` into the snapshot; on an error the snapshot is left as it was.
fn apply(status: &mut Status, topic: Topic, data: &[u8]) -> (r: Result<(), Error>)
    ensures
        match apply_topic(*old(status), topic, data@) {
            Ok(s2) => r == Ok::<(), Error>(()) && *final(status) == s2,
            Err(e) => r == Err::<(), Error>(e) && *final(status) == *old(status),
        },
{
    match topic {
        Topic::Input => {
            status.input_voltage = lower_float(data);
            status.input_current = upper_float(data);
        },
        Topic::Output => {
            status.output_voltage = lower_float(data);
            status.output_current = upper_float(data);
        },
        Topic::Temperature => {
            status.mostfet_temperature = lower_float(data);
            status.controller_temperature = upper_float(data);
        },
        Topic::AuxPower => {
            status.rail_12v = lower_float(data);
            status.rail_3v = upper_float(data);
        },
        Topic::Limits => {
            status.maximum_output_voltage = lower_float(data);
            status.maximum_input_current = upper_float(data);
        },
        Topic::PowerConnector => {
            status.power_connector_voltage = lower_float(data);
            status.power_connector_temperature = upper_float(data);
        },
        Topic::Status => {
            let mode = match byte(data, 5) {
                Some(b) => match Mode::from_u8(b) {
                    Some(m) => Some(m),
                    None => {
                        return Err(Error::InvalidModeValue);
                    },
                },
                None => None,
            };
            status.can_rx_error_count = byte(data, 0);
            status.can_tx_error_count = byte(data, 1);
            status.can_tx_overflow_count = byte(data, 2);
            status.error_flags = match byte(data, 3) {
                Some(b) => Some(ErrorFlags::from_bits_truncate(b)),
                None => None,
            };
            status.limit_flags = match byte(data, 4) {
                Some(b) => Some(LimitFlags::from_bits_truncate(b)),
                None => None,
            };
            status.mode = mode;
            status.test_counter = byte(data, 7);
        },
    }
    Ok(())
}

/// Decodes a received frame into the snapshot.
///
/// On success returns the frame's topic; on an error the snapshot is left as it was.
pub fn decode(
    status: &mut Status,
    base_id: u16,
    id: FrameId,
    is_data_frame: bool,
    payload: &[u8],
) -> (r: Result<Topic, Error>)
    ensures
        match spec_decode(*old(status), base_id, id, is_data_frame, payload@) {
            Ok((t, s2)) => r == Ok::<Topic, Error>(t) && *final(status) == s2,
            Err(e) => r == Err::<Topic, Error>(e) && *final(status) == *old(status),
        },
{
    if !is_data_frame {
        return Err(Error::NotADataFrame);
    }
    let address = match id {
        FrameId::Standard(a) => a,
        FrameId::Extended(_) => {
            return Err(Error::WrongAddressingMode);
        },
    };
    if address < base_id {
        return Err(Error::NotAddressedToDevice);
    }
    let topic = match Topic::from_offset(address - base_id) {
        Some(t) => t,
        None => {
            return Err(Error::UnhandledMessageId);
        },
    };
    match apply(status, topic, payload) {
        Ok(()) => Ok(topic),
        Err(e) => Err(e),
    }
}

/// A command to the device, with its value; floats are given as their bit patterns.
#[derive(Clone, Copy, Debug, PartialEq, Eq, Structural)]
pub enum Command {
    SetMode(Mode),
    SetMaximumOutputVoltage(u32),
    SetMaximumInputCurrent(u32),
}

impl Command {
    /// The command's offset from the base identifier.
    pub open spec fn spec_offset(self) -> u16 {
        match self {
            Command::SetMode(_) => ID_COMMAND_MODE,
            Command::SetMaximumOutputVoltage(_) => ID_COMMAND_MAX_OUTPUT_VOLTAGE,
            Command::SetMaximumInputCurrent(_) => ID_COMMAND_MAX_INPUT_CURERNT,
        }
    }

    /// The command's payload: the mode byte, or the float's four little-endian bytes.
    pub open spec fn spec_payload(self) -> Seq<u8> {
        match self {
            Command::SetMode(m) => seq![m.spec_to_u8()],
            Command::SetMaximumOutputVoltage(v) => le_bytes(v),
            Command::SetMaximumInputCurrent(v) => le_bytes(v),
        }
    }

    pub fn offset(&self) -> (r: u16)
        ensures
            r == self.spec_offset(),
    {
        match self {
            Command::SetMode(_) => ID_COMMAND_MODE,
            Command::SetMaximumOutputVoltage(_) => ID_COMMAND_MAX_OUTPUT_VOLTAGE,
            Command::SetMaximumInputCurrent(_) => ID_COMMAND_MAX_INPUT_CURERNT,
        }
    }

    pub fn payload(&self) -> (r: Vec<u8>)
        ensures
            r@ == self.spec_payload(),
    {
        match self {
            Command::SetMode(m) => vec![m.to_u8()],
            Command::SetMaximumOutputVoltage(v) => word_bytes(*v),
            Command::SetMaximumInputCurrent(v) => word_bytes(*v),
        }
    }
}

/// The four little-endian bytes of a word.
pub fn word_bytes(v: u32) -> (r: Vec<u8>)
    ensures
        r@ == le_bytes(v),
{
    let r = vec![
        (v % 256) as u8,
        (v / 256 % 256) as u8,
        (v / 65536 % 256) as u8,
        (v / 16777216) as u8,
    ];
    assert(r@ =~= le_bytes(v));
    r
}

/// The identifier at `offset` from `base_id`, if it fits in a standard identifier.
pub open spec fn spec_command_id(base_id: u16, offset: u16) -> Result<u16, Error> {
    if base_id + offset <= MAX_STANDARD_ID {
        Ok((base_id + offset) as u16)
    } else {
        Err(Error::AddressOverflow)
    }
}

pub fn command_id(base_id: u16, offset: u16) -> (r: Result<u16, Error>)
    ensures
        r == spec_command_id(base_id, offset),
{
    if base_id <= MAX_STANDARD_ID && offset <= MAX_STANDARD_ID - base_id {
        Ok(base_id + offset)
    } else {
        Err(Error::AddressOverflow)
    }
}

/// What encoding a command yields: its identifier and payload, or an error.
pub open spec fn spec_encode_command(base_id: u16, command: Command) -> Result<(u16, Seq<u8>), Error> {
    match spec_command_id(base_id, command.spec_offset()) {
        Ok(id) => Ok((id, command.spec_payload())),
        Err(e) => Err(e),
    }
}

/// Encodes a command as the identifier and payload of the frame that carries it.
pub fn encode_command(base_id: u16, command: Command) -> (r: Result<(u16, Vec<u8>), Error>)
    ensures
        match spec_encode_command(base_id, command) {
            Ok((id, payload)) => r is Ok && r->Ok_0.0 == id && r->Ok_0.1@ == payload,
            Err(e) => r is Err && r->Err_0 == e,
        },
{
    match command_id(base_id, command.offset()) {
        Ok(id) => Ok((id, command.payload())),
        Err(e) => Err(e),
    }
}

} // verus!
