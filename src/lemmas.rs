//! Laws of the codec, stated over `spec_decode` and `spec_encode_command`.
use vstd::prelude::*;

use crate::codec::{
    le_bytes, le_u32, spec_decode, spec_encode_command, spec_lower_float, spec_upper_float,
    Command, Error, FrameId, Mode, Status, Topic,
};
use crate::constants::{
    ID_BROADCAST_AUX_POWER, ID_BROADCAST_INPUT, ID_BROADCAST_LIMITS, ID_BROADCAST_OUTPUT,
    ID_BROADCAST_POWER_CONNECTOR, ID_BROADCAST_STATUS, ID_BROADCAST_TEMPERATURE,
    ID_COMMAND_MAX_OUTPUT_VOLTAGE, ID_COMMAND_MODE, MAX_STANDARD_ID,
};
use crate::flags::{ErrorFlags, LimitFlags, ERROR_FLAGS_ALL, LIMIT_FLAGS_ALL};

verus! {

/// Reading back the four little-endian bytes of a word gives the word.
pub proof fn lemma_le_round_trip(v: u32)
    ensures
        le_u32(le_bytes(v)) == v,
{
    let b = le_bytes(v);
    assert(v % 256 + 256 * (v / 256 % 256) + 65536 * (v / 65536 % 256) + 16777216 * (v
        / 16777216) == v) by (bit_vector);
}

/// A payload made of the little-endian bytes of two words decodes, in the layout of every
/// two-float topic, to the first word in bytes 0 to 3 and the second in bytes 4 to 7.
pub proof fn lemma_float_pair_round_trip(v: u32, w: u32)
    ensures
        spec_lower_float(le_bytes(v) + le_bytes(w)) == Some(v),
        spec_upper_float(le_bytes(v) + le_bytes(w)) == Some(w),
{
    let p = le_bytes(v) + le_bytes(w);
    lemma_le_round_trip(v);
    lemma_le_round_trip(w);
    assert(p.subrange(0, 4) =~= le_bytes(v));
    assert(p.subrange(4, 8) =~= le_bytes(w));
}

/// The payload of a float command reads back as the same float in bytes 0 to 3, and in
/// bytes 4 to 7 behind any four bytes: commands and broadcasts share their byte order.
pub proof fn lemma_command_payload_decodes(v: u32, prefix: Seq<u8>)
    requires
        prefix.len() == 4,
    ensures
        spec_lower_float(Command::SetMaximumOutputVoltage(v).spec_payload()) == Some(v),
        spec_lower_float(Command::SetMaximumInputCurrent(v).spec_payload()) == Some(v),
        spec_upper_float(prefix + Command::SetMaximumInputCurrent(v).spec_payload()) == Some(v),
{
    lemma_le_round_trip(v);
    assert(le_bytes(v).subrange(0, 4) =~= le_bytes(v));
    assert((prefix + le_bytes(v)).subrange(4, 8) =~= le_bytes(v));
}

/// A full status frame whose mode byte is 0 or 1 decodes without error, and each of its
/// fields reads back as sent: the counts and the test counter as their bytes, each flag set
/// as its byte with the undefined bits dropped, and the mode as its byte.
pub proof fn lemma_status_round_trip(s: Status, base_id: u16, payload: Seq<u8>)
    requires
        base_id + ID_BROADCAST_STATUS <= u16::MAX,
        payload.len() == 8,
        payload[5] <= 1,
    ensures
        ({
            let r = spec_decode(
                s,
                base_id,
                FrameId::Standard((base_id + ID_BROADCAST_STATUS) as u16),
                true,
                payload,
            );
            &&& r is Ok
            &&& r->Ok_0.0 == Topic::Status
            &&& r->Ok_0.1.can_rx_error_count == Some(payload[0])
            &&& r->Ok_0.1.can_tx_error_count == Some(payload[1])
            &&& r->Ok_0.1.can_tx_overflow_count == Some(payload[2])
            &&& r->Ok_0.1.error_flags matches Some(f) && f@ == payload[3] & ERROR_FLAGS_ALL
            &&& r->Ok_0.1.limit_flags matches Some(f) && f@ == payload[4] & LIMIT_FLAGS_ALL
            &&& r->Ok_0.1.mode matches Some(m) && m.spec_to_u8() == payload[5]
            &&& r->Ok_0.1.test_counter == Some(payload[7])
        }),
{
    ErrorFlags::lemma_from_bits_truncate(payload[3]);
    LimitFlags::lemma_from_bits_truncate(payload[4]);
}

/// A frame with an identifier below the base identifier is for another device.
pub proof fn lemma_below_base(s: Status, base_id: u16, address: u16, payload: Seq<u8>)
    requires
        address < base_id,
    ensures
        spec_decode(s, base_id, FrameId::Standard(address), true, payload) == Err::<
            (Topic, Status),
            Error,
        >(Error::NotAddressedToDevice),
{
}

/// A frame at an offset from the base identifier that names no broadcast topic is not
/// handled.
pub proof fn lemma_unknown_offset(s: Status, base_id: u16, offset: u16, payload: Seq<u8>)
    requires
        base_id + offset <= u16::MAX,
        offset != ID_BROADCAST_INPUT,
        offset != ID_BROADCAST_OUTPUT,
        offset != ID_BROADCAST_TEMPERATURE,
        offset != ID_BROADCAST_AUX_POWER,
        offset != ID_BROADCAST_LIMITS,
        offset != ID_BROADCAST_STATUS,
        offset != ID_BROADCAST_POWER_CONNECTOR,
    ensures
        spec_decode(s, base_id, FrameId::Standard((base_id + offset) as u16), true, payload)
            == Err::<(Topic, Status), Error>(Error::UnhandledMessageId),
{
}

/// A status frame whose mode byte is neither 0 nor 1 is refused as a whole.
pub proof fn lemma_invalid_mode(s: Status, base_id: u16, payload: Seq<u8>)
    requires
        base_id + ID_BROADCAST_STATUS <= u16::MAX,
        payload.len() > 5,
        payload[5] > 1,
    ensures
        spec_decode(
            s,
            base_id,
            FrameId::Standard((base_id + ID_BROADCAST_STATUS) as u16),
            true,
            payload,
        ) == Err::<(Topic, Status), Error>(Error::InvalidModeValue),
{
}

/// The mode command is the one byte of the mode, at the mode command's identifier.
pub proof fn lemma_encode_mode(base_id: u16)
    requires
        base_id + ID_COMMAND_MODE <= MAX_STANDARD_ID,
    ensures
        spec_encode_command(base_id, Command::SetMode(Mode::On)) == Ok::<(u16, Seq<u8>), Error>(
            ((base_id + ID_COMMAND_MODE) as u16, seq![1u8]),
        ),
        spec_encode_command(base_id, Command::SetMode(Mode::Standby)) == Ok::<
            (u16, Seq<u8>),
            Error,
        >(((base_id + ID_COMMAND_MODE) as u16, seq![0u8])),
{
}

/// The maximum output voltage command carries the four little-endian bytes of the float,
/// which read back through the limits topic give the same float; a zero float is four zero
/// bytes.
pub proof fn lemma_max_output_voltage_round_trip(s: Status, base_id: u16, voltage: u32)
    requires
        base_id + ID_COMMAND_MAX_OUTPUT_VOLTAGE <= MAX_STANDARD_ID,
    ensures
        spec_encode_command(base_id, Command::SetMaximumOutputVoltage(voltage)) == Ok::<
            (u16, Seq<u8>),
            Error,
        >(((base_id + ID_COMMAND_MAX_OUTPUT_VOLTAGE) as u16, le_bytes(voltage))),
        le_bytes(0) == seq![0u8, 0u8, 0u8, 0u8],
        ({
            let r = spec_decode(
                s,
                base_id,
                FrameId::Standard((base_id + ID_BROADCAST_LIMITS) as u16),
                true,
                le_bytes(voltage),
            );
            r is Ok && r->Ok_0.1.maximum_output_voltage == Some(voltage)
        }),
{
    lemma_le_round_trip(voltage);
    assert(le_bytes(voltage).subrange(0, 4) =~= le_bytes(voltage));
    assert(le_bytes(0) =~= seq![0u8, 0u8, 0u8, 0u8]);
}

/// A remote frame is refused, whatever its identifier or payload.
pub proof fn lemma_remote_frame(s: Status, base_id: u16, id: FrameId, payload: Seq<u8>)
    ensures
        spec_decode(s, base_id, id, false, payload) == Err::<(Topic, Status), Error>(
            Error::NotADataFrame,
        ),
{
}

} // verus!
