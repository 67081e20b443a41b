//! Codec for the Elmar MPPT solar array power converter on a CAN bus.
use vstd::prelude::*;

mod can;
pub mod codec;
pub mod constants;
pub mod flags;
pub mod lemmas;

pub use codec::{decode, encode_command, Command, Error, FrameId, Mode, Status, Topic};
pub use constants::{
    ID_BASE, ID_BROADCAST_AUX_POWER, ID_BROADCAST_INPUT, ID_BROADCAST_LIMITS, ID_BROADCAST_OUTPUT,
    ID_BROADCAST_POWER_CONNECTOR, ID_BROADCAST_STATUS, ID_BROADCAST_TEMPERATURE,
    ID_COMMAND_MAX_INPUT_CURERNT, ID_COMMAND_MAX_OUTPUT_VOLTAGE, ID_COMMAND_MODE, ID_INC,
    MAX_STANDARD_ID,
};
pub use flags::{ErrorFlags, LimitFlags, ERROR_FLAGS_ALL, LIMIT_FLAGS_ALL};

pub use can::CommandFrame;

use can::new_data_frame;
use codec::{spec_decode, spec_encode_command};

verus! {

/// MPPT device.
#[derive(Clone, Copy)]
pub struct Mppt {
    /// Base identifier used by the MPPT.
    ///
    /// See the manual for configuring the identifier.
    base_id: u16,
    status: Status,
}

impl Mppt {
    /// The base identifier of the device.
    pub closed spec fn spec_base_id(&self) -> u16 {
        self.base_id
    }

    /// The snapshot of the device's status.
    pub closed spec fn spec_status(&self) -> Status {
        self.status
    }

    /// Create a new MPPT instance, with nothing known of its status.
    pub fn new(base_id: u16) -> (r: Mppt)
        ensures
            r.spec_base_id() == base_id,
            r.spec_status() == Status::unknown(),
    {
        Mppt { base_id, status: Status::new() }
    }

    /// Process an incoming frame and update the device status as needed.
    ///
    /// The frame is given by its identifier, whether it is a data frame, and its payload.
    /// The result and the new status are those that `decode` gives; on an error the status
    /// is left as it was.
    pub fn receive(&mut self, id: FrameId, is_data_frame: bool, payload: &[u8]) -> (r: Result<
        (),
        Error,
    >)
        ensures
            final(self).spec_base_id() == old(self).spec_base_id(),
            match spec_decode(
                old(self).spec_status(),
                old(self).spec_base_id(),
                id,
                is_data_frame,
                payload@,
            ) {
                Ok((_, s2)) => r is Ok && final(self).spec_status() == s2,
                Err(e) => r == Err::<(), Error>(e) && final(self).spec_status()
                    == old(self).spec_status(),
            },
    {
        match decode(&mut self.status, self.base_id, id, is_data_frame, payload) {
            Ok(_) => Ok(()),
            Err(e) => Err(e),
        }
    }

    /// Get the current status of the MPPT.
    pub fn status(self) -> (r: Status)
        ensures
            r == self.spec_status(),
    {
        self.status
    }

    /// The frame that carries a command to this device.
    fn command_frame(&self, command: Command) -> (r: Result<CommandFrame, Error>)
        ensures
            match spec_encode_command(self.base_id, command) {
                Ok((id, payload)) => r is Ok && r->Ok_0.spec_id() == id && r->Ok_0.spec_payload()
                    == payload,
                Err(e) => r is Err && r->Err_0 == e,
            },
    {
        match encode_command(self.base_id, command) {
            Ok((raw, payload)) => Ok(new_data_frame(raw, payload.as_slice())),
            Err(e) => Err(e),
        }
    }

    /// Set the operating mode of the MPPT.
    ///
    /// The frame goes to the mode command's identifier and carries the mode's byte.
    pub fn set_mode(self, mode: Mode) -> (r: Result<CommandFrame, Error>)
        ensures
            match spec_encode_command(self.spec_base_id(), Command::SetMode(mode)) {
                Ok((id, payload)) => r is Ok && r->Ok_0.spec_id() == id && r->Ok_0.spec_payload()
                    == payload,
                Err(e) => r is Err && r->Err_0 == e,
            },
    {
        self.command_frame(Command::SetMode(mode))
    }

    /// Set the maximum output voltage of the MPPT, given as the bit pattern of a 32-bit float.
    ///
    /// The frame goes to the command's identifier and carries the four little-endian bytes.
    pub fn set_maximum_output_voltage(&mut self, voltage: u32) -> (r: Result<CommandFrame, Error>)
        ensures
            *final(self) == *old(self),
            match spec_encode_command(
                old(self).spec_base_id(),
                Command::SetMaximumOutputVoltage(voltage),
            ) {
                Ok((id, payload)) => r is Ok && r->Ok_0.spec_id() == id && r->Ok_0.spec_payload()
                    == payload,
                Err(e) => r is Err && r->Err_0 == e,
            },
    {
        self.command_frame(Command::SetMaximumOutputVoltage(voltage))
    }

    /// Set the maximum input current of the MPPT, given as the bit pattern of a 32-bit float.
    ///
    /// The frame goes to the command's identifier and carries the four little-endian bytes.
    pub fn set_maximum_input_current(&mut self, current: u32) -> (r: Result<CommandFrame, Error>)
        ensures
            *final(self) == *old(self),
            match spec_encode_command(
                old(self).spec_base_id(),
                Command::SetMaximumInputCurrent(current),
            ) {
                Ok((id, payload)) => r is Ok && r->Ok_0.spec_id() == id && r->Ok_0.spec_payload()
                    == payload,
                Err(e) => r is Err && r->Err_0 == e,
            },
    {
        self.command_frame(Command::SetMaximumInputCurrent(current))
    }
}

} // verus!
