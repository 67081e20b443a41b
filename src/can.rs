//! The bxcan data frames that carry commands to the device.
use vstd::prelude::*;

use bxcan::{Data, Frame, StandardId};

verus! {

#[verifier::external_type_specification]
#[verifier::external_body]
pub struct ExFrame(Frame);

/// A bxcan data frame with a standard identifier, together with the identifier and the
/// payload it was built from.
pub struct CommandFrame {
    frame: Frame,
    id: Ghost<u16>,
    payload: Ghost<Seq<u8>>,
}

impl CommandFrame {
    /// The raw standard identifier of the frame.
    pub closed spec fn spec_id(&self) -> u16 {
        self.id@
    }

    /// The payload of the frame.
    pub closed spec fn spec_payload(&self) -> Seq<u8> {
        self.payload@
    }

    /// The bxcan frame, to hand to the bus.
    pub fn frame(&self) -> &Frame {
        &self.frame
    }

    /// The bxcan frame, to hand to the bus.
    pub fn into_frame(self) -> Frame {
        self.frame
    }
}

/// Relies on bxcan's `StandardId::new`, `Data::new` and `Frame::new_data`: an identifier of
/// at most 0x7FF and a payload of at most 8 bytes are both accepted, and the data frame
/// built from them carries that identifier and those bytes.
#[verifier::external_body]
pub(crate) fn new_data_frame(raw: u16, bytes: &[u8]) -> (r: CommandFrame)
    requires
        raw <= 0x7FF,
        bytes@.len() <= 8,
    ensures
        r.spec_id() == raw,
        r.spec_payload() == bytes@,
{
    let frame = Frame::new_data(StandardId::new(raw).unwrap(), Data::new(bytes).unwrap());
    CommandFrame { frame, id: Ghost(raw), payload: Ghost(bytes@) }
}

} // verus!
