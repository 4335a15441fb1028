//! The flags byte, valid by construction.
use vstd::prelude::*;
use crate::error::DecodeError;

verus! {

/// The bits of the flags byte that are reserved and must be zero.
pub const RESERVED_MASK: u8 = 0b1111_1110;

/// True when no reserved bit of `b` is set.
pub open spec fn flags_valid(b: u8) -> bool {
    b & RESERVED_MASK == 0
}

/// A flags byte whose reserved bits are all zero. Bit 0 asks the receiver
/// for an acknowledgement.
#[derive(Clone, Copy, Debug, PartialEq, Eq, Structural)]
pub struct Flags(u8);

impl View for Flags {
    type V = u8;

    closed spec fn view(&self) -> u8 {
        self.0
    }
}

impl Flags {
    /// The bit that asks the receiver for an acknowledgement.
    pub const ACK_REQUIRED: u8 = 0b0000_0001;

    #[verifier::type_invariant]
    spec fn wire_valid(self) -> bool {
        flags_valid(self.0)
    }

    /// Accepts `bits` when no reserved bit is set, else reports them.
    pub fn new(bits: u8) -> (r: Result<Flags, DecodeError>)
        ensures
            r is Ok <==> flags_valid(bits),
            r matches Ok(f) ==> f@ == bits,
            !flags_valid(bits) ==> r == Err::<Flags, DecodeError>(DecodeError::ReservedFlags(bits)),
    {
        if (bits & RESERVED_MASK) != 0 {
            return Err(DecodeError::ReservedFlags(bits));
        }
        Ok(Flags(bits))
    }

    /// The raw byte, as it goes on the wire.
    pub fn bits(self) -> (r: u8)
        ensures
            r == self@,
            flags_valid(r),
    {
        proof {
            use_type_invariant(&self);
        }
        self.0
    }

    /// Whether the receiver is asked for an acknowledgement.
    pub fn ack_required(self) -> (r: bool)
        ensures
            r == (self@ & Self::ACK_REQUIRED != 0),
    {
        (self.0 & Self::ACK_REQUIRED) != 0
    }

    /// Two flags values with the same bits are the same value.
    pub proof fn lemma_view_injective(self, other: Flags)
        ensures
            self@ == other@ ==> self == other,
    {
    }
}

} // verus!
