//! The flags byte of a frame.

use vstd::prelude::*;

verus! {

/// No flag set.
pub const FLAG_NONE: u8 = 0x00;

/// The frame carries a credential block behind the correlation id.
pub const FLAG_AUTHENTICATED: u8 = 0x01;

/// Whether every bit set in `bits` is a flag of the protocol.
pub open spec fn known_bits(bits: u8) -> bool {
    bits == FLAG_NONE || bits == FLAG_AUTHENTICATED
}

/// A validated set of frame flags.
#[derive(Debug, Clone, Copy, PartialEq, Eq)]
pub struct TcpFlags {
    pub(crate) bits: u8,
}

impl TcpFlags {
    /// The raw byte behind the set.
    pub open(crate) spec fn spec_bits(self) -> u8 {
        self.bits
    }

    /// Every value of this type holds defined bits only.
    pub open spec fn well_formed(self) -> bool {
        known_bits(self.spec_bits())
    }

    /// The empty set.
    pub fn empty() -> (r: TcpFlags)
        ensures
            r.spec_bits() == FLAG_NONE,
            r.well_formed(),
    {
        TcpFlags { bits: FLAG_NONE }
    }

    /// The set that holds the authentication flag alone.
    pub fn authenticated() -> (r: TcpFlags)
        ensures
            r.spec_bits() == FLAG_AUTHENTICATED,
            r.well_formed(),
    {
        TcpFlags { bits: FLAG_AUTHENTICATED }
    }

    /// Reads a flags byte, refusing any byte with an undefined bit.
    pub fn from_bits(bits: u8) -> (r: Option<TcpFlags>)
        ensures
            known_bits(bits) <==> r is Some,
            r is Some ==> r.unwrap().spec_bits() == bits && r.unwrap().well_formed(),
    {
        if bits & !FLAG_AUTHENTICATED == 0 {
            assert(bits & !0x01u8 == 0 ==> bits == 0 || bits == 1) by (bit_vector);
            Some(TcpFlags { bits })
        } else {
            assert(bits == 0 || bits == 1 ==> bits & !0x01u8 == 0) by (bit_vector);
            None
        }
    }

    /// The raw byte.
    pub fn bits(&self) -> (r: u8)
        ensures
            r == self.spec_bits(),
    {
        self.bits
    }

    /// Whether the authentication flag is set.
    pub fn is_authenticated(&self) -> (r: bool)
        ensures
            r == (self.spec_bits() & FLAG_AUTHENTICATED == FLAG_AUTHENTICATED),
            self.well_formed() ==> r == (self.spec_bits() == FLAG_AUTHENTICATED),
    {
        let b: u8 = self.bits;
        assert(b == 0 || b == 1 ==> ((b & 0x01u8 == 0x01u8) <==> b == 1)) by (bit_vector);
        b & FLAG_AUTHENTICATED == FLAG_AUTHENTICATED
    }
}

} // verus!
