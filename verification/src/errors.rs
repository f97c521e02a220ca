//! Error values returned by the codec.

use vstd::prelude::*;

verus! {

/// Why a frame could not be decoded.
#[derive(Debug, Clone, Copy, PartialEq, Eq)]
pub enum DecodeError {
    /// The length prefix announces fewer bytes than the fixed header holds.
    /// The byte stream can no longer be trusted after this.
    FrameTooShort(u32),
    /// The flags byte has a bit set that this protocol does not define.
    InvalidFlags(u8),
    /// The message catalog does not know the discriminator byte.
    UnsupportedDiscriminator(u8),
    /// The credential block announces more bytes than the frame holds.
    Truncated,
    /// A credential field is not valid UTF-8.
    InvalidEncoding,
}

/// Why a package could not be encoded.
#[derive(Debug, Clone, Copy, PartialEq, Eq)]
pub enum EncodeError {
    /// The frame would be longer than the 32-bit length prefix can say.
    FrameTooLong,
}

/// A credential field does not fit behind its one-byte length.
#[derive(Debug, Clone, Copy, PartialEq, Eq)]
pub enum CredentialError {
    /// The username has 255 bytes or more.
    UsernameTooLong,
    /// The password has 255 bytes or more.
    PasswordTooLong,
}

} // verus!
