//! Username and password credentials embedded in a frame.
//!
//! The protocol has no sessions, so every request that needs authentication
//! carries its own credentials: two strings, each behind a one-byte length.

use crate::bytes::append_bytes;
use crate::bytes::copy_range;
use crate::errors::CredentialError;
use crate::errors::DecodeError;
use vstd::prelude::*;
use vstd::utf8::decode_utf8;
use vstd::utf8::encode_utf8;
use vstd::utf8::valid_utf8;

verus! {

/// The most bytes that a one-byte length can announce.
pub const MAX_FIELD_LEN: usize = 255;

/// One field on the wire: its length in one byte, then its UTF-8 bytes.
pub open spec fn field_bytes(text: Seq<char>) -> Seq<u8> {
    seq![encode_utf8(text).len() as u8] + encode_utf8(text)
}

/// The credential block on the wire: username, then password.
pub open spec fn credential_block(username: Seq<char>, password: Seq<char>) -> Seq<u8> {
    field_bytes(username) + field_bytes(password)
}

/// What the start of `bytes` holds if read as one field: the text and the
/// number of bytes it took, or the reason why there is no field.
pub open spec fn parse_field(bytes: Seq<u8>) -> Result<(Seq<char>, int), DecodeError> {
    if bytes.len() < 1 {
        Err(DecodeError::Truncated)
    } else if bytes.len() < 1 + bytes[0] as int {
        Err(DecodeError::Truncated)
    } else if !valid_utf8(bytes.subrange(1, 1 + bytes[0] as int)) {
        Err(DecodeError::InvalidEncoding)
    } else {
        Ok((decode_utf8(bytes.subrange(1, 1 + bytes[0] as int)), 1 + bytes[0] as int))
    }
}

/// What the start of `bytes` holds if read as a credential block: username,
/// password and the number of bytes the block took.
pub open spec fn parse_credentials(bytes: Seq<u8>) -> Result<
    ((Seq<char>, Seq<char>), int),
    DecodeError,
> {
    match parse_field(bytes) {
        Err(e) => Err(e),
        Ok((username, n)) => match parse_field(bytes.skip(n)) {
            Err(e) => Err(e),
            Ok((password, m)) => Ok(((username, password), n + m)),
        },
    }
}

/// `String::from_utf8` of std: the string that the bytes spell, if and only if
/// they are valid UTF-8.
#[verifier::external_body]
fn string_from_utf8(bytes: Vec<u8>) -> (r: Option<String>)
    ensures
        r is Some <==> valid_utf8(bytes@),
        r is Some ==> r.unwrap()@ == decode_utf8(bytes@),
{
    String::from_utf8(bytes).ok()
}

/// Username and password authentication token embedded in requests.
#[derive(Clone)]
pub struct UsernamePassword {
    pub(crate) username: String,
    pub(crate) password: String,
}

impl View for UsernamePassword {
    type V = (Seq<char>, Seq<char>);

    open(crate) spec fn view(&self) -> (Seq<char>, Seq<char>) {
        (self.username@, self.password@)
    }
}

/// Optional credentials as plain values.
pub open spec fn token_view(token: Option<UsernamePassword>) -> Option<(Seq<char>, Seq<char>)> {
    match token {
        Some(t) => Some(t@),
        None => None,
    }
}

impl UsernamePassword {
    /// Both fields fit behind a one-byte length.
    pub open spec fn well_formed(&self) -> bool {
        &&& encode_utf8(self@.0).len() <= MAX_FIELD_LEN
        &&& encode_utf8(self@.1).len() <= MAX_FIELD_LEN
    }

    /// Create a new value. Each field must have fewer than 255 bytes.
    pub fn new(username: String, password: String) -> (r: Result<UsernamePassword, CredentialError>)
        ensures
            encode_utf8(username@).len() >= 255 ==> r == Err::<UsernamePassword, CredentialError>(
                CredentialError::UsernameTooLong,
            ),
            encode_utf8(username@).len() < 255 && encode_utf8(password@).len() >= 255 ==> r
                == Err::<UsernamePassword, CredentialError>(CredentialError::PasswordTooLong),
            encode_utf8(username@).len() < 255 && encode_utf8(password@).len() < 255 ==> r is Ok
                && r.unwrap()@ == (username@, password@) && r.unwrap().well_formed(),
    {
        if username.as_str().as_bytes().len() >= 255 {
            Err(CredentialError::UsernameTooLong)
        } else if password.as_str().as_bytes().len() >= 255 {
            Err(CredentialError::PasswordTooLong)
        } else {
            Ok(UsernamePassword { username, password })
        }
    }

    /// The username.
    pub fn username(&self) -> (s: &str)
        ensures
            s@ == self@.0,
    {
        self.username.as_str()
    }

    /// The password.
    pub fn password(&self) -> (s: &str)
        ensures
            s@ == self@.1,
    {
        self.password.as_str()
    }

    /// Gives up the two strings: username, then password.
    pub fn into_parts(self) -> (parts: (String, String))
        ensures
            parts.0@ == self@.0,
            parts.1@ == self@.1,
    {
        (self.username, self.password)
    }

    /// Reads a credential block from the start of `bytes`. Gives the
    /// credentials and the number of bytes that the block took.
    pub fn decode(bytes: &[u8]) -> (r: Result<(UsernamePassword, usize), DecodeError>)
        ensures
            match parse_credentials(bytes@) {
                Ok((v, n)) => r is Ok && r.unwrap().0@ == v && r.unwrap().1 == n
                    && r.unwrap().0.well_formed(),
                Err(e) => r == Err::<(UsernamePassword, usize), DecodeError>(e),
            },
    {
        assert(bytes@.skip(0) =~= bytes@);
        let (username, n) = match decode_field(bytes, 0) {
            Ok(f) => f,
            Err(e) => {
                return Err(e);
            },
        };
        let (password, m) = match decode_field(bytes, n) {
            Ok(f) => f,
            Err(e) => {
                return Err(e);
            },
        };
        Ok((UsernamePassword { username, password }, n + m))
    }

    /// Appends the credential block to `out` and gives the number of bytes
    /// written.
    pub fn encode(&self, out: &mut Vec<u8>) -> (n: usize)
        requires
            self.well_formed(),
        ensures
            final(out)@ == old(out)@ + credential_block(self@.0, self@.1),
            n == credential_block(self@.0, self@.1).len(),
            n == 2 + encode_utf8(self@.0).len() + encode_utf8(self@.1).len(),
    {
        let u = self.username.as_str().as_bytes();
        let p = self.password.as_str().as_bytes();
        out.push(u.len() as u8);
        append_bytes(out, u);
        out.push(p.len() as u8);
        append_bytes(out, p);
        assert(out@ =~= old(out)@ + credential_block(self@.0, self@.1));
        1 + u.len() + 1 + p.len()
    }
}

/// Reads one field that starts at `start`.
fn decode_field(bytes: &[u8], start: usize) -> (r: Result<(String, usize), DecodeError>)
    requires
        start <= bytes@.len(),
    ensures
        match parse_field(bytes@.skip(start as int)) {
            Ok((text, n)) => r is Ok && r.unwrap().0@ == text && r.unwrap().1 == n
                && encode_utf8(text).len() <= MAX_FIELD_LEN && start + n <= bytes@.len(),
            Err(e) => r == Err::<(String, usize), DecodeError>(e),
        },
{
    broadcast use vstd::utf8::decode_utf8_encode_utf8;

    let rest: usize = bytes.len() - start;
    if rest < 1 {
        return Err(DecodeError::Truncated);
    }
    let len: usize = bytes[start] as usize;
    assert(bytes@.skip(start as int)[0] == bytes@[start as int]);
    if rest < 1 + len {
        return Err(DecodeError::Truncated);
    }
    let raw = copy_range(bytes, start + 1, start + 1 + len);
    assert(raw@ =~= bytes@.skip(start as int).subrange(1, 1 + len as int));
    match string_from_utf8(raw) {
        Some(text) => Ok((text, 1 + len)),
        None => Err(DecodeError::InvalidEncoding),
    }
}

/// A credential block is read back as the fields it was written from, whatever
/// follows it.
pub proof fn lemma_credentials_round_trip(
    username: Seq<char>,
    password: Seq<char>,
    rest: Seq<u8>,
)
    requires
        encode_utf8(username).len() <= MAX_FIELD_LEN,
        encode_utf8(password).len() <= MAX_FIELD_LEN,
    ensures
        parse_credentials(credential_block(username, password) + rest) == Ok::<
            ((Seq<char>, Seq<char>), int),
            DecodeError,
        >(((username, password), credential_block(username, password).len() as int)),
        credential_block(username, password).len() == 2 + encode_utf8(username).len()
            + encode_utf8(password).len(),
{
    broadcast use vstd::utf8::encode_utf8_valid_utf8, vstd::utf8::encode_utf8_decode_utf8;

    let eu = encode_utf8(username);
    let ep = encode_utf8(password);
    let all = credential_block(username, password) + rest;
    let n = 1 + eu.len() as int;
    assert(all[0] == eu.len() as u8);
    assert(all.subrange(1, n) =~= eu);
    let tail = all.skip(n);
    assert(tail =~= field_bytes(password) + rest);
    assert(tail[0] == ep.len() as u8);
    assert(tail.subrange(1, 1 + ep.len() as int) =~= ep);
}

} // verus!
