//! The frame codec: between raw bytes and [`Package`] values.
//!
//! A frame is a four-byte little-endian length followed by that many bytes:
//! discriminator, flags, sixteen bytes of correlation id, a credential block
//! if the flags announce one, and the message body.

use crate::auth::credential_block;
use crate::auth::lemma_credentials_round_trip;
use crate::auth::parse_credentials;
use crate::auth::token_view;
use crate::auth::UsernamePassword;
use crate::bytes::append_bytes;
use crate::bytes::le_u32;
use crate::bytes::le_u32_bytes;
use crate::bytes::lemma_le_u32_round_trip;
use crate::bytes::read_u32_le;
use crate::bytes::write_u32_le;
use crate::errors::DecodeError;
use crate::errors::EncodeError;
use crate::flags::known_bits;
use crate::flags::TcpFlags;
use crate::flags::FLAG_AUTHENTICATED;
use crate::flags::FLAG_NONE;
use crate::message::MessageCodec;
use crate::package::CorrelationId;
use crate::package::Package;
use crate::package::PackageView;
use vstd::prelude::*;
use vstd::slice::slice_subrange;

verus! {

/// Bytes of the length prefix.
pub const PREFIX_LEN: usize = 4;

/// Bytes of the fixed header behind the prefix: discriminator, flags and
/// correlation id.
pub const HEADER_LEN: usize = 18;

/// The flags byte that a package is written with.
pub open spec fn flags_of(authentication: Option<(Seq<char>, Seq<char>)>) -> u8 {
    if authentication is Some {
        FLAG_AUTHENTICATED
    } else {
        FLAG_NONE
    }
}

/// The credential block that a package is written with; empty without
/// credentials.
pub open spec fn credentials_of(authentication: Option<(Seq<char>, Seq<char>)>) -> Seq<u8> {
    match authentication {
        Some((username, password)) => credential_block(username, password),
        None => Seq::empty(),
    }
}

/// Everything of a frame behind its length prefix.
pub open spec fn frame_body<C: MessageCodec>(p: PackageView<<C::Message as View>::V>) -> Seq<u8> {
    seq![C::discriminator_of(p.message), flags_of(p.authentication)] + p.correlation_id
        + credentials_of(p.authentication) + C::body_of(p.message)
}

/// The frame that a package is written as.
pub open spec fn frame_bytes<C: MessageCodec>(p: PackageView<<C::Message as View>::V>) -> Seq<u8> {
    le_u32_bytes(frame_body::<C>(p).len() as u32) + frame_body::<C>(p)
}

/// What the start of a frame's body holds: discriminator, correlation id,
/// credentials if the flags announce any, and the position at which the
/// message body starts.
pub open spec fn parse_header(body: Seq<u8>) -> Result<
    (u8, Seq<u8>, Option<(Seq<char>, Seq<char>)>, int),
    DecodeError,
>
    recommends
        body.len() >= HEADER_LEN,
{
    let discriminator = body[0];
    let flags = body[1];
    let correlation_id = body.subrange(2, 18);
    if !known_bits(flags) {
        Err(DecodeError::InvalidFlags(flags))
    } else if flags == FLAG_AUTHENTICATED {
        match parse_credentials(body.skip(18)) {
            Err(e) => Err(e),
            Ok((token, n)) => Ok((discriminator, correlation_id, Some(token), 18 + n)),
        }
    } else {
        Ok((discriminator, correlation_id, None, 18))
    }
}

/// The package that the bytes behind a length prefix stand for.
pub open spec fn parse_frame_body<C: MessageCodec>(body: Seq<u8>) -> Result<
    PackageView<<C::Message as View>::V>,
    DecodeError,
>
    recommends
        body.len() >= HEADER_LEN,
{
    match parse_header(body) {
        Err(e) => Err(e),
        Ok((discriminator, correlation_id, authentication, start)) => match C::parse(
            discriminator,
            body.skip(start),
        ) {
            Err(e) => Err(e),
            Ok(message) => Ok(PackageView { correlation_id, authentication, message }),
        },
    }
}

/// The length that the prefix of a buffer announces.
pub open spec fn announced_len(buf: Seq<u8>) -> int
    recommends
        buf.len() >= PREFIX_LEN,
{
    le_u32(buf.subrange(0, 4))
}

/// What one decode step makes of a buffer: its result, and the buffer that it
/// leaves behind.
///
/// With fewer than 22 bytes, or fewer than the prefix announces, there is
/// nothing to decode yet and the buffer stays. A prefix that announces less
/// than a header is an error and the buffer stays. Otherwise the frame leaves
/// the buffer, whether or not its bytes stand for a package.
pub open spec fn decode_step<C: MessageCodec>(buf: Seq<u8>) -> (
    Result<Option<PackageView<<C::Message as View>::V>>, DecodeError>,
    Seq<u8>,
) {
    if buf.len() < PREFIX_LEN + HEADER_LEN {
        (Ok(None), buf)
    } else if announced_len(buf) < HEADER_LEN {
        (Err(DecodeError::FrameTooShort(announced_len(buf) as u32)), buf)
    } else if buf.len() < announced_len(buf) + PREFIX_LEN {
        (Ok(None), buf)
    } else {
        let rest = buf.skip(announced_len(buf) + PREFIX_LEN);
        match parse_frame_body::<C>(buf.subrange(4, announced_len(buf) + PREFIX_LEN)) {
            Ok(p) => (Ok(Some(p)), rest),
            Err(e) => (Err(e), rest),
        }
    }
}

/// The result of a decode call, as plain values.
pub open spec fn result_view<M: View>(r: Result<Option<Package<M>>, DecodeError>) -> Result<
    Option<PackageView<M::V>>,
    DecodeError,
> {
    match r {
        Ok(Some(p)) => Ok(Some(p@)),
        Ok(None) => Ok(None),
        Err(e) => Err(e),
    }
}

/// Stateless transformer between byte buffers and packages, over the message
/// catalog `C`.
pub struct PackageCodec<C> {
    pub catalog: C,
}

impl<C: MessageCodec> PackageCodec<C> {
    /// A codec over `catalog`.
    pub fn new(catalog: C) -> (codec: PackageCodec<C>)
        ensures
            codec.catalog == catalog,
    {
        PackageCodec { catalog }
    }

    /// Takes one frame off the front of `buf`, if a whole frame is there.
    ///
    /// `Ok(None)` says that more bytes are needed; `buf` is then unchanged.
    /// A frame whose bytes stand for no package is dropped from `buf` and
    /// reported as the error. A length prefix below the header's size is
    /// reported as [`DecodeError::FrameTooShort`] and leaves `buf` unchanged.
    pub fn decode(&self, buf: &mut Vec<u8>) -> (r: Result<Option<Package<C::Message>>, DecodeError>)
        ensures
            (result_view(r), final(buf)@) == decode_step::<C>(old(buf)@),
            r matches Ok(Some(p)) ==> p.well_formed(),
    {
        if buf.len() < PREFIX_LEN + HEADER_LEN {
            return Ok(None);
        }
        let len: u32 = read_u32_le(buf.as_slice());
        if len < 18 {
            return Err(DecodeError::FrameTooShort(len));
        }
        if (buf.len() as u64) < len as u64 + 4 {
            return Ok(None);
        }
        let total: usize = len as usize + PREFIX_LEN;
        let rest = buf.split_off(total);
        let decoded = self.decode_body(slice_subrange(buf.as_slice(), PREFIX_LEN, total));
        assert(old(buf)@.subrange(0, total as int).subrange(4, total as int) =~= old(buf)@.subrange(
            4,
            total as int,
        ));
        assert(rest@ =~= old(buf)@.skip(total as int));
        *buf = rest;
        match decoded {
            Ok(p) => Ok(Some(p)),
            Err(e) => Err(e),
        }
    }

    /// Reads everything behind the length prefix: header, then message.
    fn decode_body(&self, frame: &[u8]) -> (r: Result<Package<C::Message>, DecodeError>)
        requires
            frame@.len() >= HEADER_LEN,
        ensures
            match parse_frame_body::<C>(frame@) {
                Ok(v) => r is Ok && r.unwrap()@ == v && r.unwrap().well_formed(),
                Err(e) => r == Err::<Package<C::Message>, DecodeError>(e),
            },
    {
        let (discriminator, correlation_id, authentication, pos) = match decode_header(frame) {
            Ok(h) => h,
            Err(e) => {
                return Err(e);
            },
        };
        let body = slice_subrange(frame, pos, frame.len());
        match self.catalog.decode(discriminator, body) {
            Ok(message) => Ok(Package { correlation_id, authentication, message }),
            Err(e) => Err(e),
        }
    }

    /// Appends the frame of `msg` to `buf`.
    ///
    /// Fails, and leaves `buf` unchanged, if and only if the frame would be
    /// longer than its length prefix can say.
    pub fn encode(&self, msg: Package<C::Message>, buf: &mut Vec<u8>) -> (r: Result<
        (),
        EncodeError,
    >)
        requires
            msg.well_formed(),
        ensures
            frame_body::<C>(msg@).len() <= u32::MAX ==> r is Ok && final(buf)@ == old(buf)@
                + frame_bytes::<C>(msg@),
            frame_body::<C>(msg@).len() > u32::MAX ==> r == Err::<(), EncodeError>(
                EncodeError::FrameTooLong,
            ) && final(buf)@ == old(buf)@,
    {
        let mut frame: Vec<u8> = Vec::new();
        // placeholder for the prefix
        frame.push(0);
        frame.push(0);
        frame.push(0);
        frame.push(0);
        let ghost placeholder = frame@;
        frame.push(self.catalog.discriminator(&msg.message));
        match &msg.authentication {
            Some(token) => {
                frame.push(TcpFlags::authenticated().bits());
                append_bytes(&mut frame, vstd::array::array_as_slice(&msg.correlation_id.bytes));
                token.encode(&mut frame);
            },
            None => {
                frame.push(TcpFlags::empty().bits());
                append_bytes(&mut frame, vstd::array::array_as_slice(&msg.correlation_id.bytes));
            },
        }
        self.catalog.encode(&msg.message, &mut frame);
        assert(frame@ =~= placeholder + frame_body::<C>(msg@));
        let len: usize = frame.len() - PREFIX_LEN;
        if len as u64 > 0xffff_ffffu64 {
            return Err(EncodeError::FrameTooLong);
        }
        write_u32_le(&mut frame, len as u32);
        assert(frame@ =~= frame_bytes::<C>(msg@));
        append_bytes(buf, frame.as_slice());
        Ok(())
    }
}

/// Reads the fixed header and the credential block, if the flags announce
/// one. Gives the discriminator, the correlation id, the credentials and the
/// position at which the message body starts.
fn decode_header(frame: &[u8]) -> (r: Result<
    (u8, CorrelationId, Option<UsernamePassword>, usize),
    DecodeError,
>)
    requires
        frame@.len() >= HEADER_LEN,
    ensures
        match parse_header(frame@) {
            Ok((discriminator, correlation_id, authentication, start)) => r is Ok && r.unwrap().0
                == discriminator && r.unwrap().1.bytes@ == correlation_id && token_view(
                r.unwrap().2,
            ) == authentication && r.unwrap().3 == start && start <= frame@.len() && (
            r.unwrap().2 matches Some(token) ==> token.well_formed()),
            Err(e) => r matches Err(x) && x == e,
        },
{
    let discriminator: u8 = frame[0];
    let flags = match TcpFlags::from_bits(frame[1]) {
        Some(flags) => flags,
        None => {
            return Err(DecodeError::InvalidFlags(frame[1]));
        },
    };
    let correlation_id = CorrelationId {
        bytes: [
            frame[2],
            frame[3],
            frame[4],
            frame[5],
            frame[6],
            frame[7],
            frame[8],
            frame[9],
            frame[10],
            frame[11],
            frame[12],
            frame[13],
            frame[14],
            frame[15],
            frame[16],
            frame[17],
        ],
    };
    assert(correlation_id.bytes@ =~= frame@.subrange(2, 18));
    if flags.is_authenticated() {
        let tail = slice_subrange(frame, HEADER_LEN, frame.len());
        assert(tail@ =~= frame@.skip(18));
        match UsernamePassword::decode(tail) {
            Ok((token, n)) => {
                proof {
                    lemma_credentials_fit(tail@);
                }
                Ok((discriminator, correlation_id, Some(token), HEADER_LEN + n))
            },
            Err(e) => Err(e),
        }
    } else {
        Ok((discriminator, correlation_id, None, HEADER_LEN))
    }
}

/// A credential block takes no more bytes than there are.
pub proof fn lemma_credentials_fit(bytes: Seq<u8>)
    ensures
        parse_credentials(bytes) matches Ok((_, n)) ==> 2 <= n <= bytes.len(),
{
}

/// What is behind the length prefix of a written package is read back as that
/// package.
pub proof fn lemma_frame_body_round_trip<C: MessageCodec>(p: PackageView<<C::Message as View>::V>)
    requires
        p.well_formed(),
    ensures
        frame_body::<C>(p).len() >= HEADER_LEN,
        parse_frame_body::<C>(frame_body::<C>(p)) == Ok::<PackageView<<C::Message as View>::V>, DecodeError>(p),
{
    let body = frame_body::<C>(p);
    let message_body = C::body_of(p.message);
    C::lemma_parse_inverts_write(p.message);
    assert(body[0] == C::discriminator_of(p.message));
    assert(body[1] == flags_of(p.authentication));
    assert(body.subrange(2, 18) =~= p.correlation_id);
    match p.authentication {
        Some((username, password)) => {
            lemma_credentials_round_trip(username, password, message_body);
            let n = credential_block(username, password).len() as int;
            assert(body.skip(18) =~= credential_block(username, password) + message_body);
            assert(body.skip(18 + n) =~= message_body);
        },
        None => {
            assert(body.skip(18) =~= message_body);
        },
    }
}

/// Round trip, exact consumption and over-long buffers in one: decoding a
/// buffer that starts with the frame of a package gives that package and
/// leaves exactly the bytes behind the frame.
pub proof fn lemma_decode_inverts_encode<C: MessageCodec>(
    p: PackageView<<C::Message as View>::V>,
    rest: Seq<u8>,
)
    requires
        p.well_formed(),
        frame_body::<C>(p).len() <= u32::MAX,
    ensures
        decode_step::<C>(frame_bytes::<C>(p) + rest) == (
            Ok::<Option<PackageView<<C::Message as View>::V>>, DecodeError>(Some(p)),
            rest,
        ),
{
    let body = frame_body::<C>(p);
    let len = body.len() as int;
    let all = frame_bytes::<C>(p) + rest;
    lemma_frame_body_round_trip::<C>(p);
    lemma_le_u32_round_trip(len as u32);
    assert(all.subrange(0, 4) =~= le_u32_bytes(len as u32));
    assert(all.subrange(4, len + 4) =~= body);
    assert(all.skip(len + 4) =~= rest);
}

/// Decoding the frame of a package, and nothing else, gives the package and
/// leaves the buffer empty.
pub proof fn lemma_round_trip<C: MessageCodec>(p: PackageView<<C::Message as View>::V>)
    requires
        p.well_formed(),
        frame_body::<C>(p).len() <= u32::MAX,
    ensures
        decode_step::<C>(frame_bytes::<C>(p)) == (
            Ok::<Option<PackageView<<C::Message as View>::V>>, DecodeError>(Some(p)),
            Seq::<u8>::empty(),
        ),
{
    lemma_decode_inverts_encode::<C>(p, Seq::empty());
    assert(frame_bytes::<C>(p) + Seq::<u8>::empty() =~= frame_bytes::<C>(p));
}

/// Decoding the first `k` bytes of a frame, for any `k` short of the whole
/// frame, asks for more bytes and leaves the buffer as it is.
pub proof fn lemma_prefix_is_incomplete<C: MessageCodec>(p: PackageView<<C::Message as View>::V>, k: int)
    requires
        p.well_formed(),
        frame_body::<C>(p).len() <= u32::MAX,
        0 <= k < frame_bytes::<C>(p).len(),
    ensures
        decode_step::<C>(frame_bytes::<C>(p).subrange(0, k)) == (
            Ok::<Option<PackageView<<C::Message as View>::V>>, DecodeError>(None),
            frame_bytes::<C>(p).subrange(0, k),
        ),
{
    let body = frame_body::<C>(p);
    let len = body.len() as int;
    let prefix = frame_bytes::<C>(p).subrange(0, k);
    lemma_frame_body_round_trip::<C>(p);
    lemma_le_u32_round_trip(len as u32);
    if k >= 4 {
        assert(prefix.subrange(0, 4) =~= le_u32_bytes(len as u32));
    }
}

} // verus!
