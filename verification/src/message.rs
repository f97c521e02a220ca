//! The message catalog: how a message body is read and written.
//!
//! The frame codec knows nothing of the messages it carries. It hands the
//! discriminator byte and the body to a catalog, which is any type that
//! implements [`MessageCodec`].

use crate::bytes::append_bytes;
use crate::bytes::copy_range;
use crate::errors::DecodeError;
use vstd::prelude::*;

verus! {

/// A catalog of messages, each identified on the wire by one discriminator
/// byte.
pub trait MessageCodec {
    /// The messages of this catalog.
    type Message: View;

    /// The byte that identifies the kind of `message` on the wire.
    spec fn discriminator_of(message: <Self::Message as View>::V) -> u8;

    /// The body that `message` is written as.
    spec fn body_of(message: <Self::Message as View>::V) -> Seq<u8>;

    /// The message that a discriminator and a body stand for, or the reason
    /// why they stand for none.
    spec fn parse(discriminator: u8, body: Seq<u8>) -> Result<
        <Self::Message as View>::V,
        DecodeError,
    >;

    /// Every message is read back from what it is written as.
    proof fn lemma_parse_inverts_write(message: <Self::Message as View>::V)
        ensures
            Self::parse(Self::discriminator_of(message), Self::body_of(message)) == Ok::<
                <Self::Message as View>::V,
                DecodeError,
            >(message),
    ;

    /// The byte that identifies the kind of `message` on the wire.
    fn discriminator(&self, message: &Self::Message) -> (d: u8)
        ensures
            d == Self::discriminator_of(message@),
    ;

    /// Appends the body of `message` to `out`.
    fn encode(&self, message: &Self::Message, out: &mut Vec<u8>)
        ensures
            final(out)@ == old(out)@ + Self::body_of(message@),
    ;

    /// Reads the message that `discriminator` and `body` stand for.
    fn decode(&self, discriminator: u8, body: &[u8]) -> (r: Result<Self::Message, DecodeError>)
        ensures
            match Self::parse(discriminator, body@) {
                Ok(v) => r is Ok && r.unwrap()@ == v,
                Err(e) => r matches Err(x) && x == e,
            },
    ;
}

/// Discriminator of a ping.
pub const PING: u8 = 0x03;

/// The messages that probe whether the other side is alive.
#[derive(Debug, Clone, Copy, PartialEq, Eq)]
pub enum Liveness {
    /// Asks the other side to answer.
    Ping,
}

impl View for Liveness {
    type V = Liveness;

    open spec fn view(&self) -> Liveness {
        *self
    }
}

/// The catalog that knows the liveness messages and nothing else.
#[derive(Debug, Clone, Copy, PartialEq, Eq)]
pub struct LivenessCatalog;

impl MessageCodec for LivenessCatalog {
    type Message = Liveness;

    open spec fn discriminator_of(message: Liveness) -> u8 {
        PING
    }

    open spec fn body_of(message: Liveness) -> Seq<u8> {
        Seq::empty()
    }

    /// A ping has no body of its own; whatever bytes follow its header are
    /// passed over.
    open spec fn parse(discriminator: u8, body: Seq<u8>) -> Result<Liveness, DecodeError> {
        if discriminator == PING {
            Ok(Liveness::Ping)
        } else {
            Err(DecodeError::UnsupportedDiscriminator(discriminator))
        }
    }

    proof fn lemma_parse_inverts_write(message: Liveness) {
    }

    fn discriminator(&self, message: &Liveness) -> (d: u8) {
        PING
    }

    fn encode(&self, message: &Liveness, out: &mut Vec<u8>) {
        assert(out@ + Seq::<u8>::empty() =~= out@);
    }

    fn decode(&self, discriminator: u8, body: &[u8]) -> (r: Result<Liveness, DecodeError>) {
        if discriminator == PING {
            Ok(Liveness::Ping)
        } else {
            Err(DecodeError::UnsupportedDiscriminator(discriminator))
        }
    }
}

/// A message whose body is carried as it stands on the wire.
#[derive(Debug, Clone, PartialEq, Eq)]
pub struct RawMessage {
    /// The byte that identifies the kind of message.
    pub discriminator: u8,
    /// The body, uninterpreted.
    pub body: Vec<u8>,
}

impl View for RawMessage {
    type V = (u8, Seq<u8>);

    open spec fn view(&self) -> (u8, Seq<u8>) {
        (self.discriminator, self.body@)
    }
}

/// The catalog that accepts every discriminator and leaves every body
/// uninterpreted, for callers that keep their message types elsewhere.
#[derive(Debug, Clone, Copy, PartialEq, Eq)]
pub struct RawCatalog;

impl MessageCodec for RawCatalog {
    type Message = RawMessage;

    open spec fn discriminator_of(message: (u8, Seq<u8>)) -> u8 {
        message.0
    }

    open spec fn body_of(message: (u8, Seq<u8>)) -> Seq<u8> {
        message.1
    }

    open spec fn parse(discriminator: u8, body: Seq<u8>) -> Result<(u8, Seq<u8>), DecodeError> {
        Ok((discriminator, body))
    }

    proof fn lemma_parse_inverts_write(message: (u8, Seq<u8>)) {
    }

    fn discriminator(&self, message: &RawMessage) -> (d: u8) {
        message.discriminator
    }

    fn encode(&self, message: &RawMessage, out: &mut Vec<u8>) {
        append_bytes(out, message.body.as_slice());
    }

    fn decode(&self, discriminator: u8, body: &[u8]) -> (r: Result<RawMessage, DecodeError>) {
        let copy = copy_range(body, 0, body.len());
        assert(copy@ =~= body@);
        Ok(RawMessage { discriminator, body: copy })
    }
}

} // verus!
