//! The unit of exchange: correlation id, optional credentials and a message.

use crate::auth::token_view;
use crate::auth::UsernamePassword;
use vstd::prelude::*;
use vstd::utf8::encode_utf8;

verus! {

/// Identifier that pairs a response with its request. The codec carries its
/// sixteen bytes through unchanged.
#[derive(Debug, Clone, Copy, PartialEq, Eq)]
pub struct CorrelationId {
    pub bytes: [u8; 16],
}

/// One protocol exchange.
#[derive(Clone, PartialEq, Eq)]
pub struct Package<M> {
    /// Pairs a response with its request.
    pub correlation_id: CorrelationId,
    /// Credentials, where the request carries any.
    pub authentication: Option<UsernamePassword>,
    /// The message itself.
    pub message: M,
}

/// What a package holds, as plain values.
pub struct PackageView<M> {
    pub correlation_id: Seq<u8>,
    pub authentication: Option<(Seq<char>, Seq<char>)>,
    pub message: M,
}

impl<M> PackageView<M> {
    /// The correlation id has sixteen bytes and each credential field fits
    /// behind a one-byte length.
    pub open spec fn well_formed(self) -> bool {
        &&& self.correlation_id.len() == 16
        &&& match self.authentication {
            Some((username, password)) => encode_utf8(username).len() <= 255 && encode_utf8(
                password,
            ).len() <= 255,
            None => true,
        }
    }
}

impl<M: View> View for Package<M> {
    type V = PackageView<M::V>;

    open spec fn view(&self) -> PackageView<M::V> {
        PackageView {
            correlation_id: self.correlation_id.bytes@,
            authentication: token_view(self.authentication),
            message: self.message@,
        }
    }
}

impl<M: View> Package<M> {
    /// The credentials, where there are any, fit the wire.
    pub open spec fn well_formed(&self) -> bool {
        self@.well_formed()
    }
}

} // verus!
