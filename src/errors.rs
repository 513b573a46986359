//! The connector's errors, and how transport failures map onto them.
use vstd::prelude::*;
use vstd::utf8::valid_utf8;

use crate::frame::{append_bytes, decimal, push_text, text_bytes, to_decimal};

verus! {

/// The category of a failure reported by the byte-stream transport.
#[derive(Debug, Clone, Copy, PartialEq, Eq)]
pub enum FailureKind {
    BrokenPipe,
    TimedOut,
    PermissionDenied,
    ConnectionReset,
    ConnectionRefused,
    AddrInUse,
    /// Any category that the connector does not tell apart.
    Other,
}

/// A failure of the byte-stream transport: its category and the platform's description of it.
#[derive(Debug, PartialEq, Eq)]
pub struct IoFailure {
    pub kind: FailureKind,
    pub description: String,
}

/// Everything that can go wrong in the connector.
#[derive(Debug, PartialEq, Eq)]
pub enum OzesConnectorError {
    TimeOut,
    WithouConnection,
    UnknownError(String),
    PermissionDenied,
    Refused,
    Reseted,
    AddressInUse,
    InvalidLen(usize),
    IncompatibleCommand,
    FailToParseServerMessage(Vec<u8>),
    InvalidMessageToServer(Vec<u8>),
}

pub type OzesResult<T> = Result<T, OzesConnectorError>;

/// The connector error that a transport failure becomes: one variant per category that
/// the connector tells apart, and the platform's description for the others.
pub open spec fn failure_error(e: IoFailure) -> OzesConnectorError {
    match e.kind {
        FailureKind::BrokenPipe => OzesConnectorError::WithouConnection,
        FailureKind::TimedOut => OzesConnectorError::TimeOut,
        FailureKind::PermissionDenied => OzesConnectorError::PermissionDenied,
        FailureKind::ConnectionReset => OzesConnectorError::Reseted,
        FailureKind::ConnectionRefused => OzesConnectorError::Refused,
        FailureKind::AddrInUse => OzesConnectorError::AddressInUse,
        FailureKind::Other => OzesConnectorError::UnknownError(e.description),
    }
}

impl From<IoFailure> for OzesConnectorError {
    fn from(e: IoFailure) -> (r: Self) {
        match e.kind {
            FailureKind::BrokenPipe => OzesConnectorError::WithouConnection,
            FailureKind::TimedOut => OzesConnectorError::TimeOut,
            FailureKind::PermissionDenied => OzesConnectorError::PermissionDenied,
            FailureKind::ConnectionReset => OzesConnectorError::Reseted,
            FailureKind::ConnectionRefused => OzesConnectorError::Refused,
            FailureKind::AddrInUse => OzesConnectorError::AddressInUse,
            FailureKind::Other => OzesConnectorError::UnknownError(e.description),
        }
    }
}

impl vstd::std_specs::convert::FromSpecImpl<IoFailure> for OzesConnectorError {
    open spec fn obeys_from_spec() -> bool {
        true
    }

    open spec fn from_spec(e: IoFailure) -> Self {
        failure_error(e)
    }
}

/// Every category that the connector tells apart maps to its own error; every other one
/// maps to `UnknownError` with the platform's description.
pub proof fn lemma_failure_mapping(e: IoFailure)
    ensures
        e.kind == FailureKind::BrokenPipe <==> failure_error(e) == OzesConnectorError::WithouConnection,
        e.kind == FailureKind::TimedOut <==> failure_error(e) == OzesConnectorError::TimeOut,
        e.kind == FailureKind::PermissionDenied <==> failure_error(e) == OzesConnectorError::PermissionDenied,
        e.kind == FailureKind::ConnectionReset <==> failure_error(e) == OzesConnectorError::Reseted,
        e.kind == FailureKind::ConnectionRefused <==> failure_error(e) == OzesConnectorError::Refused,
        e.kind == FailureKind::AddrInUse <==> failure_error(e) == OzesConnectorError::AddressInUse,
        e.kind == FailureKind::Other <==> failure_error(e) == OzesConnectorError::UnknownError(e.description),
        failure_error(e) is UnknownError <==> e.kind == FailureKind::Other,
        !(failure_error(e) is InvalidLen || failure_error(e) is IncompatibleCommand
            || failure_error(e) is FailToParseServerMessage || failure_error(e) is InvalidMessageToServer),
{
}

/// The human-readable sentence for an error, as bytes: each kind has its own wording, and
/// the kinds that carry a payload end with it.
pub open spec fn description(e: OzesConnectorError) -> Seq<u8> {
    match e {
        OzesConnectorError::InvalidMessageToServer(m) => text_bytes("invalide message "@) + m@,
        OzesConnectorError::FailToParseServerMessage(m) => text_bytes("fail to parse server message "@) + m@,
        OzesConnectorError::PermissionDenied => text_bytes("permission denied"@),
        OzesConnectorError::Refused => text_bytes("connection refused"@),
        OzesConnectorError::Reseted => text_bytes("connection reset"@),
        OzesConnectorError::TimeOut => text_bytes("connection time out"@),
        OzesConnectorError::WithouConnection => text_bytes("lose connection"@),
        OzesConnectorError::AddressInUse => text_bytes("address already in use"@),
        OzesConnectorError::InvalidLen(len) => text_bytes("invalid len of message "@) + decimal(len as nat),
        OzesConnectorError::UnknownError(s) => text_bytes("unknown error "@) + text_bytes(s@),
        OzesConnectorError::IncompatibleCommand => text_bytes("incompatible command are received"@),
    }
}

/// What `String::from_utf8_lossy` makes of a byte sequence.
pub uninterp spec fn lossy_text(b: Seq<u8>) -> Seq<char>;

/// Relies on `String::from_utf8_lossy`: the result depends on the bytes alone, and bytes
/// that are valid UTF-8 come back as the text they encode.
#[verifier::external_body]
fn text_from_bytes(b: &[u8]) -> (r: String)
    ensures
        r@ == lossy_text(b@),
        valid_utf8(b@) ==> text_bytes(r@) == b@,
{
    String::from_utf8_lossy(b).into_owned()
}

impl OzesConnectorError {
    /// The sentence that describes this error, as bytes.
    pub fn describe(&self) -> (r: Vec<u8>)
        ensures
            r@ == description(*self),
    {
        let mut v: Vec<u8> = Vec::new();
        match self {
            OzesConnectorError::InvalidMessageToServer(m) => {
                push_text(&mut v, "invalide message ");
                append_bytes(&mut v, m.as_slice());
            },
            OzesConnectorError::FailToParseServerMessage(m) => {
                push_text(&mut v, "fail to parse server message ");
                append_bytes(&mut v, m.as_slice());
            },
            OzesConnectorError::PermissionDenied => push_text(&mut v, "permission denied"),
            OzesConnectorError::Refused => push_text(&mut v, "connection refused"),
            OzesConnectorError::Reseted => push_text(&mut v, "connection reset"),
            OzesConnectorError::TimeOut => push_text(&mut v, "connection time out"),
            OzesConnectorError::WithouConnection => push_text(&mut v, "lose connection"),
            OzesConnectorError::AddressInUse => push_text(&mut v, "address already in use"),
            OzesConnectorError::InvalidLen(len) => {
                push_text(&mut v, "invalid len of message ");
                let d = to_decimal(*len);
                append_bytes(&mut v, d.as_slice());
            },
            OzesConnectorError::UnknownError(s) => {
                push_text(&mut v, "unknown error ");
                push_text(&mut v, s.as_str());
            },
            OzesConnectorError::IncompatibleCommand => push_text(
                &mut v,
                "incompatible command are received",
            ),
        }
        v
    }

    /// The sentence that describes this error.
    pub fn message(&self) -> (r: String)
        ensures
            r@ == lossy_text(description(*self)),
            valid_utf8(description(*self)) ==> text_bytes(r@) == description(*self),
    {
        let b = self.describe();
        text_from_bytes(b.as_slice())
    }
}

} // verus!
