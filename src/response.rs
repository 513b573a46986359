//! Classification of what the broker answers.
use vstd::prelude::*;

use crate::errors::{IoFailure, OzesConnectorError, OzesResult};
use crate::frame::{append_bytes, text_bytes};

verus! {

/// A reply counts as success when it begins with the two bytes `ok`; nothing after them
/// is looked at.
pub open spec fn is_ok_reply(reply: Seq<u8>) -> bool {
    reply.len() >= 2 && reply[0] == 111u8 && reply[1] == 107u8
}

/// The classified result of one request/response exchange.
#[derive(Debug, PartialEq, Eq)]
pub enum Outcome {
    Accepted,
    /// A rejection, carrying the broker's raw reply.
    Rejected(Vec<u8>),
}

/// Classifies a reply: success when it begins with `ok`, otherwise a rejection that
/// carries the reply unchanged.
pub fn classify(reply: Vec<u8>) -> (r: Outcome)
    ensures
        is_ok_reply(reply@) ==> r == Outcome::Accepted,
        !is_ok_reply(reply@) ==> r == Outcome::Rejected(reply),
{
    if reply.len() >= 2 && reply[0] == 111u8 && reply[1] == 107u8 {
        Outcome::Accepted
    } else {
        Outcome::Rejected(reply)
    }
}

/// The result of an exchange whose reply was read as `reply`.
pub open spec fn reply_result(reply: Vec<u8>) -> OzesResult<()> {
    if is_ok_reply(reply@) {
        Ok(())
    } else {
        Err(OzesConnectorError::InvalidMessageToServer(reply))
    }
}

/// Turns the result of reading a reply into the result of the exchange: an `ok` reply is
/// success; any other reply is `InvalidMessageToServer` with the reply; a failed read is
/// `InvalidMessageToServer` with the failure's description.
pub fn parse_reply(reply: Result<Vec<u8>, IoFailure>) -> (r: OzesResult<()>)
    ensures
        reply is Ok ==> r == reply_result(reply->Ok_0),
        reply is Err ==> r is Err && r->Err_0 is InvalidMessageToServer
            && r->Err_0->InvalidMessageToServer_0@ == text_bytes(reply->Err_0.description@),
{
    match reply {
        Ok(buffer) => match classify(buffer) {
            Outcome::Accepted => Ok(()),
            Outcome::Rejected(message) => Err(OzesConnectorError::InvalidMessageToServer(message)),
        },
        Err(e) => {
            let mut buffer: Vec<u8> = Vec::new();
            append_bytes(&mut buffer, e.description.as_str().as_bytes());
            Err(OzesConnectorError::InvalidMessageToServer(buffer))
        },
    }
}

/// Any reply that begins with `ok` is success, and any other reply is a rejection that
/// carries exactly that reply.
pub proof fn lemma_classification(reply: Vec<u8>)
    ensures
        is_ok_reply(reply@) ==> reply_result(reply) is Ok,
        !is_ok_reply(reply@) ==> reply_result(reply) == Err::<(), OzesConnectorError>(
            OzesConnectorError::InvalidMessageToServer(reply),
        ),
{
}

} // verus!
