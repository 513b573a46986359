//! A client for a message-queue broker that speaks a length-prefixed command protocol:
//! publishers send messages into a queue, consumers read them under a group and
//! acknowledge each by its length.
use vstd::prelude::*;

pub mod consumer;
pub mod errors;
pub mod frame;
pub mod publisher;
pub mod response;
pub mod transport;

pub use frame::number_len;

use crate::errors::{failure_error, IoFailure, OzesConnectorError, OzesResult};
use crate::response::{is_ok_reply, parse_reply};
use crate::transport::{receive, Transport, SCRATCH_LEN};

verus! {

/// How the result of an exchange relates to the reply that was read, if one was: success
/// exactly on a reply that begins with `ok`, and otherwise `InvalidMessageToServer`
/// carrying that reply.
pub open spec fn settled_by(r: OzesResult<()>, reply: Option<Seq<u8>>) -> bool {
    match reply {
        Some(b) => {
            &&& b.len() <= SCRATCH_LEN
            &&& (r is Ok <==> is_ok_reply(b))
            &&& r is Err ==> r->Err_0 is InvalidMessageToServer && r->Err_0->InvalidMessageToServer_0@ == b
        },
        None => r is Err,
    }
}

/// Reads the reply to the last command and classifies it; also gives back, as a ghost
/// value, the bytes that were read, if the read succeeded.
fn read_reply<T: Transport>(stream: &mut T) -> (r: (OzesResult<()>, Ghost<Option<Seq<u8>>>))
    ensures
        settled_by(r.0, r.1@),
        r.0 is Err ==> r.0->Err_0 is InvalidMessageToServer,
{
    let reply = receive(stream);
    let ghost got = if reply is Ok {
        Some(reply->Ok_0@)
    } else {
        None::<Seq<u8>>
    };
    (parse_reply(reply), Ghost(got))
}

/// One request/response exchange: writes `command`, then reads and classifies the reply.
/// A failed write is mapped by its category and reads nothing; a failed read is
/// `InvalidMessageToServer` with the failure's description.
pub(crate) fn exchange<T: Transport>(stream: &mut T, command: &[u8]) -> (r: (
    OzesResult<()>,
    Ghost<Option<Seq<u8>>>,
))
    ensures
        settled_by(r.0, r.1@),
        r.0 is Err ==> r.0->Err_0 is InvalidMessageToServer || exists|f: IoFailure|
            r.0->Err_0 == failure_error(f),
{
    match stream.write_all(command) {
        Ok(()) => read_reply(stream),
        Err(e) => (Err(OzesConnectorError::from(e)), Ghost(None)),
    }
}

/// Reads the broker's reply to the last command and turns it into the exchange's result:
/// success only on a reply that begins with `ok`; otherwise `InvalidMessageToServer`.
pub fn unwrap_return<T: Transport>(stream: &mut T) -> (r: OzesResult<()>)
    ensures
        r is Err ==> r->Err_0 is InvalidMessageToServer,
{
    read_reply(stream).0
}

} // verus!
