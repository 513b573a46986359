//! The publishing side of a connection.
use vstd::prelude::*;

use crate::errors::{failure_error, IoFailure, OzesConnectorError, OzesResult};
use crate::frame::{
    announce_command, announce_frame, binary_command, build_final_message, publish_frame,
    simple_frame, text_bytes, BASE_MESSAGE_LEN,
};
use crate::exchange;
use crate::response::is_ok_reply;
use crate::transport::{receive, Transport, SCRATCH_LEN};

verus! {

/// The settings a publisher is opened with.
pub struct PublisherBuilder<'s> {
    queue_name: &'s str,
    port: u16,
    host: &'s str,
}

impl<'s> PublisherBuilder<'s> {
    pub closed spec fn host_spec(&self) -> &'s str {
        self.host
    }

    pub closed spec fn port_spec(&self) -> u16 {
        self.port
    }

    pub closed spec fn queue_spec(&self) -> &'s str {
        self.queue_name
    }

    pub fn with_host(self, host: &'s str) -> (r: Self)
        ensures
            r.host_spec() == host,
            r.port_spec() == self.port_spec(),
            r.queue_spec() == self.queue_spec(),
    {
        PublisherBuilder { host, ..self }
    }

    pub fn on_queue(self, queue_name: &'s str) -> (r: Self)
        ensures
            r.queue_spec() == queue_name,
            r.host_spec() == self.host_spec(),
            r.port_spec() == self.port_spec(),
    {
        PublisherBuilder { queue_name, ..self }
    }

    pub fn with_port(self, port: u16) -> (r: Self)
        ensures
            r.port_spec() == port,
            r.host_spec() == self.host_spec(),
            r.queue_spec() == self.queue_spec(),
    {
        PublisherBuilder { port, ..self }
    }

    pub fn host(&self) -> (r: &'s str)
        ensures
            r == self.host_spec(),
    {
        self.host
    }

    pub fn port(&self) -> (r: u16)
        ensures
            r == self.port_spec(),
    {
        self.port
    }

    pub fn queue_name(&self) -> (r: &'s str)
        ensures
            r == self.queue_spec(),
    {
        self.queue_name
    }
}

impl<'s> Default for PublisherBuilder<'s> {
    /// `localhost`, port 7656, queue `local_queue`.
    fn default() -> (r: Self)
        ensures
            r.host_spec()@ == "localhost"@,
            r.port_spec() == 7656,
            r.queue_spec()@ == "local_queue"@,
    {
        PublisherBuilder { queue_name: "local_queue", port: 7656, host: "localhost" }
    }
}

/// A connection that publishes into one queue.
pub struct Publisher<T: Transport> {
    stream: T,
    sent: Ghost<Seq<Seq<u8>>>,
    received: Ghost<Seq<Seq<u8>>>,
}

impl<T: Transport> Publisher<T> {
    /// The commands this connection has handed to its stream, oldest first.
    pub closed spec fn sent(&self) -> Seq<Seq<u8>> {
        self.sent@
    }

    /// The replies this connection has read from its stream, oldest first.
    pub closed spec fn received(&self) -> Seq<Seq<u8>> {
        self.received@
    }

    /// The settings of a publisher, with their defaults.
    pub fn builder<'s>() -> (r: PublisherBuilder<'s>)
        ensures
            r.host_spec()@ == "localhost"@,
            r.port_spec() == 7656,
            r.queue_spec()@ == "local_queue"@,
    {
        PublisherBuilder::default()
    }

    /// Opens a publisher on `stream`: announces the queue of `builder` and requires an
    /// `ok` reply. On success the announcement is the only command sent and the reply,
    /// which begins with `ok`, the only one read. A refused announcement is
    /// `InvalidMessageToServer`; a failed write is mapped by its category.
    pub fn new(stream: T, builder: PublisherBuilder) -> (r: OzesResult<Self>)
        ensures
            r is Ok ==> r->Ok_0.sent() == seq![announce_frame(text_bytes(builder.queue_spec()@))],
            r is Ok ==> r->Ok_0.received().len() == 1 && is_ok_reply(r->Ok_0.received()[0]),
            r is Err ==> r->Err_0 is InvalidMessageToServer || exists|f: IoFailure|
                r->Err_0 == failure_error(f),
    {
        let mut stream = stream;
        let command = announce_command(builder.queue_name);
        let (result, reply) = exchange(&mut stream, command.as_slice());
        let ghost sent = seq![command@];
        let ghost received = seq![reply@->Some_0];
        match result {
            Ok(()) => Ok(Publisher { stream, sent: Ghost(sent), received: Ghost(received) }),
            Err(e) => Err(e),
        }
    }

    /// Wraps a stream on which the broker has already accepted the announcement.
    pub fn announced(stream: T) -> (r: Self)
        ensures
            r.stream_spec() == stream,
            r.sent() == Seq::<Seq<u8>>::empty(),
            r.received() == Seq::<Seq<u8>>::empty(),
    {
        Publisher { stream, sent: Ghost(Seq::empty()), received: Ghost(Seq::empty()) }
    }

    pub closed spec fn stream_spec(&self) -> T {
        self.stream
    }

    /// The stream the publisher speaks over.
    pub fn stream(&self) -> (r: &T)
        ensures
            *r == self.stream_spec(),
    {
        &self.stream
    }

    /// Publishes `message` with the length-prefixed command, then reads the reply. Exactly
    /// one command is sent and at most one reply is read; success means that the reply
    /// begins with `ok`. A rejection is `InvalidMessageToServer` carrying the reply.
    pub fn send_message(&mut self, message: &[u8]) -> (r: OzesResult<()>)
        requires
            message@.len() + BASE_MESSAGE_LEN + 21 <= usize::MAX,
        ensures
            final(self).sent() == old(self).sent().push(publish_frame(message@)),
            final(self).received() == old(self).received() || (final(self).received().len()
                == old(self).received().len() + 1 && final(self).received().drop_last()
                == old(self).received() && final(self).received().last().len() <= SCRATCH_LEN),
            r is Ok ==> final(self).received().len() == old(self).received().len() + 1
                && is_ok_reply(final(self).received().last()),
            r is Err && final(self).received().len() > old(self).received().len() ==> !is_ok_reply(
                final(self).received().last(),
            ) && r->Err_0 is InvalidMessageToServer && r->Err_0->InvalidMessageToServer_0@
                == final(self).received().last(),
            r is Err ==> r->Err_0 is InvalidMessageToServer || exists|f: IoFailure|
                r->Err_0 == failure_error(f),
    {
        let vec = build_final_message(message);
        self.sent = Ghost(self.sent@.push(vec@));
        let (result, reply) = exchange(&mut self.stream, vec.as_slice());
        self.received = Ghost(
            if reply@ is Some {
                self.received@.push(reply@->Some_0)
            } else {
                self.received@
            },
        );
        result
    }

    /// Publishes `message` with the command that declares no length, then reads and
    /// drops the reply: what the broker answers does not decide the result, which is
    /// success exactly when the write and the read both went through.
    pub fn send_binary(&mut self, message: &[u8]) -> (r: OzesResult<()>)
        ensures
            final(self).sent() == old(self).sent().push(simple_frame(message@)),
            r is Ok <==> final(self).received().len() == old(self).received().len() + 1,
            final(self).received() == old(self).received() || (final(self).received().len()
                == old(self).received().len() + 1 && final(self).received().drop_last()
                == old(self).received() && final(self).received().last().len() <= SCRATCH_LEN),
            r is Err ==> exists|f: IoFailure| r->Err_0 == failure_error(f),
    {
        let vec = binary_command(message);
        self.sent = Ghost(self.sent@.push(vec@));
        if let Err(e) = self.stream.write_all(vec.as_slice()) {
            return Err(OzesConnectorError::from(e));
        }
        match receive(&mut self.stream) {
            Ok(b) => {
                self.received = Ghost(self.received@.push(b@));
                Ok(())
            },
            Err(e) => Err(OzesConnectorError::from(e)),
        }
    }
}

} // verus!
