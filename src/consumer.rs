//! The consuming side of a connection.
use vstd::prelude::*;

use crate::errors::{failure_error, IoFailure, OzesConnectorError, OzesResult};
use crate::frame::{ack_command, ack_frame, subscribe_command, subscribe_frame, text_bytes};
use crate::exchange;
use crate::response::is_ok_reply;
use crate::transport::{receive, Transport, SCRATCH_LEN};

verus! {

/// The settings a consumer is opened with.
pub struct ConsumerBuilder<'s> {
    host: &'s str,
    port: u16,
    queue_name: &'s str,
    group_name: &'s str,
}

impl<'s> ConsumerBuilder<'s> {
    pub closed spec fn host_spec(&self) -> &'s str {
        self.host
    }

    pub closed spec fn port_spec(&self) -> u16 {
        self.port
    }

    pub closed spec fn queue_spec(&self) -> &'s str {
        self.queue_name
    }

    pub closed spec fn group_spec(&self) -> &'s str {
        self.group_name
    }

    pub fn with_host(self, host: &'s str) -> (r: Self)
        ensures
            r.host_spec() == host,
            r.port_spec() == self.port_spec(),
            r.queue_spec() == self.queue_spec(),
            r.group_spec() == self.group_spec(),
    {
        ConsumerBuilder { host, ..self }
    }

    pub fn on_port(self, port: u16) -> (r: Self)
        ensures
            r.port_spec() == port,
            r.host_spec() == self.host_spec(),
            r.queue_spec() == self.queue_spec(),
            r.group_spec() == self.group_spec(),
    {
        ConsumerBuilder { port, ..self }
    }

    pub fn on_queue(self, queue_name: &'s str) -> (r: Self)
        ensures
            r.queue_spec() == queue_name,
            r.host_spec() == self.host_spec(),
            r.port_spec() == self.port_spec(),
            r.group_spec() == self.group_spec(),
    {
        ConsumerBuilder { queue_name, ..self }
    }

    pub fn with_group(self, group_name: &'s str) -> (r: Self)
        ensures
            r.group_spec() == group_name,
            r.host_spec() == self.host_spec(),
            r.port_spec() == self.port_spec(),
            r.queue_spec() == self.queue_spec(),
    {
        ConsumerBuilder { group_name, ..self }
    }

    pub fn host(&self) -> (r: &'s str)
        ensures
            r == self.host_spec(),
    {
        self.host
    }

    pub fn port(&self) -> (r: u16)
        ensures
            r == self.port_spec(),
    {
        self.port
    }

    pub fn queue_name(&self) -> (r: &'s str)
        ensures
            r == self.queue_spec(),
    {
        self.queue_name
    }

    pub fn group_name(&self) -> (r: &'s str)
        ensures
            r == self.group_spec(),
    {
        self.group_name
    }
}

impl<'s> Default for ConsumerBuilder<'s> {
    /// `localhost`, port 7656, queue `local_queue`, group `local_group`.
    fn default() -> (r: Self)
        ensures
            r.host_spec()@ == "localhost"@,
            r.port_spec() == 7656,
            r.queue_spec()@ == "local_queue"@,
            r.group_spec()@ == "local_group"@,
    {
        ConsumerBuilder {
            host: "localhost",
            port: 7656,
            queue_name: "local_queue",
            group_name: "local_group",
        }
    }
}

/// A connection that reads the messages of one queue under one group.
pub struct Consumer<T: Transport> {
    stream: T,
    sent: Ghost<Seq<Seq<u8>>>,
    received: Ghost<Seq<Seq<u8>>>,
}

impl<T: Transport> Consumer<T> {
    /// The commands this connection has handed to its stream, oldest first.
    pub closed spec fn sent(&self) -> Seq<Seq<u8>> {
        self.sent@
    }

    /// What this connection has read from its stream, oldest first.
    pub closed spec fn received(&self) -> Seq<Seq<u8>> {
        self.received@
    }

    pub closed spec fn stream_spec(&self) -> T {
        self.stream
    }

    /// The settings of a consumer, with their defaults.
    pub fn builder<'s>() -> (r: ConsumerBuilder<'s>)
        ensures
            r.host_spec()@ == "localhost"@,
            r.port_spec() == 7656,
            r.queue_spec()@ == "local_queue"@,
            r.group_spec()@ == "local_group"@,
    {
        ConsumerBuilder::default()
    }

    /// Opens a consumer on `stream`: subscribes to the queue of `builder` under its group
    /// and requires an `ok` reply. On success the subscription is the only command sent
    /// and the reply, which begins with `ok`, the only one read. A refused subscription
    /// is `InvalidMessageToServer`; a failed write is mapped by its category.
    pub fn new(stream: T, builder: ConsumerBuilder) -> (r: OzesResult<Self>)
        ensures
            r is Ok ==> r->Ok_0.sent() == seq![
                subscribe_frame(text_bytes(builder.queue_spec()@), text_bytes(builder.group_spec()@)),
            ],
            r is Ok ==> r->Ok_0.received().len() == 1 && is_ok_reply(r->Ok_0.received()[0]),
            r is Err ==> r->Err_0 is InvalidMessageToServer || exists|f: IoFailure|
                r->Err_0 == failure_error(f),
    {
        let mut stream = stream;
        let command = subscribe_command(builder.queue_name, builder.group_name);
        let (result, reply) = exchange(&mut stream, command.as_slice());
        let ghost sent = seq![command@];
        let ghost received = seq![reply@->Some_0];
        match result {
            Ok(()) => Ok(Consumer { stream, sent: Ghost(sent), received: Ghost(received) }),
            Err(e) => Err(e),
        }
    }

    /// Wraps a stream on which the broker has already accepted the subscription.
    pub fn subscribed(stream: T) -> (r: Self)
        ensures
            r.stream_spec() == stream,
            r.sent() == Seq::<Seq<u8>>::empty(),
            r.received() == Seq::<Seq<u8>>::empty(),
    {
        Consumer { stream, sent: Ghost(Seq::empty()), received: Ghost(Seq::empty()) }
    }

    /// The stream the consumer speaks over.
    pub fn stream(&self) -> (r: &T)
        ensures
            *r == self.stream_spec(),
    {
        &self.stream
    }

    /// Reads one message, the bytes of a single read of the stream, and acknowledges it
    /// with `ok +l<n>`, `n` its length. The acknowledgement is the one command sent, and
    /// only after a read that succeeded; a failed read is reported as its error kind. The
    /// message never exceeds the scratch area.
    pub fn read_message(&mut self) -> (r: OzesResult<Vec<u8>>)
        ensures
            r is Ok ==> r->Ok_0@.len() <= SCRATCH_LEN,
            r is Err ==> exists|f: IoFailure| r->Err_0 == failure_error(f),
            r is Ok ==> final(self).received() == old(self).received().push(r->Ok_0@)
                && final(self).sent() == old(self).sent().push(ack_frame(r->Ok_0@.len())),
            final(self).sent() == old(self).sent() ==> final(self).received() == old(self).received(),
            final(self).sent() != old(self).sent() ==> final(self).received().len() == old(self).received().len() + 1
                && final(self).received().drop_last() == old(self).received()
                && final(self).sent() == old(self).sent().push(ack_frame(final(self).received().last().len())),
    {
        match receive(&mut self.stream) {
            Ok(buffer) => {
                self.received = Ghost(self.received@.push(buffer@));
                let ack = ack_command(buffer.len());
                self.sent = Ghost(self.sent@.push(ack@));
                match self.stream.write_all(ack.as_slice()) {
                    Ok(()) => Ok(buffer),
                    Err(e) => Err(OzesConnectorError::from(e)),
                }
            },
            Err(e) => Err(OzesConnectorError::from(e)),
        }
    }
}

} // verus!
