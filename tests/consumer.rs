use ozes_connector::consumer::Consumer;
use ozes_connector::errors::{FailureKind, IoFailure, OzesConnectorError};
use ozes_connector::transport::Transport;

#[derive(Default)]
struct MockTcpStream {
    write_data: Vec<u8>,
    write_calls: usize,
    read_data: Vec<u8>,
    read_failure: Option<FailureKind>,
}

impl Transport for MockTcpStream {
    fn read(&mut self, buf: &mut Vec<u8>) -> Result<usize, IoFailure> {
        if let Some(kind) = self.read_failure {
            return Err(IoFailure {
                kind,
                description: "read failed".to_string(),
            });
        }
        let read_len = self.read_data.len().min(buf.len());
        for i in 0..read_len {
            buf[i] = self.read_data[i];
        }
        Ok(read_len)
    }

    fn write_all(&mut self, data: &[u8]) -> Result<(), IoFailure> {
        self.write_calls += 1;
        self.write_data.extend(data.iter());
        Ok(())
    }
}

#[test]
fn test_read_message() {
    let ok_message = b"uou message";
    let mut read_data = Vec::with_capacity(ok_message.len());
    read_data.extend_from_slice(ok_message);
    let mock_tcpstream = MockTcpStream {
        write_calls: 0,
        read_data,
        write_data: vec![],
        read_failure: None,
    };
    let mut consumer = Consumer::subscribed(mock_tcpstream);
    consumer.read_message().unwrap();
    assert_eq!(
        &consumer.stream().write_data, b"ok +l11",
        "expected write ok message"
    );
    assert_eq!(
        &consumer.stream().read_data, b"uou message",
        "expected read \"uou message\""
    );
    assert_eq!(
        consumer.stream().write_calls, 1,
        "expected only one call to write"
    );
}

#[test]
fn read_message_returns_the_payload_and_acknowledges_its_length() {
    let mock = MockTcpStream {
        read_data: b"hello".to_vec(),
        ..Default::default()
    };
    let mut consumer = Consumer::subscribed(mock);
    let payload = consumer.read_message().unwrap();
    assert_eq!(payload, b"hello".to_vec());
    assert_eq!(consumer.stream().write_data, b"ok +l5".to_vec());
    assert_eq!(consumer.stream().write_calls, 1);
}

#[test]
fn read_message_of_nothing_acknowledges_zero() {
    let mut consumer = Consumer::subscribed(MockTcpStream::default());
    let payload = consumer.read_message().unwrap();
    assert!(payload.is_empty());
    assert_eq!(consumer.stream().write_data, b"ok +l0".to_vec());
}

#[test]
fn read_failure_is_mapped_and_not_acknowledged() {
    let mock = MockTcpStream {
        read_failure: Some(FailureKind::ConnectionReset),
        ..Default::default()
    };
    let mut consumer = Consumer::subscribed(mock);
    assert_eq!(consumer.read_message(), Err(OzesConnectorError::Reseted));
    assert_eq!(consumer.stream().write_calls, 0);
}

#[test]
fn consumer_subscribes_with_its_group() {
    let mock = MockTcpStream {
        read_data: b"ok".to_vec(),
        ..Default::default()
    };
    let builder = Consumer::<MockTcpStream>::builder()
        .on_queue("orders")
        .with_group("billing");
    let consumer = Consumer::new(mock, builder).unwrap();
    assert_eq!(
        consumer.stream().write_data,
        b"subscribe orders with group billing".to_vec()
    );
    assert_eq!(consumer.stream().write_calls, 1);
}

#[test]
fn consumer_is_refused_without_ok() {
    let mock = MockTcpStream {
        read_data: b"no such queue".to_vec(),
        ..Default::default()
    };
    let builder = Consumer::<MockTcpStream>::builder();
    match Consumer::new(mock, builder) {
        Err(e) => assert_eq!(
            e,
            OzesConnectorError::InvalidMessageToServer(b"no such queue".to_vec())
        ),
        Ok(_) => panic!("a consumer was opened without an ok reply"),
    }
}

#[test]
fn consumer_handshake_read_failure_carries_the_description() {
    let mock = MockTcpStream {
        read_failure: Some(FailureKind::TimedOut),
        ..Default::default()
    };
    match Consumer::new(mock, Consumer::<MockTcpStream>::builder()) {
        Err(e) => assert_eq!(
            e,
            OzesConnectorError::InvalidMessageToServer(b"read failed".to_vec())
        ),
        Ok(_) => panic!("a consumer was opened after a failed read"),
    }
}

#[test]
fn consumer_builder_defaults_and_setters() {
    let b = Consumer::<MockTcpStream>::builder();
    assert_eq!(b.host(), "localhost");
    assert_eq!(b.port(), 7656);
    assert_eq!(b.queue_name(), "local_queue");
    assert_eq!(b.group_name(), "local_group");
    let b = b.with_host("broker").on_port(9000).on_queue("q").with_group("g");
    assert_eq!(b.host(), "broker");
    assert_eq!(b.port(), 9000);
    assert_eq!(b.queue_name(), "q");
    assert_eq!(b.group_name(), "g");
}

#[test]
fn read_message_takes_at_most_one_scratch_area() {
    let mock = MockTcpStream {
        read_data: vec![b'z'; 5000],
        ..Default::default()
    };
    let mut consumer = Consumer::subscribed(mock);
    let payload = consumer.read_message().unwrap();
    assert_eq!(payload.len(), 4096);
    assert_eq!(consumer.stream().write_data, b"ok +l4096".to_vec());
}
