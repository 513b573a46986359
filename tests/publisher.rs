use ozes_connector::errors::{FailureKind, IoFailure, OzesConnectorError};
use ozes_connector::publisher::Publisher;
use ozes_connector::transport::Transport;
use ozes_connector::unwrap_return;

#[derive(Default)]
struct MockTcpStream {
    write_data: Vec<u8>,
    read_data: Vec<u8>,
    read_failure: Option<FailureKind>,
    write_failure: Option<FailureKind>,
}

impl Transport for MockTcpStream {
    fn read(&mut self, buf: &mut Vec<u8>) -> Result<usize, IoFailure> {
        if let Some(kind) = self.read_failure {
            return Err(IoFailure {
                kind,
                description: "broken".to_string(),
            });
        }
        let read_len = self.read_data.len();
        for i in 0..read_len {
            buf[i] = self.read_data[i];
        }
        Ok(read_len)
    }

    fn write_all(&mut self, data: &[u8]) -> Result<(), IoFailure> {
        if let Some(kind) = self.write_failure {
            return Err(IoFailure {
                kind,
                description: "cannot write".to_string(),
            });
        }
        self.write_data.extend(data.iter());
        Ok(())
    }
}

#[test]
fn test_send_message() {
    let ok_message = b"ok message";
    let mut read_data = Vec::with_capacity(ok_message.len());
    read_data.extend_from_slice(ok_message);
    let mock_tcpstream = MockTcpStream {
        read_data,
        write_data: vec![],
        ..Default::default()
    };
    let mut publisher = Publisher::announced(mock_tcpstream);
    publisher.send_message(b"hello test").unwrap();
    assert_eq!(&publisher.stream().write_data, b"message +l24 #hello test")
}

#[test]
fn send_message_rejected_carries_the_reply() {
    let mock = MockTcpStream {
        read_data: b"uou message".to_vec(),
        ..Default::default()
    };
    let mut publisher = Publisher::announced(mock);
    assert_eq!(
        publisher.send_message(b"x"),
        Err(OzesConnectorError::InvalidMessageToServer(b"uou message".to_vec()))
    );
}

#[test]
fn send_message_accepts_any_ok_prefix() {
    let mock = MockTcpStream {
        read_data: b"okay-ish-garbage".to_vec(),
        ..Default::default()
    };
    let mut publisher = Publisher::announced(mock);
    assert_eq!(publisher.send_message(b"x"), Ok(()));
    assert_eq!(publisher.stream().write_data, b"message +l15 #x".to_vec());
}

#[test]
fn send_message_write_failure_is_mapped() {
    let mock = MockTcpStream {
        read_data: b"ok".to_vec(),
        write_failure: Some(FailureKind::BrokenPipe),
        ..Default::default()
    };
    let mut publisher = Publisher::announced(mock);
    assert_eq!(
        publisher.send_message(b"x"),
        Err(OzesConnectorError::WithouConnection)
    );
}

#[test]
fn send_binary_ignores_the_reply() {
    let mock = MockTcpStream {
        read_data: b"uou".to_vec(),
        ..Default::default()
    };
    let mut publisher = Publisher::announced(mock);
    assert_eq!(publisher.send_binary(b"foo"), Ok(()));
    assert_eq!(publisher.stream().write_data, b"message #foo".to_vec());
}

#[test]
fn publisher_announces_its_queue() {
    let mock = MockTcpStream {
        read_data: b"ok".to_vec(),
        ..Default::default()
    };
    let builder = Publisher::<MockTcpStream>::builder().on_queue("foo");
    let publisher = Publisher::new(mock, builder).unwrap();
    assert_eq!(publisher.stream().write_data, b"PUBLISHER foo;".to_vec());
}

#[test]
fn publisher_is_refused_without_ok() {
    let mock = MockTcpStream {
        read_data: b"uou".to_vec(),
        ..Default::default()
    };
    match Publisher::new(mock, Publisher::<MockTcpStream>::builder()) {
        Err(e) => assert_eq!(e, OzesConnectorError::InvalidMessageToServer(b"uou".to_vec())),
        Ok(_) => panic!("a publisher was opened without an ok reply"),
    }
}

#[test]
fn publisher_handshake_write_failure_is_mapped() {
    let mock = MockTcpStream {
        write_failure: Some(FailureKind::ConnectionRefused),
        ..Default::default()
    };
    match Publisher::new(mock, Publisher::<MockTcpStream>::builder()) {
        Err(e) => assert_eq!(e, OzesConnectorError::Refused),
        Ok(_) => panic!("a publisher was opened after a failed write"),
    }
}

#[test]
fn publisher_builder_defaults_and_setters() {
    let b = Publisher::<MockTcpStream>::builder();
    assert_eq!(b.host(), "localhost");
    assert_eq!(b.port(), 7656);
    assert_eq!(b.queue_name(), "local_queue");
    let b = b.with_host("broker").with_port(1).on_queue("q");
    assert_eq!(b.host(), "broker");
    assert_eq!(b.port(), 1);
    assert_eq!(b.queue_name(), "q");
}

#[test]
fn unwrap_return_classifies_the_reply() {
    let mut ok = MockTcpStream {
        read_data: b"ok message".to_vec(),
        ..Default::default()
    };
    assert_eq!(unwrap_return(&mut ok), Ok(()));
    let mut bad = MockTcpStream {
        read_data: b"uou message".to_vec(),
        ..Default::default()
    };
    assert_eq!(
        unwrap_return(&mut bad),
        Err(OzesConnectorError::InvalidMessageToServer(b"uou message".to_vec()))
    );
    let mut failing = MockTcpStream {
        read_failure: Some(FailureKind::Other),
        ..Default::default()
    };
    assert_eq!(
        unwrap_return(&mut failing),
        Err(OzesConnectorError::InvalidMessageToServer(b"broken".to_vec()))
    );
}

#[test]
fn send_binary_read_failure_is_mapped() {
    let mock = MockTcpStream {
        read_failure: Some(FailureKind::PermissionDenied),
        ..Default::default()
    };
    let mut publisher = Publisher::announced(mock);
    assert_eq!(
        publisher.send_binary(b"foo"),
        Err(OzesConnectorError::PermissionDenied)
    );
    assert_eq!(publisher.stream().write_data, b"message #foo".to_vec());
}
