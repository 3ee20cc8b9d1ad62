use bincode::Options;
use combat_protocol::{settle, try_recv, ClientPacket, DecodeFailure, RecvError};
use std::io::{Error, ErrorKind, Read};

/// A stream on which nothing has arrived yet.
struct NothingReady;

impl Read for NothingReady {
    fn read(&mut self, _buf: &mut [u8]) -> std::io::Result<usize> {
        Err(Error::from(ErrorKind::WouldBlock))
    }
}

/// A stream whose connection was reset.
struct Broken;

impl Read for Broken {
    fn read(&mut self, _buf: &mut [u8]) -> std::io::Result<usize> {
        Err(Error::from(ErrorKind::ConnectionReset))
    }
}

type Received<T> = Result<Option<T>, RecvError<bincode::Error>>;

/// The cause and the bytes of an error for bytes that are no message.
fn malformed_parts<T: std::fmt::Debug>(result: Received<T>) -> (bincode::ErrorKind, Vec<u8>) {
    match result {
        Err(RecvError::Malformed(cause, raw)) => (*cause, raw),
        other => panic!("not malformed: {:?}", other),
    }
}

/// The error of the stream in an error for a failed stream.
fn stream_error<T: std::fmt::Debug>(result: Received<T>) -> Error {
    match result {
        Err(RecvError::Io(cause)) => match *cause {
            bincode::ErrorKind::Io(error) => error,
            other => panic!("not an error of the stream: {:?}", other),
        },
        other => panic!("not a failed stream: {:?}", other),
    }
}

#[test]
fn settle_hands_a_message_on() {
    assert_eq!(
        settle::<ClientPacket, ()>(Ok(ClientPacket::Move(7)), vec![0, 0, 0, 0]),
        Ok(Some(ClientPacket::Move(7)))
    );
    assert_eq!(settle::<u64, ()>(Ok(5u64), Vec::new()), Ok(Some(5u64)));
}

#[test]
fn settle_would_block_is_nothing_yet() {
    assert_eq!(
        settle::<ClientPacket, &str>(Err((DecodeFailure::Io(true), "later")), Vec::new()),
        Ok(None)
    );
    assert_eq!(
        settle::<ClientPacket, &str>(Err((DecodeFailure::Io(true), "later")), vec![1, 2, 3]),
        Ok(None)
    );
}

#[test]
fn settle_stream_failure_is_an_error() {
    assert_eq!(
        settle::<ClientPacket, &str>(Err((DecodeFailure::Io(false), "reset")), vec![1, 2, 3]),
        Err(RecvError::Io("reset"))
    );
}

#[test]
fn settle_malformed_keeps_cause_and_bytes() {
    let raw = [9u8, 0, 0, 0];
    let kinds = [
        DecodeFailure::InvalidUtf8Encoding,
        DecodeFailure::InvalidBoolEncoding(9),
        DecodeFailure::InvalidCharEncoding,
        DecodeFailure::InvalidTagEncoding(9),
        DecodeFailure::DeserializeAnyNotSupported,
        DecodeFailure::SizeLimit,
        DecodeFailure::SequenceMustHaveLength,
        DecodeFailure::Custom("no such field".to_string()),
    ];
    for (cause, kind) in kinds.into_iter().enumerate() {
        assert_eq!(
            settle::<ClientPacket, usize>(Err((kind.clone(), cause)), raw.to_vec()),
            Err(RecvError::Malformed(cause, raw.to_vec()))
        );
        assert_eq!(
            settle::<ClientPacket, usize>(Err((kind, cause)), Vec::new()),
            Err(RecvError::Malformed(cause, Vec::new()))
        );
    }
}

#[test]
fn stream_without_data_gives_nothing_yet() {
    let attempt: Result<u32, bincode::Error> = bincode::deserialize_from(NothingReady);
    assert!(matches!(try_recv(attempt, Vec::new()), Ok(None)));
    let attempt = Err(Box::new(bincode::ErrorKind::Io(Error::from(ErrorKind::WouldBlock))));
    assert!(matches!(try_recv::<ClientPacket>(attempt, Vec::new()), Ok(None)));
}

#[test]
fn encoded_disconnect_is_received() {
    let encoded = [3u8, 0, 0, 0];
    let attempt = bincode::deserialize_from::<_, u32>(&encoded[..]).map(|tag| {
        assert_eq!(tag, 3);
        ClientPacket::Disconnect
    });
    assert!(matches!(try_recv(attempt, encoded.to_vec()), Ok(Some(ClientPacket::Disconnect))));
}

#[test]
fn bytes_over_the_size_limit_are_an_error() {
    let encoded = bincode::serialize(&"a message of some length".to_string()).unwrap();
    let attempt: Result<String, bincode::Error> = bincode::DefaultOptions::new()
        .with_fixint_encoding()
        .with_limit(16)
        .deserialize_from(&encoded[..]);
    let (cause, raw) = malformed_parts(try_recv(attempt, encoded.clone()));
    assert!(matches!(cause, bincode::ErrorKind::SizeLimit));
    assert_eq!(raw, encoded);
    // The bytes kept may be fewer than any message has.
    let attempt: Result<u64, bincode::Error> = bincode::DefaultOptions::new()
        .with_fixint_encoding()
        .with_limit(4)
        .deserialize_from(&[1u8, 2][..]);
    let (cause, raw) = malformed_parts(try_recv(attempt, vec![1, 2]));
    assert!(matches!(cause, bincode::ErrorKind::SizeLimit));
    assert_eq!(raw, vec![1, 2]);
    let attempt: Result<u64, bincode::Error> = Err(Box::new(bincode::ErrorKind::SizeLimit));
    let (cause, raw) = malformed_parts(try_recv(attempt, Vec::new()));
    assert!(matches!(cause, bincode::ErrorKind::SizeLimit));
    assert_eq!(raw, Vec::<u8>::new());
}

#[test]
fn broken_stream_is_an_error_that_keeps_its_kind() {
    let attempt: Result<u64, bincode::Error> = bincode::deserialize_from(Broken);
    assert_eq!(stream_error(try_recv(attempt, Vec::new())).kind(), ErrorKind::ConnectionReset);
    // A stream that ends in the middle of a value.
    let attempt: Result<u64, bincode::Error> = bincode::deserialize_from(&[1u8, 2, 3][..]);
    assert_eq!(stream_error(try_recv(attempt, vec![1, 2, 3])).kind(), ErrorKind::UnexpectedEof);
    let attempt: Result<u64, bincode::Error> =
        Err(Box::new(bincode::ErrorKind::Io(Error::from_raw_os_error(5))));
    assert_eq!(stream_error(try_recv(attempt, Vec::new())).raw_os_error(), Some(5));
}

#[test]
fn invalid_fields_are_malformed() {
    let attempt: Result<bool, bincode::Error> = bincode::deserialize_from(&[2u8][..]);
    let (cause, raw) = malformed_parts(try_recv(attempt, vec![2]));
    assert!(matches!(cause, bincode::ErrorKind::InvalidBoolEncoding(2)));
    assert_eq!(raw, vec![2]);
    let attempt: Result<String, bincode::Error> =
        bincode::deserialize_from(&[1u8, 0, 0, 0, 0, 0, 0, 0, 0xff][..]);
    let (cause, raw) = malformed_parts(try_recv(attempt, vec![1, 0, 0, 0, 0, 0, 0, 0, 0xff]));
    assert!(matches!(cause, bincode::ErrorKind::InvalidUtf8Encoding(_)));
    assert_eq!(raw, vec![1, 0, 0, 0, 0, 0, 0, 0, 0xff]);
    let attempt: Result<char, bincode::Error> = bincode::deserialize_from(&[0xffu8][..]);
    let (cause, _) = malformed_parts(try_recv(attempt, vec![0xff]));
    assert!(matches!(cause, bincode::ErrorKind::InvalidCharEncoding));
    let attempt: Result<Option<u8>, bincode::Error> = bincode::deserialize_from(&[7u8, 1][..]);
    let (cause, raw) = malformed_parts(try_recv(attempt, vec![7, 1]));
    assert!(matches!(cause, bincode::ErrorKind::InvalidTagEncoding(7)));
    assert_eq!(raw, vec![7, 1]);
}

#[test]
fn refusals_of_the_decoder_are_malformed() {
    let attempt: Result<serde::de::IgnoredAny, bincode::Error> =
        bincode::deserialize_from(&[0u8][..]);
    let (cause, raw) = malformed_parts(try_recv(attempt, vec![0]));
    match cause {
        bincode::ErrorKind::Custom(text) => {
            assert_eq!(text, "Bincode does not support Deserializer::deserialize_ignored_any")
        }
        other => panic!("not a refusal: {:?}", other),
    }
    assert_eq!(raw, vec![0]);
    let attempt: Result<u8, bincode::Error> =
        Err(Box::new(bincode::ErrorKind::DeserializeAnyNotSupported));
    let (cause, _) = malformed_parts(try_recv(attempt, vec![5]));
    assert!(matches!(cause, bincode::ErrorKind::DeserializeAnyNotSupported));
    let attempt: Result<u8, bincode::Error> =
        Err(Box::new(bincode::ErrorKind::SequenceMustHaveLength));
    let (cause, _) = malformed_parts(try_recv(attempt, vec![5]));
    assert!(matches!(cause, bincode::ErrorKind::SequenceMustHaveLength));
}

#[test]
fn decoded_value_is_received() {
    let encoded = bincode::serialize(&77u64).unwrap();
    let attempt: Result<u64, bincode::Error> = bincode::deserialize_from(&encoded[..]);
    assert!(matches!(try_recv(attempt, encoded), Ok(Some(77))));
}
