use bukubrow::native_messaging::{
    read_input, read_length, write_output, NativeMessagingError, ONE_MEGABYTE_BYTES,
};
use serde_json::Value;

fn obj(members: Vec<(&str, Value)>) -> Value {
    let mut m = serde_json::Map::new();
    for (k, v) in members {
        m.insert(k.to_string(), v);
    }
    Value::Object(m)
}

/// Returns a matching pair of a JSON value and its native messaging-encoded
/// representation.
fn encoded_pair() -> (Value, Vec<u8>) {
    let json = obj(vec![(
        "property",
        obj(vec![("subproperty", Value::String("value".to_string()))]),
    )]);
    let message = vec![
        36, 0, 0, 0, 123, 34, 112, 114, 111, 112, 101, 114, 116, 121, 34, 58, 123, 34, 115, 117,
        98, 112, 114, 111, 112, 101, 114, 116, 121, 34, 58, 34, 118, 97, 108, 117, 101, 34, 125,
        125,
    ];
    (json, message)
}

#[test]
fn test_reader() {
    let (json, msg) = encoded_pair();
    let body = read_input(msg.as_slice()).unwrap();
    let read: Value = serde_json::from_slice(&body).unwrap();

    assert_eq!(read, json);
}

#[test]
fn test_writer() {
    let (json, msg) = encoded_pair();
    let written = write_output(&serde_json::to_vec(&json).unwrap()).unwrap();

    assert_eq!(written, msg);
}

#[test]
fn frame_round_trip_keeps_body_and_ignores_what_follows() {
    let body = b"{\"method\":\"GET\"}".to_vec();
    let mut stream = write_output(&body).unwrap();
    assert_eq!(stream.len(), body.len() + 4);
    stream.extend_from_slice(&[7, 0, 0, 0, 1]);
    assert_eq!(read_input(&stream).unwrap(), body);
}

#[test]
fn empty_body_round_trips() {
    let frame = write_output(&[]).unwrap();
    assert_eq!(frame, vec![0, 0, 0, 0]);
    assert_eq!(read_input(&frame).unwrap(), Vec::<u8>::new());
}

#[test]
fn oversized_message_is_refused() {
    let body = vec![b'a'; ONE_MEGABYTE_BYTES + 1];
    assert_eq!(
        write_output(&body),
        Err(NativeMessagingError::MessageTooLarge(1_048_577))
    );
}

#[test]
fn message_at_the_limit_is_framed() {
    let body = vec![b'a'; ONE_MEGABYTE_BYTES];
    let frame = write_output(&body).unwrap();
    assert_eq!(frame.len(), 1_048_580);
    assert_eq!(&frame[..4], &1_048_576u32.to_ne_bytes());
    assert_eq!(read_input(&frame).unwrap().len(), ONE_MEGABYTE_BYTES);
}

#[test]
fn empty_input_is_end_of_stream() {
    assert_eq!(read_input(&[]), Err(NativeMessagingError::NoMoreInput));
    assert_eq!(read_length(&[]), Err(NativeMessagingError::NoMoreInput));
}

#[test]
fn cut_length_is_a_failure() {
    assert_eq!(read_input(&[5, 0]), Err(NativeMessagingError::UnknownFailure));
    assert_eq!(read_length(&[5, 0, 0]), Err(NativeMessagingError::UnknownFailure));
}

#[test]
fn cut_body_is_a_failure() {
    let mut frame = write_output(b"abcdef").unwrap();
    frame.truncate(8);
    assert_eq!(read_input(&frame), Err(NativeMessagingError::UnknownFailure));
}

#[test]
fn length_is_read_in_native_order() {
    assert_eq!(read_length(&258u32.to_ne_bytes()), Ok(258));
    assert_eq!(read_length(&[1, 2, 3, 4, 5]), Ok(u32::from_ne_bytes([1, 2, 3, 4])));
}
