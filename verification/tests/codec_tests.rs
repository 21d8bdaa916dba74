use elgamal_bridge::codec::{decode_bytes, encode_bytes, DecodeError};
use elgamal_bridge::interchange::Value;

fn byte_sequence(bytes: &[u8]) -> Value {
    Value::Sequence(bytes.iter().map(|b| Value::Number(*b as u64)).collect())
}

#[test]
fn encode_is_a_number_sequence_in_index_order() {
    let bytes: Vec<u8> = vec![1, 2, 3];
    let v = encode_bytes(&bytes);
    match v {
        Value::Sequence(elems) => {
            assert_eq!(elems.len(), 3);
            for (i, e) in elems.iter().enumerate() {
                match e {
                    Value::Number(x) => assert_eq!(*x, bytes[i] as u64),
                    _ => panic!("element {} is not a number", i),
                }
            }
        },
        _ => panic!("encoding is not a sequence"),
    }
}

#[test]
fn round_trip_of_64_bytes() {
    let bytes: Vec<u8> = (0u8..64).collect();
    let v = encode_bytes(&bytes);
    assert_eq!(decode_bytes(&v, 64), Ok(bytes));
}

#[test]
fn round_trip_of_zero_bytes() {
    let bytes: Vec<u8> = vec![0u8; 64];
    let v = encode_bytes(&bytes);
    assert_eq!(decode_bytes(&v, 64), Ok(bytes));
}

#[test]
fn sequence_of_63_fails_with_length_mismatch() {
    let v = byte_sequence(&[5u8; 63]);
    assert_eq!(
        decode_bytes(&v, 64),
        Err(DecodeError::LengthMismatch { expected: 64, index: 63 })
    );
}

#[test]
fn sequence_of_65_fails_with_length_mismatch() {
    let v = byte_sequence(&[5u8; 65]);
    assert_eq!(
        decode_bytes(&v, 64),
        Err(DecodeError::LengthMismatch { expected: 64, index: 64 })
    );
}

#[test]
fn empty_sequence_fails_at_index_zero() {
    let v = Value::Sequence(vec![]);
    assert_eq!(
        decode_bytes(&v, 64),
        Err(DecodeError::LengthMismatch { expected: 64, index: 0 })
    );
}

#[test]
fn non_sequence_fails_with_type_mismatch() {
    let v = Value::Text(String::from("not bytes"));
    assert_eq!(decode_bytes(&v, 64), Err(DecodeError::TypeMismatch));
    let v = Value::Number(7);
    assert_eq!(decode_bytes(&v, 64), Err(DecodeError::TypeMismatch));
}

#[test]
fn oversized_number_element_fails_with_type_mismatch() {
    let mut elems: Vec<Value> = (0u8..63).map(|b| Value::Number(b as u64)).collect();
    elems.push(Value::Number(256));
    let v = Value::Sequence(elems);
    assert_eq!(decode_bytes(&v, 64), Err(DecodeError::TypeMismatch));
}

#[test]
fn non_number_element_fails_with_type_mismatch() {
    let mut elems: Vec<Value> = (0u8..64).map(|b| Value::Number(b as u64)).collect();
    elems[10] = Value::Text(String::from("ten"));
    let v = Value::Sequence(elems);
    assert_eq!(decode_bytes(&v, 64), Err(DecodeError::TypeMismatch));
}

#[test]
fn type_fault_in_short_input_is_reported_as_type_mismatch() {
    let elems = vec![Value::Number(1), Value::Text(String::from("x"))];
    let v = Value::Sequence(elems);
    assert_eq!(decode_bytes(&v, 64), Err(DecodeError::TypeMismatch));
}

#[test]
fn decode_never_pads_or_truncates() {
    let bytes: Vec<u8> = (0u8..32).collect();
    let v = encode_bytes(&bytes);
    assert!(decode_bytes(&v, 64).is_err());
    assert!(decode_bytes(&v, 16).is_err());
    assert_eq!(decode_bytes(&v, 32), Ok(bytes));
}
