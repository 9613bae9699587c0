use bytes::Bytes;
use captured::{Captured, DecodeError, Mode, Values};

/// Reads one INTEGER with a one-octet length from the front of `b`,
/// returning how many bytes it took and the value.
fn read_int(b: &[u8]) -> (usize, Result<u64, DecodeError>) {
    if b.len() < 2 || b[0] != 0x02 {
        return (0, Err(DecodeError::Malformed));
    }
    let len = b[1] as usize;
    if len > 8 {
        return (0, Err(DecodeError::Unimplemented));
    }
    if b.len() < 2 + len {
        return (0, Err(DecodeError::Malformed));
    }
    let mut v: u64 = 0;
    for &x in &b[2..2 + len] {
        v = (v << 8) | x as u64;
    }
    (2 + len, Ok(v))
}

#[test]
fn encoded_len_counts_the_captured_bytes() {
    assert_eq!(Captured::empty().encoded_len(Mode::Ber), 0);
    assert_eq!(captured_of(&[1, 2, 3], Mode::Cer).encoded_len(Mode::Cer), 3);
}

#[test]
fn vec_sink_appends() {
    let mut sink = vec![0x30u8];
    captured_of(&[0x02, 0x01, 0x00], Mode::Ber).write_encoded(Mode::Ber, &mut sink).unwrap();
    captured_of(&[0x05, 0x00], Mode::Ber).write_encoded(Mode::Ber, &mut sink).unwrap();
    assert_eq!(sink, vec![0x30, 0x02, 0x01, 0x00, 0x05, 0x00]);
}

fn captured_of(bytes: &[u8], mode: Mode) -> Captured {
    Captured::new(Bytes::from(bytes.to_vec()), mode)
}

#[test]
fn new_then_into_bytes_gives_the_bytes_back() {
    for mode in [Mode::Ber, Mode::Cer, Mode::Der] {
        let b = Bytes::from(vec![0x30u8, 0x03, 0x02, 0x01, 0x05]);
        let c = Captured::new(b.clone(), mode);
        assert_eq!(c.into_bytes(), b);
    }
    let c = Captured::new(Bytes::new(), Mode::Der);
    assert!(c.into_bytes().is_empty());
}

#[test]
fn empty_is_zero_length_and_ber() {
    let c = Captured::empty();
    assert_eq!(c.as_slice().len(), 0);
    assert_eq!(c.mode(), Mode::Ber);
    assert!(c.into_bytes().is_empty());
}

#[test]
fn new_keeps_the_mode() {
    assert_eq!(captured_of(&[1, 2], Mode::Cer).mode(), Mode::Cer);
    assert_eq!(captured_of(&[1, 2], Mode::Der).mode(), Mode::Der);
}

#[test]
fn extend_appends_the_encoding() {
    let mut c = captured_of(&[0x05, 0x00], Mode::Der);
    c.extend(captured_of(&[0x02, 0x01, 0x07], Mode::Der));
    assert_eq!(c.as_slice(), &[0x05, 0x00, 0x02, 0x01, 0x07]);
    assert_eq!(c.mode(), Mode::Der);
    c.extend(captured_of(&[0x02, 0x01, 0x09], Mode::Der));
    assert_eq!(
        c.into_bytes(),
        Bytes::from(vec![0x05u8, 0x00, 0x02, 0x01, 0x07, 0x02, 0x01, 0x09])
    );
}

#[test]
fn extend_by_another_capture_copies_it() {
    let mut c = Captured::empty();
    let other = captured_of(&[0x01, 0x01, 0xff], Mode::Der);
    c.extend(other.clone());
    assert_eq!(c.as_slice(), &[0x01, 0x01, 0xff]);
    assert_eq!(c.mode(), Mode::Ber);
    assert_eq!(other.as_slice(), &[0x01, 0x01, 0xff]);
}

#[test]
fn der_capture_reemits_under_der_and_ber() {
    let bytes = [0x02u8, 0x02, 0x01, 0x00];
    let c = captured_of(&bytes, Mode::Der);
    let mut der = Vec::new();
    assert_eq!(c.write_encoded(Mode::Der, &mut der), Ok(()));
    let mut ber = Vec::new();
    assert_eq!(c.write_encoded(Mode::Ber, &mut ber), Ok(()));
    assert_eq!(der, bytes.to_vec());
    assert_eq!(ber, bytes.to_vec());
    assert_eq!(c.encoded_len(Mode::Der), 4);
    assert_eq!(c.encoded_len(Mode::Ber), 4);
}

#[test]
fn der_capture_is_not_for_cer() {
    let c = captured_of(&[0x02, 0x01, 0x05], Mode::Der);
    assert!(!c.mode().is_embeddable_into(Mode::Cer));
    assert!(c.mode().is_embeddable_into(Mode::Der));
    assert!(c.mode().is_embeddable_into(Mode::Ber));
}

#[test]
fn ber_capture_is_only_for_ber() {
    let c = captured_of(&[0x02, 0x01, 0x00], Mode::Ber);
    assert!(!c.mode().is_embeddable_into(Mode::Der));
    assert!(!c.mode().is_embeddable_into(Mode::Cer));
    let mut sink = Vec::new();
    assert_eq!(c.write_encoded(Mode::Ber, &mut sink), Ok(()));
    assert_eq!(sink, vec![0x02, 0x01, 0x00]);
}

#[test]
fn embedding_rule() {
    for m in [Mode::Ber, Mode::Cer, Mode::Der] {
        assert!(m.is_embeddable_into(Mode::Ber));
        assert!(m.is_embeddable_into(m));
    }
    assert!(!Mode::Der.is_embeddable_into(Mode::Cer));
    assert!(!Mode::Cer.is_embeddable_into(Mode::Der));
    assert!(!Mode::Ber.is_embeddable_into(Mode::Der));
}

#[test]
fn decode_partial_takes_one_record_at_a_time() {
    let mut c = captured_of(&[0x02, 0x01, 0x05, 0x02, 0x02, 0x01, 0x00], Mode::Der);
    let first = c.decode_partial(|b, m| {
        assert_eq!(m, Mode::Der);
        read_int(&b)
    });
    assert_eq!(first, Ok(5));
    assert_eq!(c.as_slice(), &[0x02, 0x02, 0x01, 0x00]);
    assert_eq!(c.mode(), Mode::Der);
    let second = c.decode_partial(|b, _| read_int(&b));
    assert_eq!(second, Ok(256));
    assert!(c.as_slice().is_empty());
    assert_eq!(c.mode(), Mode::Der);
}

#[test]
fn decode_partial_error_is_passed_on() {
    let mut c = captured_of(&[0x02, 0x09, 0x00], Mode::Ber);
    assert_eq!(c.decode_partial(|b, _| read_int(&b)), Err(DecodeError::Unimplemented));
    assert_eq!(c.as_slice(), &[0x02, 0x09, 0x00]);
}

#[test]
fn decode_returns_the_parsed_value() {
    let c = captured_of(&[0x02, 0x01, 0x2a], Mode::Der);
    let r = c.decode(|b, m| {
        assert_eq!(m, Mode::Der);
        read_int(&b).1
    });
    assert_eq!(r, Ok(42));
}

#[test]
fn decode_of_truncated_input_fails() {
    let c = captured_of(&[0x02], Mode::Ber);
    assert_eq!(c.decode(|b, _| read_int(&b).1), Err(DecodeError::Malformed));
}

#[test]
fn clone_then_extend_leaves_the_original() {
    let original = captured_of(&[0x02, 0x01, 0x01], Mode::Ber);
    let mut copy = original.clone();
    copy.extend(captured_of(&[0x02, 0x01, 0x02], Mode::Ber));
    assert_eq!(original.as_slice(), &[0x02, 0x01, 0x01]);
    assert_eq!(copy.as_slice(), &[0x02, 0x01, 0x01, 0x02, 0x01, 0x02]);
    assert_eq!(copy.mode(), original.mode());
}

#[test]
fn views_of_the_bytes_agree() {
    let c = captured_of(&[0x04, 0x00], Mode::Cer);
    let mut sink: Vec<u8> = Vec::new();
    c.write_encoded(Mode::Cer, &mut sink).unwrap();
    assert_eq!(sink, vec![0x04, 0x00]);
    let as_bytes: &Bytes = c.as_ref();
    let as_slice: &[u8] = c.as_ref();
    assert_eq!(&as_bytes[..], &[0x04, 0x00]);
    assert_eq!(as_slice, &[0x04, 0x00]);
    assert_eq!(c.len(), 2);
}
