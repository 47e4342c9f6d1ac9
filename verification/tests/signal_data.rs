use vita49::{Endian, PayloadError, SignalData};

#[test]
fn little_endian_padded_payload_round_trip() {
    // A 6-byte payload requires 2 bytes of padding to form two 32-bit words (8 bytes).
    let raw_payload = vec![0x11, 0x22, 0x33, 0x44, 0x55, 0x66];

    // Write in Little Endian
    let buf = SignalData::write_payload(&raw_payload, Endian::Little);
    assert_eq!(buf.len(), 8, "payload must be padded to 8 bytes (2 words)");

    // Word 0 was [0x11, 0x22, 0x33, 0x44] -> in LE wire order: [0x44, 0x33, 0x22, 0x11]
    assert_eq!(&buf[0..4], &[0x44, 0x33, 0x22, 0x11]);
    // Word 1 was [0x55, 0x66, 0x00, 0x00] -> in LE wire order: [0x00, 0x00, 0x66, 0x55]
    assert_eq!(
        &buf[4..8],
        &[0x00, 0x00, 0x66, 0x55],
        "padding must be reversed along with data bytes in LE word"
    );

    // Read back in Little Endian
    let read_data = SignalData::read_payload(&buf, 2, Endian::Little).unwrap();

    // Data bytes must be restored to their original positions (followed by zero padding)
    assert_eq!(&read_data[0..6], &raw_payload[..]);
    assert_eq!(&read_data[6..8], &[0x00, 0x00]);
}

#[test]
fn resize_payload_keeps_the_same_allocation() {
    let mut sig_data = SignalData::from_owned(vec![0u8; 4096]);
    let first = sig_data.payload().as_ptr();

    sig_data.resize_payload(4096).fill(7);
    assert_eq!(
        sig_data.payload().as_ptr(),
        first,
        "a resize to the same \
            length must not move the buffer"
    );

    // Shrinking and growing back stays inside the capacity already held.
    sig_data.resize_payload(16);
    sig_data.resize_payload(4096);
    assert_eq!(sig_data.payload().as_ptr(), first);
}

#[test]
fn resize_payload_zeroes_growth_and_truncates() {
    let mut sig_data = SignalData::from_bytes(&[1, 2, 3, 4]);

    assert_eq!(sig_data.resize_payload(6), &[1, 2, 3, 4, 0, 0]);
    assert_eq!(sig_data.resize_payload(2), &[1, 2]);
    assert_eq!(sig_data.payload_size_bytes(), 2);
}

#[test]
fn payload_mut_edits_in_place() {
    let mut sig_data = SignalData::from_bytes(&[1, 2, 3, 4]);
    sig_data.payload_mut().reverse();
    assert_eq!(sig_data.payload(), &[4, 3, 2, 1]);
}

#[test]
fn big_endian_payload_is_padded_after_the_data() {
    let buf = SignalData::write_payload(&[1, 2, 3, 4, 5], Endian::Big);
    assert_eq!(buf, vec![1, 2, 3, 4, 5, 0, 0, 0]);
    let back = SignalData::read_payload(&buf, 2, Endian::Big).unwrap();
    assert_eq!(back, vec![1, 2, 3, 4, 5, 0, 0, 0]);
}

#[test]
fn whole_words_need_no_padding() {
    let buf = SignalData::write_payload(&[1, 2, 3, 4, 5, 6, 7, 8], Endian::Little);
    assert_eq!(buf, vec![4, 3, 2, 1, 8, 7, 6, 5]);
    assert!(SignalData::write_payload(&[], Endian::Little).is_empty());
}

#[test]
fn read_payload_takes_only_the_announced_words() {
    let input = [9, 8, 7, 6, 5, 4, 3, 2, 1];
    let data = SignalData::read_payload(&input, 1, Endian::Little).unwrap();
    assert_eq!(data, vec![6, 7, 8, 9]);
    let data = SignalData::read_payload(&input, 2, Endian::Big).unwrap();
    assert_eq!(data, vec![9, 8, 7, 6, 5, 4, 3, 2]);
    assert_eq!(SignalData::read_payload(&input, 0, Endian::Big).unwrap(), Vec::<u8>::new());
}

#[test]
fn read_payload_reports_short_input() {
    let input = [1, 2, 3, 4, 5, 6, 7];
    assert_eq!(
        SignalData::read_payload(&input, 2, Endian::Little),
        Err(PayloadError::Incomplete { needed_bytes: 8 })
    );
}

#[test]
fn payload_round_trip_for_each_length() {
    for len in 0..13u8 {
        let data: Vec<u8> = (1..=len).collect();
        for endian in [Endian::Little, Endian::Big] {
            let wire = SignalData::write_payload(&data, endian);
            let sig = SignalData::from_bytes(&data);
            assert_eq!(wire.len(), 4 * sig.size_words() as usize);
            let back = SignalData::read_payload(&wire, wire.len() / 4, endian).unwrap();
            assert_eq!(&back[..data.len()], &data[..]);
            assert!(back[data.len()..].iter().all(|&b| b == 0));
        }
    }
}

#[test]
fn size_words_rounds_up() {
    assert_eq!(SignalData::new().size_words(), 0);
    assert_eq!(SignalData::from_bytes(&[1]).size_words(), 1);
    assert_eq!(SignalData::from_bytes(&[1, 2, 3, 4]).size_words(), 1);
    assert_eq!(SignalData::from_bytes(&[1, 2, 3, 4, 5]).size_words(), 2);
}

#[test]
fn size_words_wraps_at_sixteen_bits() {
    let sig = SignalData::from_owned(vec![0u8; 4 * 0x10000 + 1]);
    assert_eq!(sig.size_words(), 1);
}

#[test]
fn constructors_and_accessors_keep_the_bytes() {
    let sig = SignalData::new();
    assert_eq!(sig.payload(), &[] as &[u8]);
    assert_eq!(sig.payload_size_bytes(), 0);

    let sig = SignalData::from_owned(vec![1, 2, 3]);
    assert_eq!(sig.payload(), &[1, 2, 3]);
    assert_eq!(sig.into_payload(), vec![1, 2, 3]);

    let mut sig = SignalData::from_bytes(&[1, 2, 3, 4, 5, 6, 7, 8]);
    assert_eq!(sig.payload_size_bytes(), 8);
    sig.set_payload(vec![9, 9]);
    assert_eq!(sig.payload(), &[9, 9]);
    sig.set_payload(&[1, 2, 3][..]);
    assert_eq!(sig.payload(), &[1, 2, 3]);
    assert_eq!(SignalData::default(), SignalData::new());
}

#[test]
fn set_payload_takes_vectors_slices_and_arrays() {
    let mut sig = SignalData::from_bytes(&[1, 2, 3, 4, 5]);
    sig.set_payload(&[1, 2, 3, 4, 5, 6, 7, 8]);
    assert_eq!(sig.payload(), &[1, 2, 3, 4, 5, 6, 7, 8]);
    let bytes = vec![4u8, 5];
    sig.set_payload(bytes.as_slice());
    assert_eq!(sig.payload(), &[4, 5]);
    sig.set_payload(Vec::new());
    assert_eq!(sig.payload_size_bytes(), 0);
}

#[test]
fn owned_and_cloned_payloads_come_back_out() {
    let v = vec![3u8, 1, 4, 1, 5];
    assert_eq!(SignalData::from_owned(v.clone()).into_payload(), v);
    let s = SignalData::from_bytes(&[2, 7, 1, 8]);
    assert_eq!(s.clone().into_payload(), s.payload().to_vec());
    assert_eq!(s.clone(), s);
}
