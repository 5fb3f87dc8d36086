use vesta::framing::{
    Error, MAX_COBS_FRAME_LEN, MAX_PROTOCOL_FRAME_LEN, cobs_encode_delimited, crc32,
    encode_delimited, verify_decoded_record,
};

const CRC_LEN: usize = 4;

fn decode_cobs(encoded: &[u8], output: &mut [u8]) -> usize {
    assert_eq!(encoded.last(), Some(&0));
    let mut read = 0;
    let mut write = 0;
    let end = encoded.len() - 1;
    while read < end {
        let code = usize::from(encoded[read]);
        assert_ne!(code, 0);
        read += 1;
        let data_len = code - 1;
        output[write..write + data_len].copy_from_slice(&encoded[read..read + data_len]);
        read += data_len;
        write += data_len;
        if code != 0xff && read < end {
            output[write] = 0;
            write += 1;
        }
    }
    write
}

#[test]
fn arbitrary_protocol_bytes_round_trip() {
    let input = [0, 1, 2, 0, 0, 3, 0xff, 4, 0];
    let mut encoded = [0_u8; 32];
    let len = encode_delimited(&input, &mut encoded).unwrap();
    let mut decoded = [0_u8; 32];
    let decoded_len = decode_cobs(&encoded[..len], &mut decoded);
    assert_eq!(
        verify_decoded_record(&decoded[..decoded_len]).unwrap(),
        &input
    );
}

#[test]
fn maximum_protocol_frame_fits_fixed_buffer() {
    let input = [0x55_u8; MAX_PROTOCOL_FRAME_LEN];
    let mut encoded = [0_u8; MAX_COBS_FRAME_LEN];
    let len = encode_delimited(&input, &mut encoded).unwrap();
    let mut decoded = [0_u8; MAX_PROTOCOL_FRAME_LEN + CRC_LEN];
    let decoded_len = decode_cobs(&encoded[..len], &mut decoded);
    assert_eq!(decoded_len, input.len() + CRC_LEN);
    assert_eq!(
        verify_decoded_record(&decoded[..decoded_len]).unwrap(),
        input
    );
}

#[test]
fn too_small_output_returns_error_without_panicking() {
    let mut output = [0_u8; 2];
    assert_eq!(
        encode_delimited(&[1, 2], &mut output),
        Err(Error::OutputTooSmall)
    );
}

#[test]
fn crc_has_standard_golden_value_and_big_endian_wire_order() {
    let input = b"123456789";
    assert_eq!(crc32(input), 0xcbf4_3926);

    let mut encoded = [0_u8; 32];
    let len = encode_delimited(input, &mut encoded).unwrap();
    assert_eq!(
        &encoded[..len],
        &[
            0x0e, b'1', b'2', b'3', b'4', b'5', b'6', b'7', b'8', b'9', 0xcb, 0xf4, 0x39, 0x26,
            0x00
        ]
    );
}

#[test]
fn one_corrupted_payload_byte_is_rejected() {
    let input = b"wildfire-training-record";
    let mut encoded = [0_u8; 64];
    let len = encode_delimited(input, &mut encoded).unwrap();
    let mut decoded = [0_u8; 64];
    let decoded_len = decode_cobs(&encoded[..len], &mut decoded);
    decoded[3] ^= 0x80;
    assert_eq!(
        verify_decoded_record(&decoded[..decoded_len]),
        Err(Error::CrcMismatch)
    );
}

#[test]
fn every_single_byte_corruption_is_rejected() {
    let input = [0, 7, 0, 0xff, 3];
    let mut encoded = [0_u8; 32];
    let len = encode_delimited(&input, &mut encoded).unwrap();
    let mut decoded = [0_u8; 32];
    let decoded_len = decode_cobs(&encoded[..len], &mut decoded);
    for position in 0..decoded_len {
        for change in 1..=255_u8 {
            let mut corrupted = decoded;
            corrupted[position] ^= change;
            assert_eq!(
                verify_decoded_record(&corrupted[..decoded_len]),
                Err(Error::CrcMismatch)
            );
        }
    }
}

#[test]
fn only_the_last_byte_of_a_frame_is_zero() {
    let mut input = [0_u8; MAX_PROTOCOL_FRAME_LEN];
    for (index, byte) in input.iter_mut().enumerate() {
        *byte = (index % 5) as u8;
    }
    let mut encoded = [0xaa_u8; MAX_COBS_FRAME_LEN];
    let len = encode_delimited(&input, &mut encoded).unwrap();
    assert_eq!(encoded[len - 1], 0);
    assert!(encoded[..len - 1].iter().all(|byte| *byte != 0));
    assert!(encoded[len..].iter().all(|byte| *byte == 0xaa));
}

#[test]
fn empty_record_is_its_checksum_alone() {
    assert_eq!(crc32(&[]), 0);
    let mut encoded = [0_u8; 8];
    let len = encode_delimited(&[], &mut encoded).unwrap();
    assert_eq!(&encoded[..len], &[1, 1, 1, 1, 1, 0]);
}

#[test]
fn oversized_record_is_refused_and_leaves_the_buffer_alone() {
    let input = [1_u8; MAX_PROTOCOL_FRAME_LEN + 1];
    let mut encoded = [0xaa_u8; MAX_COBS_FRAME_LEN + 8];
    assert_eq!(
        encode_delimited(&input, &mut encoded),
        Err(Error::InputTooLarge)
    );
    assert!(encoded.iter().all(|byte| *byte == 0xaa));
}

#[test]
fn buffer_of_exact_frame_length_suffices() {
    let input = [9_u8, 0, 9];
    let mut roomy = [0_u8; 32];
    let len = encode_delimited(&input, &mut roomy).unwrap();
    let mut exact = vec![0_u8; len];
    assert_eq!(encode_delimited(&input, &mut exact), Ok(len));
    assert_eq!(&exact[..], &roomy[..len]);
    let mut short = vec![0_u8; len - 1];
    assert_eq!(
        encode_delimited(&input, &mut short),
        Err(Error::OutputTooSmall)
    );
    let mut none: [u8; 0] = [];
    assert_eq!(
        encode_delimited(&input, &mut none),
        Err(Error::OutputTooSmall)
    );
}

#[test]
fn record_without_room_for_a_checksum_is_too_short() {
    assert_eq!(verify_decoded_record(&[1, 2, 3]), Err(Error::RecordTooShort));
    assert_eq!(verify_decoded_record(&[0, 0, 0, 0]), Ok(&[][..]));
}

#[test]
fn stuffing_is_delimited_and_holds_no_other_zero() {
    let mut output = [0xee_u8; 8];
    let result = cobs_encode_delimited(&[0x11, 0x00, 0x00, 0x22], &mut output);
    assert_eq!(result, Ok(6));
    assert_eq!(output, [0x02, 0x11, 0x01, 0x02, 0x22, 0x00, 0xee, 0xee]);
    assert_eq!(cobs_encode_delimited(&[], &mut output), Ok(2));
    assert_eq!(output[..2], [0x01, 0x00]);
    assert_eq!(cobs_encode_delimited(&[1, 2, 3], &mut [0; 4]), Err(Error::OutputTooSmall));
}

#[test]
fn full_group_stands_for_no_zero() {
    let mut output = [0_u8; 300];
    assert_eq!(cobs_encode_delimited(&[7; 254], &mut output), Ok(257));
    assert_eq!(output[0], 0xff);
    assert_eq!(output[255..257], [0x01, 0x00]);
}
