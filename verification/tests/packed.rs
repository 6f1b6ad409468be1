use rawler::error::DecodeError;
use rawler::packed::decode_12be_wcontrol;
use rawler::packed::encode_12be_wcontrol;

fn round_trip(pixels: &[u16], width: usize, height: usize) {
    let stream = encode_12be_wcontrol(pixels, width, height);
    let back = decode_12be_wcontrol(&stream, width, height, false);
    assert_eq!(back, Ok(pixels.to_vec()));
}

#[test]
fn two_samples_share_three_bytes() {
    let out = decode_12be_wcontrol(&[0x12, 0x34, 0x56], 2, 1, false);
    assert_eq!(out, Ok(vec![0x123, 0x456]));
    let out = decode_12be_wcontrol(&[0xff, 0xf0, 0x00], 2, 1, false);
    assert_eq!(out, Ok(vec![0xfff, 0x000]));
    let out = decode_12be_wcontrol(&[0x00, 0x0f, 0xff], 2, 1, false);
    assert_eq!(out, Ok(vec![0x000, 0xfff]));
}

#[test]
fn packing_two_samples() {
    assert_eq!(encode_12be_wcontrol(&[0x123, 0x456], 2, 1), vec![0x12, 0x34, 0x56]);
    assert_eq!(encode_12be_wcontrol(&[0xfff, 0], 2, 1), vec![0xff, 0xf0, 0x00]);
    assert_eq!(encode_12be_wcontrol(&[0, 0xfff], 2, 1), vec![0x00, 0x0f, 0xff]);
}

#[test]
fn packing_keeps_the_lower_twelve_bits() {
    assert_eq!(encode_12be_wcontrol(&[0xf123, 0x8456], 2, 1), vec![0x12, 0x34, 0x56]);
}

#[test]
fn a_control_byte_follows_every_ten_samples() {
    // twelve samples in a row: fifteen bytes, one control byte, three bytes
    let mut stream: Vec<u8> = Vec::new();
    for _ in 0..5 {
        stream.extend_from_slice(&[0x12, 0x34, 0x56]);
    }
    stream.push(0xee);
    stream.extend_from_slice(&[0xab, 0xcd, 0xef]);
    assert_eq!(stream.len(), 19);
    let out = decode_12be_wcontrol(&stream, 12, 1, false).unwrap();
    assert_eq!(out.len(), 12);
    for pair in 0..5 {
        assert_eq!(out[2 * pair], 0x123);
        assert_eq!(out[2 * pair + 1], 0x456);
    }
    assert_eq!(out[10], 0xabc);
    assert_eq!(out[11], 0xdef);
}

#[test]
fn packed_control_bytes_are_zero() {
    // eighteen samples in a row: fifteen bytes, one control byte, twelve bytes, and
    // one byte more that the row's length counts
    let pixels: Vec<u16> = vec![0xfff; 18];
    let stream = encode_12be_wcontrol(&pixels, 18, 1);
    assert_eq!(stream.len(), 29);
    for (i, byte) in stream.iter().enumerate() {
        if i == 15 || i == 28 {
            assert_eq!(*byte, 0);
        } else {
            assert_eq!(*byte, 0xff);
        }
    }
}

#[test]
fn rows_start_a_row_length_apart() {
    // width 4: six bytes a row
    let stream = [0x00, 0x10, 0x02, 0x00, 0x30, 0x04, 0x00, 0x50, 0x06, 0x00, 0x70, 0x08];
    let out = decode_12be_wcontrol(&stream, 4, 2, false);
    assert_eq!(out, Ok(vec![1, 2, 3, 4, 5, 6, 7, 8]));
    // width 8: twelve bytes of samples and one byte more a row
    let mut stream: Vec<u8> = Vec::new();
    for row in 0..3u8 {
        for _ in 0..4 {
            stream.extend_from_slice(&[row, 0x00, row]);
        }
        stream.push(0xee);
    }
    let out = decode_12be_wcontrol(&stream, 8, 3, false).unwrap();
    for row in 0..3usize {
        for pair in 0..4usize {
            assert_eq!(out[row * 8 + 2 * pair], (row as u16) << 4);
            assert_eq!(out[row * 8 + 2 * pair + 1], row as u16);
        }
    }
}

#[test]
fn round_trip_of_the_boundary_values() {
    for (width, height) in
        [(2usize, 1usize), (4, 2), (8, 3), (10, 2), (12, 2), (18, 2), (20, 3), (30, 1), (64, 5)]
    {
        let n = width * height;
        round_trip(&vec![0u16; n], width, height);
        round_trip(&vec![4095u16; n], width, height);
        let mut mixed: Vec<u16> = Vec::new();
        for i in 0..n {
            mixed.push(if i % 3 == 0 { 4095 } else if i % 3 == 1 { 0 } else { (i * 37 % 4096) as u16 });
        }
        round_trip(&mixed, width, height);
    }
}

#[test]
fn round_trip_of_odd_widths() {
    for (width, height) in [(1usize, 1usize), (1, 4), (3, 2), (9, 3), (11, 2), (19, 2), (21, 2)] {
        let n = width * height;
        let mut pixels: Vec<u16> = Vec::new();
        for i in 0..n {
            pixels.push(((i * 1237 + 4095) % 4096) as u16);
        }
        round_trip(&pixels, width, height);
    }
}

#[test]
fn stream_length() {
    for (width, height, len) in [
        (2usize, 1usize, 3usize),
        (4, 2, 12),
        (8, 1, 13),
        (10, 1, 16),
        (12, 1, 19),
        (18, 1, 29),
        (20, 2, 64),
        (1, 1, 2),
        (3, 2, 10),
    ] {
        let pixels = vec![0u16; width * height];
        assert_eq!(encode_12be_wcontrol(&pixels, width, height).len(), len);
        let stream = vec![0u8; len];
        assert!(decode_12be_wcontrol(&stream, width, height, false).is_ok());
        let short = vec![0u8; len - 1];
        assert_eq!(
            decode_12be_wcontrol(&short, width, height, false),
            Err(DecodeError::BufferBounds)
        );
    }
}

#[test]
fn short_buffer_is_a_bounds_error() {
    // four by two samples of twelve bits take twelve bytes
    let stream = [0u8; 11];
    assert_eq!(decode_12be_wcontrol(&stream, 4, 2, false), Err(DecodeError::BufferBounds));
    assert_eq!(decode_12be_wcontrol(&stream, 4, 2, true), Err(DecodeError::BufferBounds));
    assert_eq!(decode_12be_wcontrol(&[], 2, 1, false), Err(DecodeError::BufferBounds));
    assert_eq!(decode_12be_wcontrol(&[1, 2], 2, 1, false), Err(DecodeError::BufferBounds));
}

#[test]
fn huge_dimensions_are_a_bounds_error() {
    let stream = [0u8; 64];
    assert_eq!(
        decode_12be_wcontrol(&stream, usize::MAX, usize::MAX, false),
        Err(DecodeError::BufferBounds)
    );
    assert_eq!(decode_12be_wcontrol(&stream, usize::MAX, 1, true), Err(DecodeError::BufferBounds));
    assert_eq!(decode_12be_wcontrol(&stream, 2, usize::MAX, false), Err(DecodeError::BufferBounds));
}

#[test]
fn longer_buffer_is_accepted() {
    let stream = [0x12, 0x34, 0x56, 0x78, 0x9a, 0xbc, 0xde];
    assert_eq!(decode_12be_wcontrol(&stream, 2, 1, false), Ok(vec![0x123, 0x456]));
    assert_eq!(decode_12be_wcontrol(&stream, 4, 1, false), Ok(vec![0x123, 0x456, 0x789, 0xabc]));
}

#[test]
fn probe_gives_zeros_of_the_right_shape() {
    let stream = [0xffu8; 12];
    assert_eq!(decode_12be_wcontrol(&stream, 4, 2, true), Ok(vec![0u16; 8]));
    assert_eq!(decode_12be_wcontrol(&stream, 4, 2, false), Ok(vec![0xfffu16; 8]));
}

#[test]
fn nothing_to_unpack() {
    assert_eq!(decode_12be_wcontrol(&[], 0, 0, false), Ok(vec![]));
    assert_eq!(decode_12be_wcontrol(&[], 0, 7, false), Ok(vec![]));
    assert_eq!(decode_12be_wcontrol(&[], 7, 0, false), Ok(vec![]));
    assert_eq!(decode_12be_wcontrol(&[1, 2, 3], 0, 7, true), Ok(vec![]));
    assert_eq!(encode_12be_wcontrol(&[], 0, 5), Vec::<u8>::new());
    assert_eq!(encode_12be_wcontrol(&[], 5, 0), Vec::<u8>::new());
}
