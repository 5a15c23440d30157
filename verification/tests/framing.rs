use inator::plugins::{BytesOptions, OrderOptions};
use inator::ports::tcp::reader_writer::{decode_size, encode_size, frame_message, read_frame, size_width};

#[test]
fn size_width_of_each_option() {
    assert_eq!(size_width(BytesOptions::U8), Some(1));
    assert_eq!(size_width(BytesOptions::I16), Some(2));
    assert_eq!(size_width(BytesOptions::U32), Some(4));
    assert_eq!(size_width(BytesOptions::I64), Some(8));
    assert_eq!(size_width(BytesOptions::U128), Some(16));
    assert_eq!(size_width(BytesOptions::F32), None);
    assert_eq!(size_width(BytesOptions::F64), None);
}

#[test]
fn encode_size_big_and_little_endian() {
    assert_eq!(encode_size(5, BytesOptions::U16, OrderOptions::BigEndian), Some(vec![0, 5]));
    assert_eq!(encode_size(5, BytesOptions::U16, OrderOptions::LittleEndian), Some(vec![5, 0]));
    assert_eq!(
        encode_size(0x0102_0304, BytesOptions::U32, OrderOptions::BigEndian),
        Some(vec![1, 2, 3, 4])
    );
    assert_eq!(
        encode_size(0x0102_0304, BytesOptions::U32, OrderOptions::LittleEndian),
        Some(vec![4, 3, 2, 1])
    );
}

#[test]
fn encode_size_refuses_what_does_not_fit() {
    assert_eq!(encode_size(255, BytesOptions::U8, OrderOptions::BigEndian), Some(vec![255]));
    assert_eq!(encode_size(256, BytesOptions::U8, OrderOptions::BigEndian), None);
    assert_eq!(encode_size(127, BytesOptions::I8, OrderOptions::BigEndian), Some(vec![127]));
    assert_eq!(encode_size(128, BytesOptions::I8, OrderOptions::BigEndian), None);
    assert_eq!(encode_size(3, BytesOptions::F32, OrderOptions::BigEndian), None);
    assert_eq!(encode_size(3, BytesOptions::F64, OrderOptions::LittleEndian), None);
}

#[test]
fn encode_size_wide_types_take_any_size() {
    let header = encode_size(usize::MAX, BytesOptions::U128, OrderOptions::LittleEndian).unwrap();
    assert_eq!(header.len(), 16);
    assert_eq!(decode_size(&header, BytesOptions::U128, OrderOptions::LittleEndian), Some(usize::MAX));
    let header = encode_size(usize::MAX, BytesOptions::I128, OrderOptions::BigEndian).unwrap();
    assert_eq!(decode_size(&header, BytesOptions::I128, OrderOptions::BigEndian), Some(usize::MAX));
}

#[test]
fn decode_size_reads_both_orders() {
    assert_eq!(decode_size(&[0, 0, 1, 0], BytesOptions::U32, OrderOptions::BigEndian), Some(256));
    assert_eq!(decode_size(&[0, 1, 0, 0], BytesOptions::U32, OrderOptions::LittleEndian), Some(256));
}

#[test]
fn decode_size_refuses_bad_headers() {
    // wrong width
    assert_eq!(decode_size(&[0, 1], BytesOptions::U32, OrderOptions::BigEndian), None);
    // negative signed size
    assert_eq!(decode_size(&[0xff, 0], BytesOptions::I16, OrderOptions::BigEndian), None);
    assert_eq!(decode_size(&[0, 0xff], BytesOptions::I16, OrderOptions::LittleEndian), None);
    // the same bytes unsigned are a size
    assert_eq!(decode_size(&[0xff, 0], BytesOptions::U16, OrderOptions::BigEndian), Some(0xff00));
    // floating prefixes are not read here
    assert_eq!(decode_size(&[0, 0, 0, 0], BytesOptions::F32, OrderOptions::BigEndian), None);
}

#[test]
fn size_roundtrip_each_option() {
    let options = [
        BytesOptions::U8,
        BytesOptions::U16,
        BytesOptions::U32,
        BytesOptions::U64,
        BytesOptions::U128,
        BytesOptions::I8,
        BytesOptions::I16,
        BytesOptions::I32,
        BytesOptions::I64,
        BytesOptions::I128,
    ];
    for bytes in options {
        for order in [OrderOptions::BigEndian, OrderOptions::LittleEndian] {
            for size in [0usize, 1, 100, 127] {
                let header = encode_size(size, bytes, order).unwrap();
                assert_eq!(decode_size(&header, bytes, order), Some(size));
            }
        }
    }
}

#[test]
fn frame_then_read_gives_the_payload() {
    let payload = vec![10u8, 20, 30];
    let frame = frame_message(&payload, BytesOptions::U32, OrderOptions::LittleEndian).unwrap();
    assert_eq!(frame, vec![3, 0, 0, 0, 10, 20, 30]);
    let mut buffer = frame.clone();
    buffer.extend_from_slice(&[99, 98]);
    assert_eq!(
        read_frame(&buffer, BytesOptions::U32, OrderOptions::LittleEndian),
        Some((payload, 7))
    );
}

#[test]
fn read_frame_waits_for_a_complete_frame() {
    assert_eq!(read_frame(&[0, 5, 1, 2], BytesOptions::U16, OrderOptions::BigEndian), None);
    assert_eq!(read_frame(&[0], BytesOptions::U16, OrderOptions::BigEndian), None);
    assert_eq!(
        read_frame(&[0, 2, 1, 2], BytesOptions::U16, OrderOptions::BigEndian),
        Some((vec![1, 2], 4))
    );
}

#[test]
fn frame_message_refuses_a_payload_too_long() {
    let payload = vec![0u8; 300];
    assert_eq!(frame_message(&payload, BytesOptions::U8, OrderOptions::BigEndian), None);
    let frame = frame_message(&payload, BytesOptions::U16, OrderOptions::BigEndian).unwrap();
    assert_eq!(&frame[..2], &[1, 44]);
    assert_eq!(frame.len(), 302);
}
