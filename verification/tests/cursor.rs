use gif_parser::error::GifError;
use gif_parser::parser::GifBuffer;

#[test]
fn new_buffer_starts_at_zero() {
    let buf = GifBuffer::new(vec![1, 2, 3]);
    assert_eq!(buf.get_pointer(), 0);
    assert_eq!(buf.get_size(), 3);
}

#[test]
fn read_u8_advances() {
    let mut buf = GifBuffer::new(vec![0xAB, 0xCD]);
    assert_eq!(buf.read_u8(), Ok(0xAB));
    assert_eq!(buf.get_pointer(), 1);
    assert_eq!(buf.read_u8(), Ok(0xCD));
    assert_eq!(buf.get_pointer(), 2);
}

#[test]
fn read_u8_exact_then_underrun() {
    let mut buf = GifBuffer::new(vec![7]);
    assert_eq!(buf.read_u8(), Ok(7));
    assert_eq!(buf.read_u8(), Err(GifError::BufferUnderrun));
    assert_eq!(buf.get_pointer(), 1);
}

#[test]
fn read_le_u16_low_byte_first() {
    let mut buf = GifBuffer::new(vec![10, 0, 0x34, 0x12]);
    assert_eq!(buf.read_le_u16(), Ok(10));
    assert_eq!(buf.read_le_u16(), Ok(0x1234));
}

#[test]
fn read_le_u16_one_byte_short() {
    let mut buf = GifBuffer::new(vec![10]);
    assert_eq!(buf.read_le_u16(), Err(GifError::BufferUnderrun));
    assert_eq!(buf.get_pointer(), 0);
}

#[test]
fn read_u16_shift7_composition() {
    let mut buf = GifBuffer::new(vec![1, 2]);
    assert_eq!(buf.read_u16(), Ok((1u16 << 7) | 2));
}

#[test]
fn read_u32_shift15_composition() {
    let mut buf = GifBuffer::new(vec![1, 2, 3, 4]);
    let hi = (1u32 << 7) | 2;
    let lo = (3u32 << 7) | 4;
    assert_eq!(buf.read_u32(), Ok((hi << 15) | lo));
    assert_eq!(buf.get_pointer(), 4);
}

#[test]
fn read_u32_underrun_leaves_pointer() {
    let mut buf = GifBuffer::new(vec![1, 2, 3]);
    assert_eq!(buf.read_u32(), Err(GifError::BufferUnderrun));
    assert_eq!(buf.get_pointer(), 0);
}

#[test]
fn read_slice_exact_remaining_succeeds() {
    let mut buf = GifBuffer::new(vec![1, 2, 3]);
    assert_eq!(buf.read_slice(3), Ok(vec![1, 2, 3]));
    assert_eq!(buf.get_pointer(), 3);
}

#[test]
fn read_slice_one_byte_short_underruns() {
    let mut buf = GifBuffer::new(vec![1, 2, 3]);
    assert_eq!(buf.read_slice(4), Err(GifError::BufferUnderrun));
    assert_eq!(buf.get_pointer(), 0);
}

#[test]
fn read_slice_middle() {
    let mut buf = GifBuffer::new(vec![1, 2, 3, 4]);
    assert_eq!(buf.read_u8(), Ok(1));
    assert_eq!(buf.read_slice(2), Ok(vec![2, 3]));
    assert_eq!(buf.get_pointer(), 3);
}

#[test]
fn peek_u8_does_not_advance() {
    let mut buf = GifBuffer::new(vec![9, 8]);
    assert_eq!(buf.peek_u8(), Ok(9));
    assert_eq!(buf.get_pointer(), 0);
    assert_eq!(buf.read_u8(), Ok(9));
    assert_eq!(buf.peek_u8(), Ok(8));
}

#[test]
fn peek_u8_at_end_underruns() {
    let buf = GifBuffer::new(Vec::new());
    assert_eq!(buf.peek_u8(), Err(GifError::BufferUnderrun));
}

#[test]
fn skip_u8_advances_once() {
    let mut buf = GifBuffer::new(vec![1, 2]);
    assert_eq!(buf.skip_u8(), Ok(()));
    assert_eq!(buf.get_pointer(), 1);
    assert_eq!(buf.read_u8(), Ok(2));
    assert_eq!(buf.skip_u8(), Err(GifError::BufferUnderrun));
}
