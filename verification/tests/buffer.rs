use usbd_storage::buffer::Buffer;
use usbd_storage::endian::{u16_from_be, u16_to_be, u32_from_be, u32_from_le, u32_to_le};
use usbd_storage::text::{push_decimal, push_hex_byte};

#[test]
fn bytes_come_out_in_order() {
    let mut buffer = Buffer::new(vec![0u8; 8]);
    assert_eq!(buffer.available_write(), 8);
    assert_eq!(buffer.write(&[1, 2, 3, 4, 5]), 5);
    assert_eq!(buffer.available_read(), 5);
    let mut dst = [0u8; 3];
    assert_eq!(buffer.read(&mut dst), 3);
    assert_eq!(dst, [1, 2, 3]);
    // the free space at the start counts
    assert_eq!(buffer.write(&[6, 7, 8, 9, 10, 11, 12]), 6);
    assert_eq!(buffer.available_write(), 0);
    assert_eq!(buffer.peek(3), [4, 5, 6]);
    assert_eq!(buffer.peek(100), [4, 5, 6, 7, 8, 9, 10, 11]);
    buffer.consume(7);
    assert_eq!(buffer.peek(100), [11]);
    buffer.clean();
    assert_eq!(buffer.available_read(), 0);
    assert_eq!(buffer.available_write(), 8);
}

#[test]
fn numbers_as_bytes() {
    assert_eq!(u16_from_be(0x12, 0x34), 0x1234);
    assert_eq!(u32_from_be(1, 2, 3, 4), 0x0102_0304);
    assert_eq!(u32_from_le(1, 2, 3, 4), 0x0403_0201);
    assert_eq!(u16_to_be(0x1234), [0x12, 0x34]);
    assert_eq!(u32_to_le(0x0403_0201), [1, 2, 3, 4]);
}

#[test]
fn numbers_as_text() {
    let mut text = String::new();
    push_decimal(&mut text, 0);
    text.push(' ');
    push_decimal(&mut text, 1_234_567_890);
    text.push(' ');
    push_hex_byte(&mut text, 0xAF);
    text.push(' ');
    push_hex_byte(&mut text, 5);
    assert_eq!(text, "0 1234567890 0xaf 0x05");
}
