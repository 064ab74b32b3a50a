use deltachat_core::color::{color_checksum, color_int_to_hex_string, rgb_to_u32};

#[test]
fn test_rgb_to_u32() {
    assert_eq!(rgb_to_u32(0, 0, 0), 0);
    assert_eq!(rgb_to_u32(0xff, 0xff, 0xff), 0xffffff);
    assert_eq!(rgb_to_u32(0, 0, 0xff), 0x0000ff);
    assert_eq!(rgb_to_u32(0, 0xff, 0), 0x00ff00);
    assert_eq!(rgb_to_u32(0xff, 0, 0), 0xff0000);
    assert_eq!(rgb_to_u32(0xff, 0x80, 0), 0xff8000);
}

#[test]
fn color_hex_strings() {
    assert_eq!(color_int_to_hex_string(0), "#000000");
    assert_eq!(color_int_to_hex_string(0xff8000), "#ff8000");
    assert_eq!(color_int_to_hex_string(0x1abcdef), "#1abcdef");
}

#[test]
fn color_checksums_follow_the_test_vectors() {
    // Hue angles of the test vectors, times 65536 / 360.
    assert_eq!(color_checksum("Romeo"), 59575);
    assert_eq!(color_checksum("juliet@capulet.lit"), 38122);
}
