use hotsync_conduit_rs::uchars_to_u32;

#[test]
fn test_char_conv() {
    assert_eq!(u8::MAX as u32, uchars_to_u32([0, 0, 0, 255]));
    assert_eq!(u16::MAX as u32, uchars_to_u32([0, 0, 255, 255]));
    assert_eq!(u32::MAX, uchars_to_u32([255_u8; 4]));
}

#[test]
fn packing_reads_the_first_byte_as_the_most_significant() {
    assert_eq!(uchars_to_u32(*b"HEFf"), 0x48454666);
    assert_eq!(uchars_to_u32([1, 0, 0, 0]), 0x0100_0000);
    assert_eq!(uchars_to_u32([0, 1, 0, 0]), 0x0001_0000);
    assert_eq!(uchars_to_u32([0, 0, 1, 0]), 0x0000_0100);
    assert_eq!(uchars_to_u32([0, 0, 0, 1]), 0x0000_0001);
    assert_eq!(uchars_to_u32([0, 0, 0, 0]), 0);
}

#[test]
fn packing_round_trips() {
    for creator in [*b"HEFf", *b"DATA", *b"appl", [0x7f; 4], [0, 0x20, 0x41, 0x7e], [0x80, 0xff, 0, 1]] {
        assert_eq!(uchars_to_u32(creator).to_be_bytes(), creator);
    }
}
