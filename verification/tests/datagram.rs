use dns_message::datagram::{hex_dump, received_bytes};

#[test]
fn received_bytes_are_the_front_of_the_buffer() {
    let mut buffer = [0u8; 1024];
    buffer[0] = 0x12;
    buffer[1] = 0x34;
    buffer[2] = 0x56;
    buffer[3] = 0x78;
    assert_eq!(vec![0x12u8, 0x34, 0x56], received_bytes(&buffer, 3));
}

#[test]
fn nothing_received_gives_no_bytes() {
    let buffer = [0xAAu8; 16];
    assert_eq!(Vec::<u8>::new(), received_bytes(&buffer, 0));
}

#[test]
fn a_full_buffer_is_returned_whole() {
    let buffer: Vec<u8> = (0..=255u8).collect();
    assert_eq!(buffer, received_bytes(&buffer, 256));
}

#[test]
fn an_empty_buffer_holds_an_empty_datagram() {
    let buffer: [u8; 0] = [];
    assert_eq!(Vec::<u8>::new(), received_bytes(&buffer, 0));
}

#[test]
fn hex_dump_of_no_bytes_is_the_title_line() {
    assert_eq!("Length: 0 (0x0) bytes\n", hex_dump(&[]));
}

#[test]
fn hex_dump_of_a_short_row_pads_to_the_text_column() {
    let expected =
        "Length: 3 (0x3) bytes\n0000:   64 6e 73                                             dns";
    assert_eq!(expected, hex_dump(b"dns"));
}

#[test]
fn hex_dump_of_a_header_sized_datagram() {
    let data = [0x12u8, 0x34, 0x01, 0x00, 0x00, 0x01, 0, 0, 0, 0, 0, 0];
    let expected = "Length: 12 (0xc) bytes\n\
                    0000:   12 34 01 00  00 01 00 00  00 00 00 00                .4..........";
    assert_eq!(expected, hex_dump(&data));
}

#[test]
fn hex_dump_starts_a_new_row_after_sixteen_bytes() {
    let data: Vec<u8> = (0x41..0x52u8).collect();
    let expected = "Length: 17 (0x11) bytes\n\
                    0000:   41 42 43 44  45 46 47 48  49 4a 4b 4c  4d 4e 4f 50   ABCDEFGHIJKLMNOP\n\
                    0010:   51                                                   Q";
    assert_eq!(expected, hex_dump(&data));
}

#[test]
fn hex_dump_of_what_was_received() {
    let mut buffer = [0u8; 1024];
    buffer[..3].copy_from_slice(b"dns");
    let data = received_bytes(&buffer, 3);
    assert_eq!(hex_dump(b"dns"), hex_dump(&data));
}
