use bot_client::client::Client;
use bot_client::wire::{
    read_byte, read_int, read_single, read_var_int, write_var_int, ReadingError, VAR_INT_BYTES,
};

fn written(v: i32) -> Vec<u8> {
    let mut out: Vec<u8> = Vec::new();
    write_var_int(v, &mut out);
    out
}

fn read(bytes: &[u8]) -> (i32, usize) {
    match read_var_int(bytes) {
        Ok(found) => found,
        Err(e) => panic!("unreadable: {e:?}"),
    }
}

#[test]
fn var_ints_have_their_known_bytes() {
    assert_eq!(written(0), vec![0x00]);
    assert_eq!(written(1), vec![0x01]);
    assert_eq!(written(127), vec![0x7f]);
    assert_eq!(written(128), vec![0x80, 0x01]);
    assert_eq!(written(255), vec![0xff, 0x01]);
    assert_eq!(written(25565), vec![0xdd, 0xc7, 0x01]);
    assert_eq!(written(2097151), vec![0xff, 0xff, 0x7f]);
    assert_eq!(written(i32::MAX), vec![0xff, 0xff, 0xff, 0xff, 0x07]);
    assert_eq!(written(-1), vec![0xff, 0xff, 0xff, 0xff, 0x0f]);
    assert_eq!(written(i32::MIN), vec![0x80, 0x80, 0x80, 0x80, 0x08]);
}

#[test]
fn var_ints_are_read_back_whatever_follows() {
    for v in [0, 1, 127, 128, 255, 300, 25565, 2097151, i32::MAX, -1, -300, i32::MIN] {
        let mut bytes = written(v);
        let n = bytes.len();
        assert!(n >= 1 && n <= VAR_INT_BYTES);
        assert_eq!(read(&bytes), (v, n));
        bytes.extend_from_slice(&[0xff, 0x80, 0x00]);
        assert_eq!(read(&bytes), (v, n));
    }
}

#[test]
fn a_var_int_may_be_longer_than_it_has_to_be() {
    assert_eq!(read(&[0x80, 0x00]), (0, 2));
    assert_eq!(read(&[0x81, 0x80, 0x80, 0x80, 0x00]), (1, 5));
}

#[test]
fn the_fifth_byte_of_a_var_int_is_cut_to_size() {
    assert_eq!(read(&[0xff, 0xff, 0xff, 0xff, 0x7f]), (-1, 5));
    assert_eq!(read(&[0x80, 0x80, 0x80, 0x80, 0x10]), (0, 5));
}

#[test]
fn a_var_int_can_break_off() {
    assert!(matches!(read_var_int(&[]), Err(ReadingError::Incomplete)));
    assert!(matches!(read_var_int(&[0x80]), Err(ReadingError::Incomplete)));
    assert!(matches!(
        read_var_int(&[0xff, 0xff, 0xff, 0xff]),
        Err(ReadingError::Incomplete)
    ));
}

#[test]
fn a_var_int_can_be_too_large() {
    assert!(matches!(
        read_var_int(&[0x80, 0x80, 0x80, 0x80, 0x80]),
        Err(ReadingError::TooLarge)
    ));
    assert!(matches!(
        read_var_int(&[0xff, 0xff, 0xff, 0xff, 0xff, 0x01]),
        Err(ReadingError::TooLarge)
    ));
}

#[test]
fn integers_are_big_endian() {
    assert!(matches!(read_int(&[0, 0, 0, 42]), Ok(42)));
    assert!(matches!(read_int(&[0, 0, 1, 0, 9]), Ok(256)));
    assert!(matches!(read_int(&[0x12, 0x34, 0x56, 0x78]), Ok(0x1234_5678)));
    assert!(matches!(read_int(&[0xff, 0xff, 0xff, 0xfe]), Ok(-2)));
    assert!(matches!(read_int(&[0x80, 0, 0, 0]), Ok(i32::MIN)));
    assert!(matches!(read_int(&[1, 2, 3]), Err(ReadingError::Incomplete)));
}

#[test]
fn singles_are_big_endian() {
    for x in [0.0f32, -0.0, 1.0, 20.0, -3.25, f32::MAX, f32::INFINITY] {
        match read_single(&x.to_be_bytes()) {
            Ok(bits) => assert_eq!(bits, x.to_bits()),
            Err(e) => panic!("unreadable: {e:?}"),
        }
    }
    assert!(matches!(read_single(&[0, 0, 0]), Err(ReadingError::Incomplete)));
}

#[test]
fn bytes_are_signed() {
    assert!(matches!(read_byte(&[3], 0), Ok(3)));
    assert!(matches!(read_byte(&[0, 127], 1), Ok(127)));
    assert!(matches!(read_byte(&[0, 128], 1), Ok(-128)));
    assert!(matches!(read_byte(&[255], 0), Ok(-1)));
    assert!(matches!(read_byte(&[255], 1), Err(ReadingError::Incomplete)));
}

#[test]
fn a_packet_is_its_id_and_its_data() {
    assert_eq!(Client::write_packet(0x1b, &[1, 2, 3]), vec![0x1b, 1, 2, 3]);
    assert_eq!(Client::write_packet(300, &[]), vec![0xac, 0x02]);
    assert_eq!(Client::write_packet(0, &[]), vec![0]);
}

#[test]
fn a_packet_can_be_taken_apart_again() {
    let data = [0x80u8, 0xff, 7];
    let bytes = Client::write_packet(200, &data);
    let (id, n) = read(&bytes);
    assert_eq!(id, 200);
    assert_eq!(&bytes[n..], &data);
}
