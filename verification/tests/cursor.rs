use dhcproto::addr::Ipv4Addr;
use dhcproto::decoder::Decoder;
use dhcproto::encoder::Encoder;
use dhcproto::error::DecodeError;

#[test]
fn read_u8_takes_one_byte() {
    let bytes = [7u8, 9];
    let mut d = Decoder::new(&bytes);
    assert_eq!(d.read_u8(), Ok(7));
    assert_eq!(d.index(), 1);
    assert_eq!(d.read_u8(), Ok(9));
    assert_eq!(d.read_u8(), Err(DecodeError::EndOfBuffer { index: 2 }));
    assert_eq!(d.index(), 2);
    assert!(d.is_empty());
}

#[test]
fn read_u16_is_big_endian() {
    let bytes = [0x12u8, 0x34, 0xff];
    let mut d = Decoder::new(&bytes);
    assert_eq!(d.read_u16(), Ok(0x1234));
    assert_eq!(d.index(), 2);
    assert_eq!(d.read_u16(), Err(DecodeError::EndOfBuffer { index: 2 }));
    assert_eq!(d.index(), 2);
}

#[test]
fn read_u32_is_big_endian() {
    let bytes = [0x00u8, 0x00, 0x15, 0x5c, 0x01];
    let mut d = Decoder::new(&bytes);
    assert_eq!(d.read_u32(), Ok(0x0000_155c));
    assert_eq!(d.read_u32(), Err(DecodeError::EndOfBuffer { index: 4 }));
    assert_eq!(d.index(), 4);
}

#[test]
fn read_i32_is_twos_complement() {
    let bytes = [0xffu8, 0xff, 0xff, 0xfe, 0x80, 0, 0, 0, 0x7f, 0xff, 0xff, 0xff, 0, 0, 0, 0];
    let mut d = Decoder::new(&bytes);
    assert_eq!(d.read_i32(), Ok(-2));
    assert_eq!(d.read_i32(), Ok(i32::MIN));
    assert_eq!(d.read_i32(), Ok(i32::MAX));
    assert_eq!(d.read_i32(), Ok(0));
    assert_eq!(d.read_i32(), Err(DecodeError::EndOfBuffer { index: 16 }));
}

#[test]
fn read_slice_borrows_and_advances() {
    let bytes = [1u8, 2, 3, 4, 5];
    let mut d = Decoder::new(&bytes);
    assert_eq!(d.read_slice(2), Ok(&bytes[0..2]));
    assert_eq!(d.read_slice(0), Ok(&bytes[2..2]));
    assert_eq!(d.read_slice(4), Err(DecodeError::EndOfBuffer { index: 2 }));
    assert_eq!(d.index(), 2);
    assert_eq!(d.buffer(), &bytes[2..]);
    assert_eq!(d.read_slice(3), Ok(&bytes[2..5]));
    assert_eq!(d.read_slice(usize::MAX), Err(DecodeError::EndOfBuffer { index: 5 }));
}

#[test]
fn read_array_copies() {
    let bytes = [0x10u8, 0x08, 0x74, 0x00];
    let mut d = Decoder::new(&bytes);
    assert_eq!(d.read_array::<3>(), Ok([0x10, 0x08, 0x74]));
    assert_eq!(d.read_array::<3>(), Err(DecodeError::EndOfBuffer { index: 3 }));
    assert_eq!(d.index(), 3);
    assert_eq!(d.read_array::<0>(), Ok([]));
}

#[test]
fn read_string_strips_one_trailing_nul() {
    let bytes = b"host\0ab\0\0";
    let mut d = Decoder::new(bytes);
    assert_eq!(d.read_string(5), Ok("host".to_string()));
    assert_eq!(d.read_string(4), Ok("ab\0".to_string()));
    assert_eq!(d.read_string(1), Err(DecodeError::EndOfBuffer { index: 9 }));
    assert_eq!(d.read_string(0), Ok(String::new()));
}

#[test]
fn read_string_rejects_invalid_utf8() {
    let bytes = [0x61u8, 0xff, 0x62];
    let mut d = Decoder::new(&bytes);
    assert_eq!(d.read_string(3), Err(DecodeError::Utf8Error));
    assert_eq!(d.index(), 0);
    assert_eq!(d.read_string(1), Ok("a".to_string()));
}

#[test]
fn read_string_takes_multibyte_text() {
    let text = "grüße";
    let mut d = Decoder::new(text.as_bytes());
    assert_eq!(d.read_string(text.len()), Ok(text.to_string()));
}

#[test]
fn read_padded_string_stops_at_first_nul() {
    let bytes = b"ab\0cd\0\0\0xy";
    let mut d = Decoder::new(bytes);
    assert_eq!(d.read_padded_string(8), Ok("ab".to_string()));
    assert_eq!(d.index(), 8);
    assert_eq!(d.read_padded_string(2), Ok("xy".to_string()));
    assert_eq!(d.read_padded_string(1), Err(DecodeError::EndOfBuffer { index: 10 }));
}

#[test]
fn read_ip_takes_four_bytes() {
    let bytes = [192u8, 168, 0, 3, 1];
    let mut d = Decoder::new(&bytes);
    assert_eq!(d.read_ip(), Ok(Ipv4Addr::new(192, 168, 0, 3)));
    assert_eq!(d.read_ip(), Err(DecodeError::EndOfBuffer { index: 4 }));
    assert_eq!(d.index(), 4);
}

#[test]
fn read_ips_needs_a_positive_multiple_of_four() {
    let bytes = [192u8, 168, 0, 1, 192, 168, 1, 1];
    let mut d = Decoder::new(&bytes);
    assert_eq!(d.read_ips(6), Err(DecodeError::invalid_length()));
    assert_eq!(d.read_ips(0), Err(DecodeError::invalid_length()));
    assert_eq!(d.index(), 0);
    assert_eq!(d.read_ips(12), Err(DecodeError::EndOfBuffer { index: 0 }));
    assert_eq!(d.read_ips(9), Err(DecodeError::EndOfBuffer { index: 0 }));
    assert_eq!(
        d.read_ips(8),
        Ok(vec![Ipv4Addr::new(192, 168, 0, 1), Ipv4Addr::new(192, 168, 1, 1)])
    );
    assert_eq!(d.index(), 8);
}

#[test]
fn read_pair_ips_needs_a_multiple_of_eight() {
    let bytes = [10u8, 0, 0, 0, 255, 0, 0, 0, 10, 1, 0, 0, 255, 255, 0, 0];
    let mut d = Decoder::new(&bytes);
    assert_eq!(d.read_pair_ips(12), Err(DecodeError::invalid_length()));
    assert_eq!(d.index(), 0);
    assert_eq!(d.read_pair_ips(24), Err(DecodeError::EndOfBuffer { index: 0 }));
    assert_eq!(d.read_pair_ips(0), Ok(vec![]));
    assert_eq!(
        d.read_pair_ips(16),
        Ok(vec![
            (Ipv4Addr::new(10, 0, 0, 0), Ipv4Addr::new(255, 0, 0, 0)),
            (Ipv4Addr::new(10, 1, 0, 0), Ipv4Addr::new(255, 255, 0, 0)),
        ])
    );
}

#[test]
fn short_buffers_fail_and_leave_the_cursor() {
    let bytes = [1u8, 2, 3];
    let mut d = Decoder::new(&bytes);
    assert_eq!(d.read_u8(), Ok(1));
    let at = DecodeError::EndOfBuffer { index: 1 };
    assert_eq!(d.read_u32(), Err(at.clone()));
    assert_eq!(d.read_i32(), Err(at.clone()));
    assert_eq!(d.read_ip(), Err(at.clone()));
    assert_eq!(d.read_slice(3), Err(at.clone()));
    assert_eq!(d.read_array::<3>(), Err(at.clone()));
    assert_eq!(d.read_string(3), Err(at.clone()));
    assert_eq!(d.read_padded_string(3), Err(at.clone()));
    assert_eq!(d.read_ips(4), Err(at.clone()));
    assert_eq!(d.read_pair_ips(8), Err(at));
    assert_eq!(d.index(), 1);
    assert_eq!(d.read_u16(), Ok(0x0203));
}

#[test]
fn writes_are_big_endian() {
    let mut buf = Vec::new();
    let mut e = Encoder::new(&mut buf);
    assert_eq!(e.write_u8(0xab), Ok(1));
    assert_eq!(e.write_u16(0x1234), Ok(2));
    assert_eq!(e.write_u32(0x0000_155c), Ok(4));
    assert_eq!(e.write_i32(-2), Ok(4));
    assert_eq!(e.write_i32(i32::MIN), Ok(4));
    assert_eq!(
        buf,
        vec![0xab, 0x12, 0x34, 0x00, 0x00, 0x15, 0x5c, 0xff, 0xff, 0xff, 0xfe, 0x80, 0, 0, 0]
    );
}

#[test]
fn writes_append_and_count() {
    let mut buf = vec![9u8];
    let mut e = Encoder::new(&mut buf);
    assert_eq!(e.write(&[1, 2, 3]), Ok(3));
    assert_eq!(e.write(&[]), Ok(0));
    assert_eq!(e.write_fill(0, 4), Ok(4));
    assert_eq!(e.write_fill(7, 0), Ok(0));
    assert_eq!(e.write_string("hé"), Ok(3));
    assert_eq!(e.write_ip(Ipv4Addr::new(192, 168, 0, 1)), Ok(4));
    assert_eq!(
        e.write_ips(&[Ipv4Addr::new(1, 2, 3, 4), Ipv4Addr::new(5, 6, 7, 8)]),
        Ok(8)
    );
    assert_eq!(
        e.write_pair_ips(&[(Ipv4Addr::new(10, 0, 0, 0), Ipv4Addr::new(255, 0, 0, 0))]),
        Ok(8)
    );
    assert_eq!(
        buf,
        vec![
            9, 1, 2, 3, 0, 0, 0, 0, b'h', 0xc3, 0xa9, 192, 168, 0, 1, 1, 2, 3, 4, 5, 6, 7, 8, 10,
            0, 0, 0, 255, 0, 0, 0
        ]
    );
}

#[test]
fn integers_read_back_as_written() {
    for v in [0u16, 1, 0xff, 0x100, 0x1234, u16::MAX] {
        let mut buf = Vec::new();
        Encoder::new(&mut buf).write_u16(v).unwrap();
        assert_eq!(buf, v.to_be_bytes());
        assert_eq!(Decoder::new(&buf).read_u16(), Ok(v));
    }
    for v in [0u32, 1, 0xffff, 0x1_0000, 0x1234_5678, u32::MAX] {
        let mut buf = Vec::new();
        Encoder::new(&mut buf).write_u32(v).unwrap();
        assert_eq!(buf, v.to_be_bytes());
        assert_eq!(Decoder::new(&buf).read_u32(), Ok(v));
    }
    for v in [0i32, 1, -1, 60, -3600, i32::MIN, i32::MAX] {
        let mut buf = Vec::new();
        Encoder::new(&mut buf).write_i32(v).unwrap();
        assert_eq!(buf, v.to_be_bytes());
        assert_eq!(Decoder::new(&buf).read_i32(), Ok(v));
    }
}

#[test]
fn address_octets() {
    let ip = Ipv4Addr::from_octets([192, 168, 0, 3]);
    assert_eq!(ip, Ipv4Addr::new(192, 168, 0, 3));
    assert_eq!(ip.octets(), [192, 168, 0, 3]);
}
