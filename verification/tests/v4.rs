use dhcproto::addr::Ipv4Addr;
use dhcproto::decoder::{Decodable, Decoder};
use dhcproto::encoder::{Encodable, Encoder};
use dhcproto::error::{DecodeError, EncodeError};
use dhcproto::v4::{
    DhcpOption, DhcpOptions, Message, MessageType, NodeType, Opcode, OptionCode, UnknownOption,
};

fn dhcp_offer() -> Vec<u8> {
    vec![
        0x02, 0x01, 0x06, 0x00, 0x00, 0x00, 0x15, 0x5c, 0x00, 0x00, 0x80, 0x00, 0x00, 0x00, 0x00,
        0x00, 0xc0, 0xa8, 0x00, 0x03, 0x00, 0x00, 0x00, 0x00, 0x00, 0x00, 0x00, 0x00, 0xcc, 0x00,
        0x0a, 0xc4, 0x00, 0x00, 0x00, 0x00, 0x00, 0x00, 0x00, 0x00, 0x00, 0x00, 0x00, 0x00, 0x00,
        0x00, 0x00, 0x00, 0x00, 0x00, 0x00, 0x00, 0x00, 0x00, 0x00, 0x00, 0x00, 0x00, 0x00, 0x00,
        0x00, 0x00, 0x00, 0x00, 0x00, 0x00, 0x00, 0x00, 0x00, 0x00, 0x00, 0x00, 0x00, 0x00, 0x00,
        0x00, 0x00, 0x00, 0x00, 0x00, 0x00, 0x00, 0x00, 0x00, 0x00, 0x00, 0x00, 0x00, 0x00, 0x00,
        0x00, 0x00, 0x00, 0x00, 0x00, 0x00, 0x00, 0x00, 0x00, 0x00, 0x00, 0x00, 0x00, 0x00, 0x00,
        0x00, 0x00, 0x00, 0x00, 0x00, 0x00, 0x00, 0x00, 0x00, 0x00, 0x00, 0x00, 0x00, 0x00, 0x00,
        0x00, 0x00, 0x00, 0x00, 0x00, 0x00, 0x00, 0x00, 0x00, 0x00, 0x00, 0x00, 0x00, 0x00, 0x00,
        0x00, 0x00, 0x00, 0x00, 0x00, 0x00, 0x00, 0x00, 0x00, 0x00, 0x00, 0x00, 0x00, 0x00, 0x00,
        0x00, 0x00, 0x00, 0x00, 0x00, 0x00, 0x00, 0x00, 0x00, 0x00, 0x00, 0x00, 0x00, 0x00, 0x00,
        0x00, 0x00, 0x00, 0x00, 0x00, 0x00, 0x00, 0x00, 0x00, 0x00, 0x00, 0x00, 0x00, 0x00, 0x00,
        0x00, 0x00, 0x00, 0x00, 0x00, 0x00, 0x00, 0x00, 0x00, 0x00, 0x00, 0x00, 0x00, 0x00, 0x00,
        0x00, 0x00, 0x00, 0x00, 0x00, 0x00, 0x00, 0x00, 0x00, 0x00, 0x00, 0x00, 0x00, 0x00, 0x00,
        0x00, 0x00, 0x00, 0x00, 0x00, 0x00, 0x00, 0x00, 0x00, 0x00, 0x00, 0x00, 0x00, 0x00, 0x00,
        0x00, 0x00, 0x00, 0x00, 0x00, 0x00, 0x00, 0x00, 0x00, 0x00, 0x00, 0x63, 0x82, 0x53, 0x63,
        0x35, 0x01, 0x02, 0x36, 0x04, 0xc0, 0xa8, 0x00, 0x01, 0x33, 0x04, 0x00, 0x00, 0x00, 0x3c,
        0x3a, 0x04, 0x00, 0x00, 0x00, 0x1e, 0x3b, 0x04, 0x00, 0x00, 0x00, 0x34, 0x01, 0x04, 0xff,
        0xff, 0xff, 0x00, 0x03, 0x04, 0xc0, 0xa8, 0x00, 0x01, 0x06, 0x08, 0xc0, 0xa8, 0x00, 0x01,
        0xc0, 0xa8, 0x01, 0x01, 0xff, 0x00, 0x00, 0x00, 0x00, 0x00, 0x00, 0x00, 0x00, 0x00, 0x00,
    ]
}

fn decode_option(bytes: &[u8]) -> Result<DhcpOption, DecodeError> {
    DhcpOption::decode(&mut Decoder::new(bytes))
}

fn encode_option(option: &DhcpOption) -> Result<Vec<u8>, EncodeError> {
    let mut buf = Vec::new();
    let n = option.encode(&mut Encoder::new(&mut buf))?;
    assert_eq!(n, buf.len());
    Ok(buf)
}

fn decode_options(bytes: &[u8]) -> Result<DhcpOptions, DecodeError> {
    DhcpOptions::decode(&mut Decoder::new(bytes))
}

fn sample_message() -> Message {
    let mut options = DhcpOptions::new();
    options.insert(DhcpOption::MessageType(MessageType::Request));
    options.insert(DhcpOption::Hostname("client".to_string()));
    options.insert(DhcpOption::RequestedIpAddress(Ipv4Addr::new(10, 0, 0, 7)));
    options.insert(DhcpOption::ParameterRequestList(vec![1, 3, 6, 15]));
    options.insert(DhcpOption::TimeOffset(-3600));
    options.insert(DhcpOption::IpForwarding(false));
    Message::new(
        Opcode::BootRequest,
        1,
        6,
        0,
        0xdead_beef,
        3,
        0x8000,
        Ipv4Addr::new(0, 0, 0, 0),
        Ipv4Addr::new(0, 0, 0, 0),
        Ipv4Addr::new(10, 0, 0, 1),
        Ipv4Addr::new(0, 0, 0, 0),
        [0xcc, 0, 0x0a, 0xc4, 0, 0, 0, 0, 0, 0, 0, 0, 0, 0, 0, 0],
        "server".to_string(),
        "boot/file.img".to_string(),
        options,
    )
}

#[test]
fn option_codes_come_back_from_every_byte() {
    for n in 0..=255u8 {
        assert_eq!(u8::from(OptionCode::from(n)), n);
    }
    assert_eq!(OptionCode::from(0), OptionCode::Pad);
    assert_eq!(OptionCode::from(53), OptionCode::MessageType);
    assert_eq!(OptionCode::from(61), OptionCode::ClientIdentifier);
    assert_eq!(OptionCode::from(21), OptionCode::Unknown(21));
    assert_eq!(OptionCode::from(200), OptionCode::Unknown(200));
    assert_eq!(OptionCode::from(255), OptionCode::End);
    assert_eq!(u8::from(OptionCode::Unknown(3)), 3);
}

#[test]
fn message_types_come_back_from_every_byte() {
    for n in 0..=255u8 {
        assert_eq!(u8::from(MessageType::from(n)), n);
    }
    assert_eq!(MessageType::from(1), MessageType::Discover);
    assert_eq!(MessageType::from(2), MessageType::Offer);
    assert_eq!(MessageType::from(3), MessageType::Request);
    assert_eq!(MessageType::from(4), MessageType::Decline);
    assert_eq!(MessageType::from(5), MessageType::Ack);
    assert_eq!(MessageType::from(6), MessageType::Nak);
    assert_eq!(MessageType::from(7), MessageType::Release);
    assert_eq!(MessageType::from(8), MessageType::Inform);
    assert_eq!(MessageType::from(0), MessageType::Unknown(0));
    assert_eq!(MessageType::from(9), MessageType::Unknown(9));
}

#[test]
fn node_types_and_opcodes_come_back_from_every_byte() {
    for n in 0..=255u8 {
        assert_eq!(u8::from(NodeType::from(n)), n);
        assert_eq!(u8::from(Opcode::from(n)), n);
    }
    assert_eq!(NodeType::from(1), NodeType::B);
    assert_eq!(NodeType::from(2), NodeType::P);
    assert_eq!(NodeType::from(4), NodeType::M);
    assert_eq!(NodeType::from(8), NodeType::H);
    assert_eq!(NodeType::from(3), NodeType::Unknown(3));
    assert_eq!(Opcode::from(1), Opcode::BootRequest);
    assert_eq!(Opcode::from(2), Opcode::BootReply);
    assert_eq!(Opcode::from(0), Opcode::Unknown(0));
}

#[test]
fn option_code_of_an_option() {
    assert_eq!(OptionCode::from(&DhcpOption::Pad), OptionCode::Pad);
    assert_eq!(
        OptionCode::from(&DhcpOption::Router(vec![Ipv4Addr::new(1, 1, 1, 1)])),
        OptionCode::Router
    );
    assert_eq!(DhcpOption::DefaultTcpTtl(9).code(), OptionCode::DefaultTcpTtl);
    let unknown = UnknownOption::new(200, vec![1]).unwrap();
    assert_eq!(DhcpOption::Unknown(unknown).code(), OptionCode::Unknown(200));
    assert_eq!(DhcpOption::End.code(), OptionCode::End);
}

#[test]
fn decode_dhcp_offer() {
    let bytes = dhcp_offer();
    assert_eq!(bytes.len(), 300);
    let mut decoder = Decoder::new(&bytes);
    let msg = Message::decode(&mut decoder).unwrap();
    assert_eq!(decoder.index(), 290);
    assert_eq!(msg.opcode(), Opcode::BootReply);
    assert_eq!(msg.htype(), 1);
    assert_eq!(msg.hlen(), 6);
    assert_eq!(msg.hops(), 0);
    assert_eq!(msg.xid(), 0x0000_155c);
    assert_eq!(msg.secs(), 0);
    assert_eq!(msg.flags(), 0x8000);
    assert_eq!(msg.ciaddr(), Ipv4Addr::new(0, 0, 0, 0));
    assert_eq!(msg.yiaddr(), Ipv4Addr::new(192, 168, 0, 3));
    assert_eq!(msg.siaddr(), Ipv4Addr::new(0, 0, 0, 0));
    assert_eq!(msg.giaddr(), Ipv4Addr::new(0, 0, 0, 0));
    assert_eq!(msg.chaddr(), &[0xcc, 0, 0x0a, 0xc4, 0, 0, 0, 0, 0, 0, 0, 0, 0, 0, 0, 0]);
    assert_eq!(msg.sname(), "");
    assert_eq!(msg.file(), "");
    let opts = msg.opts();
    assert_eq!(opts.len(), 8);
    assert_eq!(
        opts.get(OptionCode::MessageType),
        Some(&DhcpOption::MessageType(MessageType::Offer))
    );
    assert_eq!(
        opts.get(OptionCode::ServerIdentifier),
        Some(&DhcpOption::ServerIdentifier(Ipv4Addr::new(192, 168, 0, 1)))
    );
    assert_eq!(opts.get(OptionCode::AddressLeaseTime), Some(&DhcpOption::AddressLeaseTime(60)));
    assert_eq!(opts.get(OptionCode::Renewal), Some(&DhcpOption::Renewal(30)));
    assert_eq!(opts.get(OptionCode::Rebinding), Some(&DhcpOption::Rebinding(52)));
    assert_eq!(
        opts.get(OptionCode::SubnetMask),
        Some(&DhcpOption::SubnetMask(Ipv4Addr::new(255, 255, 255, 0)))
    );
    assert_eq!(
        opts.get(OptionCode::Router),
        Some(&DhcpOption::Router(vec![Ipv4Addr::new(192, 168, 0, 1)]))
    );
    assert_eq!(
        opts.get(OptionCode::DomainNameServer),
        Some(&DhcpOption::DomainNameServer(vec![
            Ipv4Addr::new(192, 168, 0, 1),
            Ipv4Addr::new(192, 168, 1, 1)
        ]))
    );
    assert_eq!(opts.get(OptionCode::Hostname), None);
    assert_eq!(opts.get(OptionCode::End), None);
    assert_eq!(opts.get(OptionCode::Pad), None);
}

#[test]
fn dhcp_offer_survives_encode_and_decode() {
    let bytes = dhcp_offer();
    let msg = Message::decode(&mut Decoder::new(&bytes)).unwrap();
    let mut buf = Vec::new();
    let n = msg.encode(&mut Encoder::new(&mut buf)).unwrap();
    assert_eq!(n, buf.len());
    assert_eq!(n, 290);
    assert_eq!(&buf[..240], &bytes[..240]);
    assert_eq!(buf[289], 0xff);
    let again = Message::decode(&mut Decoder::new(&buf)).unwrap();
    assert_eq!(again, msg);
}

#[test]
fn message_survives_encode_and_decode() {
    let msg = sample_message();
    let mut buf = vec![0xaa, 0xbb];
    let n = msg.encode(&mut Encoder::new(&mut buf)).unwrap();
    assert_eq!(buf.len(), n + 2);
    assert_eq!(&buf[..2], &[0xaa, 0xbb]);
    buf.extend_from_slice(&[1, 2, 3]);
    let mut decoder = Decoder::new(&buf);
    decoder.read_u16().unwrap();
    let again = Message::decode(&mut decoder).unwrap();
    assert_eq!(again, msg);
    assert_eq!(decoder.index(), n + 2);
    assert_eq!(again.sname(), "server");
    assert_eq!(again.file(), "boot/file.img");
    assert_eq!(again.opts().get(OptionCode::TimeOffset), Some(&DhcpOption::TimeOffset(-3600)));
}

#[test]
fn message_header_layout() {
    let msg = sample_message();
    let mut buf = Vec::new();
    msg.encode(&mut Encoder::new(&mut buf)).unwrap();
    assert_eq!(&buf[..12], &[1, 1, 6, 0, 0xde, 0xad, 0xbe, 0xef, 0, 3, 0x80, 0]);
    assert_eq!(&buf[20..24], &[10, 0, 0, 1]);
    assert_eq!(&buf[28..32], &[0xcc, 0, 0x0a, 0xc4]);
    assert_eq!(&buf[44..50], b"server");
    assert!(buf[50..108].iter().all(|b| *b == 0));
    assert_eq!(&buf[108..121], b"boot/file.img");
    assert!(buf[121..236].iter().all(|b| *b == 0));
    assert_eq!(&buf[236..240], &[0x63, 0x82, 0x53, 0x63]);
    assert_eq!(*buf.last().unwrap(), 0xff);
}

#[test]
fn bad_magic_cookie_fails() {
    let mut bytes = dhcp_offer();
    bytes[238] = 0x54;
    let mut decoder = Decoder::new(&bytes);
    assert_eq!(Message::decode(&mut decoder), Err(DecodeError::bad_magic()));
    assert_eq!(Message::decode(&mut decoder), Err(DecodeError::Message("bad magic".to_string())));
    assert_eq!(decoder.index(), 0);
}

#[test]
fn short_message_fails() {
    let bytes = dhcp_offer();
    let mut decoder = Decoder::new(&bytes[..239]);
    assert_eq!(Message::decode(&mut decoder), Err(DecodeError::EndOfBuffer { index: 0 }));
    assert_eq!(decoder.index(), 0);
    let msg = Message::decode(&mut Decoder::new(&bytes[..240])).unwrap();
    assert!(msg.opts().is_empty());
}

#[test]
fn message_with_bad_option_fails_and_leaves_the_cursor() {
    let mut bytes = dhcp_offer();
    bytes[241] = 2;
    let mut decoder = Decoder::new(&bytes);
    assert_eq!(Message::decode(&mut decoder), Err(DecodeError::invalid_length()));
    assert_eq!(decoder.index(), 0);
}

#[test]
fn header_name_that_is_not_utf8_fails() {
    let mut bytes = dhcp_offer();
    bytes[44] = 0xff;
    assert_eq!(Message::decode(&mut Decoder::new(&bytes)), Err(DecodeError::Utf8Error));
}

#[test]
fn names_longer_than_their_slots_do_not_encode() {
    let mut buf = vec![1u8];
    let long = "x".repeat(65);
    let msg = Message::new(
        Opcode::BootRequest,
        1,
        6,
        0,
        1,
        0,
        0,
        Ipv4Addr::new(0, 0, 0, 0),
        Ipv4Addr::new(0, 0, 0, 0),
        Ipv4Addr::new(0, 0, 0, 0),
        Ipv4Addr::new(0, 0, 0, 0),
        [0; 16],
        long,
        String::new(),
        DhcpOptions::new(),
    );
    assert_eq!(msg.encode(&mut Encoder::new(&mut buf)), Err(EncodeError::AddOverflow));
    assert_eq!(buf, vec![1u8]);
}

#[test]
fn full_slots_survive() {
    let msg = Message::new(
        Opcode::BootReply,
        1,
        6,
        0,
        1,
        0,
        0,
        Ipv4Addr::new(0, 0, 0, 0),
        Ipv4Addr::new(0, 0, 0, 0),
        Ipv4Addr::new(0, 0, 0, 0),
        Ipv4Addr::new(0, 0, 0, 0),
        [7; 16],
        "s".repeat(64),
        "f".repeat(128),
        DhcpOptions::new(),
    );
    let mut buf = Vec::new();
    assert_eq!(msg.encode(&mut Encoder::new(&mut buf)), Ok(241));
    assert_eq!(Message::decode(&mut Decoder::new(&buf)), Ok(msg));
}

#[test]
fn router_with_length_six_fails() {
    let bytes = [3u8, 6, 192, 168, 0, 1, 192, 168, 0xff];
    let mut decoder = Decoder::new(&bytes);
    assert_eq!(DhcpOption::decode(&mut decoder), Err(DecodeError::invalid_length()));
    assert_eq!(decoder.index(), 0);
    assert_eq!(decode_options(&bytes).err(), Some(DecodeError::invalid_length()));
    assert_eq!(decode_option(&[3, 0]), Err(DecodeError::invalid_length()));
}

#[test]
fn static_routes_with_length_twelve_fail() {
    let bytes = [33u8, 12, 10, 0, 0, 0, 10, 0, 0, 1, 10, 1, 0, 0, 0xff];
    assert_eq!(decode_option(&bytes), Err(DecodeError::invalid_length()));
    assert_eq!(decode_options(&bytes).err(), Some(DecodeError::invalid_length()));
    let ok = [33u8, 8, 10, 0, 0, 0, 10, 0, 0, 1];
    assert_eq!(
        decode_option(&ok),
        Ok(DhcpOption::StaticRoutingTable(vec![(
            Ipv4Addr::new(10, 0, 0, 0),
            Ipv4Addr::new(10, 0, 0, 1)
        )]))
    );
    assert_eq!(decode_option(&[33, 0]), Ok(DhcpOption::StaticRoutingTable(vec![])));
}

#[test]
fn unknown_option_is_kept() {
    let bytes = [200u8, 3, 0xaa, 0xbb, 0xcc, 0xff];
    let options = decode_options(&bytes).unwrap();
    assert_eq!(options.len(), 1);
    let option = options.get(OptionCode::Unknown(200)).unwrap();
    let unknown = match option {
        DhcpOption::Unknown(unknown) => unknown,
        other => panic!("{:?}", other),
    };
    assert_eq!(unknown.code(), 200);
    assert_eq!(unknown.length(), 3);
    assert_eq!(unknown.bytes(), &[0xaa, 0xbb, 0xcc]);
    assert_eq!(unknown, &UnknownOption::new(200, vec![0xaa, 0xbb, 0xcc]).unwrap());
    let mut buf = Vec::new();
    assert_eq!(options.encode(&mut Encoder::new(&mut buf)), Ok(6));
    assert_eq!(buf, bytes);
    assert_eq!(encode_option(option), Ok(vec![200, 3, 0xaa, 0xbb, 0xcc]));
}

#[test]
fn unknown_option_bounds() {
    assert!(UnknownOption::new(200, vec![0; 255]).is_some());
    assert!(UnknownOption::new(200, vec![0; 256]).is_none());
    let empty = UnknownOption::new(201, vec![]).unwrap();
    assert_eq!(empty.length(), 0);
    assert_eq!(empty.clone(), empty);
    assert_eq!(encode_option(&DhcpOption::Unknown(empty)), Ok(vec![201, 0]));
}

#[test]
fn boolean_is_written_as_one() {
    assert_eq!(encode_option(&DhcpOption::IpForwarding(true)), Ok(vec![0x13, 0x01, 0x01]));
    assert_eq!(encode_option(&DhcpOption::IpForwarding(false)), Ok(vec![0x13, 0x01, 0x00]));
    assert_eq!(decode_option(&[0x13, 1, 1]), Ok(DhcpOption::IpForwarding(true)));
    assert_eq!(decode_option(&[0x13, 1, 0]), Ok(DhcpOption::IpForwarding(false)));
    assert_eq!(decode_option(&[0x13, 1, 7]), Ok(DhcpOption::IpForwarding(true)));
    assert_eq!(decode_option(&[0x13, 2, 1, 1]), Err(DecodeError::invalid_length()));
}

#[test]
fn each_shape_reads_its_body() {
    assert_eq!(decode_option(&[0]), Ok(DhcpOption::Pad));
    assert_eq!(decode_option(&[255]), Ok(DhcpOption::End));
    assert_eq!(
        decode_option(&[1, 4, 255, 255, 255, 0]),
        Ok(DhcpOption::SubnetMask(Ipv4Addr::new(255, 255, 255, 0)))
    );
    assert_eq!(decode_option(&[2, 4, 0xff, 0xff, 0xf1, 0xf0]), Ok(DhcpOption::TimeOffset(-3600)));
    assert_eq!(decode_option(&[12, 4, b'h', b'o', b's', b't']), Ok(DhcpOption::Hostname("host".to_string())));
    assert_eq!(decode_option(&[12, 0]), Ok(DhcpOption::Hostname(String::new())));
    assert_eq!(decode_option(&[13, 2, 0x01, 0x02]), Ok(DhcpOption::BootFileSize(0x0102)));
    assert_eq!(decode_option(&[17, 1, b'/']), Ok(DhcpOption::RootPath("/".to_string())));
    assert_eq!(decode_option(&[18, 1, b'e']), Ok(DhcpOption::ExtensionsPath("e".to_string())));
    assert_eq!(decode_option(&[40, 1, b'n']), Ok(DhcpOption::NISDomain("n".to_string())));
    assert_eq!(decode_option(&[23, 1, 64]), Ok(DhcpOption::DefaultIpTtl(64)));
    assert_eq!(decode_option(&[37, 1, 64]), Ok(DhcpOption::DefaultTcpTtl(64)));
    assert_eq!(decode_option(&[52, 1, 3]), Ok(DhcpOption::OptionOverload(3)));
    assert_eq!(decode_option(&[57, 2, 0x05, 0xdc]), Ok(DhcpOption::MaxMessageSize(1500)));
    assert_eq!(decode_option(&[51, 4, 0, 0, 0, 60]), Ok(DhcpOption::AddressLeaseTime(60)));
    assert_eq!(decode_option(&[35, 4, 0, 1, 0, 0]), Ok(DhcpOption::ArpCacheTimeout(65536)));
    assert_eq!(decode_option(&[43, 2, 9, 8]), Ok(DhcpOption::VendorExtensions(vec![9, 8])));
    assert_eq!(decode_option(&[55, 0]), Ok(DhcpOption::ParameterRequestList(vec![])));
    assert_eq!(decode_option(&[53, 1, 5]), Ok(DhcpOption::MessageType(MessageType::Ack)));
    assert_eq!(decode_option(&[53, 1, 8]), Ok(DhcpOption::MessageType(MessageType::Inform)));
    assert_eq!(decode_option(&[53, 1, 99]), Ok(DhcpOption::MessageType(MessageType::Unknown(99))));
    assert_eq!(decode_option(&[46, 1, 8]), Ok(DhcpOption::NetBiosNodeType(NodeType::H)));
    assert_eq!(decode_option(&[46, 1, 3]), Ok(DhcpOption::NetBiosNodeType(NodeType::Unknown(3))));
}

#[test]
fn fixed_widths_are_checked() {
    assert_eq!(decode_option(&[1, 3, 255, 255, 255]), Err(DecodeError::invalid_length()));
    assert_eq!(decode_option(&[1, 5, 255, 255, 255, 0, 0]), Err(DecodeError::invalid_length()));
    assert_eq!(decode_option(&[2, 3, 0, 0, 0]), Err(DecodeError::invalid_length()));
    assert_eq!(decode_option(&[13, 1, 0]), Err(DecodeError::invalid_length()));
    assert_eq!(decode_option(&[51, 2, 0, 0]), Err(DecodeError::invalid_length()));
    assert_eq!(decode_option(&[23, 0]), Err(DecodeError::invalid_length()));
    assert_eq!(decode_option(&[53, 2, 1, 1]), Err(DecodeError::invalid_length()));
    assert_eq!(decode_option(&[46, 0]), Err(DecodeError::invalid_length()));
}

#[test]
fn option_that_runs_off_the_buffer_fails() {
    assert_eq!(decode_option(&[]), Err(DecodeError::EndOfBuffer { index: 0 }));
    assert_eq!(decode_option(&[12]), Err(DecodeError::EndOfBuffer { index: 1 }));
    assert_eq!(decode_option(&[12, 4, b'h']), Err(DecodeError::EndOfBuffer { index: 2 }));
    let bytes = [53u8, 1, 2, 3, 8, 192, 168];
    let mut decoder = Decoder::new(&bytes);
    assert_eq!(
        DhcpOptions::decode(&mut decoder).err(),
        Some(DecodeError::EndOfBuffer { index: 5 })
    );
    assert_eq!(decoder.index(), 0);
}

#[test]
fn option_text_that_is_not_utf8_fails() {
    assert_eq!(decode_option(&[12, 2, 0xc3, 0x28]), Err(DecodeError::Utf8Error));
    assert_eq!(decode_option(&[12, 3, b'a', b'b', 0]), Ok(DhcpOption::Hostname("ab".to_string())));
}

#[test]
fn options_end_at_the_end_mark_or_the_buffer() {
    let with_end = [53u8, 1, 1, 255, 12, 1, b'x'];
    let mut decoder = Decoder::new(&with_end);
    let options = DhcpOptions::decode(&mut decoder).unwrap();
    assert_eq!(decoder.index(), 4);
    assert_eq!(options.len(), 1);
    let without_end = [53u8, 1, 1, 12, 1, b'x'];
    let mut decoder = Decoder::new(&without_end);
    let options = DhcpOptions::decode(&mut decoder).unwrap();
    assert_eq!(decoder.index(), 6);
    assert_eq!(options.len(), 2);
    assert!(decode_options(&[]).unwrap().is_empty());
}

#[test]
fn padding_changes_nothing() {
    let plain = [53u8, 1, 2, 12, 1, b'x', 255];
    let padded = [0u8, 0, 53, 1, 2, 0, 0, 0, 12, 1, b'x', 0, 255, 0, 0];
    assert_eq!(decode_options(&padded), decode_options(&plain));
    assert_eq!(decode_options(&padded).unwrap().len(), 2);
    assert_eq!(decode_options(&[0, 0, 0]).unwrap().len(), 0);
    assert_eq!(decode_options(&[0, 0, 255]).unwrap().len(), 0);
}

#[test]
fn last_of_two_options_with_one_code_stays() {
    let bytes = [12u8, 1, b'a', 51, 4, 0, 0, 0, 1, 12, 2, b'b', b'c', 255];
    let options = decode_options(&bytes).unwrap();
    assert_eq!(options.len(), 2);
    assert_eq!(options.get(OptionCode::Hostname), Some(&DhcpOption::Hostname("bc".to_string())));
}

#[test]
fn options_are_written_by_code_and_end_with_the_end_mark() {
    let mut options = DhcpOptions::new();
    assert_eq!(options.insert(DhcpOption::Hostname("h".to_string())), None);
    assert_eq!(options.insert(DhcpOption::SubnetMask(Ipv4Addr::new(255, 0, 0, 0))), None);
    assert_eq!(options.insert(DhcpOption::MessageType(MessageType::Discover)), None);
    let mut buf = Vec::new();
    assert_eq!(options.encode(&mut Encoder::new(&mut buf)), Ok(13));
    assert_eq!(buf, vec![1, 4, 255, 0, 0, 0, 12, 1, b'h', 53, 1, 1, 255]);
    let mut empty = Vec::new();
    assert_eq!(DhcpOptions::new().encode(&mut Encoder::new(&mut empty)), Ok(1));
    assert_eq!(empty, vec![255]);
}

#[test]
fn container_insert_get_remove() {
    let mut options = DhcpOptions::new();
    assert!(options.is_empty());
    assert_eq!(options.insert(DhcpOption::Pad), None);
    assert_eq!(options.insert(DhcpOption::End), None);
    assert!(options.is_empty());
    assert_eq!(options.insert(DhcpOption::Renewal(30)), None);
    assert_eq!(options.insert(DhcpOption::Renewal(40)), Some(DhcpOption::Renewal(30)));
    assert_eq!(options.len(), 1);
    assert_eq!(options.get(OptionCode::Renewal), Some(&DhcpOption::Renewal(40)));
    assert_eq!(options.get(OptionCode::Rebinding), None);
    let copy = options.clone();
    assert_eq!(copy, options);
    assert_eq!(options.remove(OptionCode::Rebinding), None);
    assert_eq!(options.remove(OptionCode::Renewal), Some(DhcpOption::Renewal(40)));
    assert!(options.is_empty());
    assert_eq!(copy.len(), 1);
}

#[test]
fn bodies_longer_than_the_length_octet_do_not_encode() {
    assert_eq!(
        encode_option(&DhcpOption::Hostname("x".repeat(256))),
        Err(EncodeError::AddOverflow)
    );
    assert_eq!(encode_option(&DhcpOption::Hostname("x".repeat(255))).unwrap().len(), 257);
    assert_eq!(
        encode_option(&DhcpOption::Router(vec![Ipv4Addr::new(1, 1, 1, 1); 64])),
        Err(EncodeError::AddOverflow)
    );
    assert_eq!(
        encode_option(&DhcpOption::Router(vec![Ipv4Addr::new(1, 1, 1, 1); 63])).unwrap().len(),
        254
    );
    assert_eq!(
        encode_option(&DhcpOption::ClientIdentifier(vec![0; 256])),
        Err(EncodeError::AddOverflow)
    );
    let mut options = DhcpOptions::new();
    options.insert(DhcpOption::SubnetMask(Ipv4Addr::new(255, 0, 0, 0)));
    options.insert(DhcpOption::Message("m".repeat(300)));
    let mut buf = vec![5u8];
    assert_eq!(options.encode(&mut Encoder::new(&mut buf)), Err(EncodeError::AddOverflow));
    assert_eq!(buf, vec![5u8]);
}

#[test]
fn every_option_survives_encode_and_decode() {
    let ip = Ipv4Addr::new(192, 168, 0, 1);
    let ips = vec![ip, Ipv4Addr::new(10, 0, 0, 1)];
    let all = vec![
        DhcpOption::SubnetMask(ip),
        DhcpOption::TimeOffset(-1),
        DhcpOption::Router(ips.clone()),
        DhcpOption::TimeServer(ips.clone()),
        DhcpOption::NameServer(ips.clone()),
        DhcpOption::DomainNameServer(ips.clone()),
        DhcpOption::LogServer(ips.clone()),
        DhcpOption::QuoteServer(ips.clone()),
        DhcpOption::LprServer(ips.clone()),
        DhcpOption::ImpressServer(ips.clone()),
        DhcpOption::ResourceLocationServer(ips.clone()),
        DhcpOption::Hostname("host".to_string()),
        DhcpOption::BootFileSize(512),
        DhcpOption::MeritDumpFile("dump".to_string()),
        DhcpOption::DomainName("example.org".to_string()),
        DhcpOption::SwapServer(ip),
        DhcpOption::RootPath("/srv".to_string()),
        DhcpOption::ExtensionsPath("ext".to_string()),
        DhcpOption::IpForwarding(true),
        DhcpOption::NonLocalSrcRouting(false),
        DhcpOption::MaxDatagramSize(576),
        DhcpOption::DefaultIpTtl(64),
        DhcpOption::InterfaceMtu(1500),
        DhcpOption::AllSubnetsLocal(true),
        DhcpOption::BroadcastAddr(ip),
        DhcpOption::PerformMaskDiscovery(false),
        DhcpOption::MaskSupplier(true),
        DhcpOption::PerformRouterDiscovery(true),
        DhcpOption::RouterSolicitationAddr(ip),
        DhcpOption::StaticRoutingTable(vec![(ip, Ipv4Addr::new(10, 0, 0, 1))]),
        DhcpOption::ArpCacheTimeout(u32::MAX),
        DhcpOption::EthernetEncapsulation(false),
        DhcpOption::DefaultTcpTtl(60),
        DhcpOption::TcpKeepaliveInterval(7200),
        DhcpOption::TcpKeepaliveGarbage(true),
        DhcpOption::NISDomain("nis".to_string()),
        DhcpOption::NIS(ips.clone()),
        DhcpOption::NTPServers(ips.clone()),
        DhcpOption::VendorExtensions(vec![1, 2, 3]),
        DhcpOption::NetBiosNameServers(ips.clone()),
        DhcpOption::NetBiosDatagramDistributionServer(ips.clone()),
        DhcpOption::NetBiosNodeType(NodeType::M),
        DhcpOption::NetBiosScope("scope".to_string()),
        DhcpOption::XFontServer(ips.clone()),
        DhcpOption::XDisplayManager(ips.clone()),
        DhcpOption::RequestedIpAddress(ip),
        DhcpOption::AddressLeaseTime(86400),
        DhcpOption::OptionOverload(1),
        DhcpOption::MessageType(MessageType::Inform),
        DhcpOption::ServerIdentifier(ip),
        DhcpOption::ParameterRequestList(vec![1, 3, 6]),
        DhcpOption::Message("no lease".to_string()),
        DhcpOption::MaxMessageSize(1400),
        DhcpOption::Renewal(30),
        DhcpOption::Rebinding(52),
        DhcpOption::ClassIdentifier(b"MSFT 5.0".to_vec()),
        DhcpOption::ClientIdentifier(vec![1, 0xcc, 0, 0x0a, 0xc4, 0, 0]),
        DhcpOption::Unknown(UnknownOption::new(77, b"user".to_vec()).unwrap()),
    ];
    let mut options = DhcpOptions::new();
    for option in &all {
        let bytes = encode_option(option).unwrap();
        assert_eq!(bytes[0], u8::from(option.code()));
        assert_eq!(bytes[1] as usize, bytes.len() - 2);
        let mut decoder = Decoder::new(&bytes);
        assert_eq!(DhcpOption::decode(&mut decoder).as_ref(), Ok(option));
        assert_eq!(decoder.index(), bytes.len());
        assert_eq!(options.insert(option.clone()), None);
    }
    assert_eq!(options.len(), all.len());
    let mut buf = Vec::new();
    options.encode(&mut Encoder::new(&mut buf)).unwrap();
    assert_eq!(decode_options(&buf), Ok(options));
    assert_eq!(encode_option(&DhcpOption::Pad), Ok(vec![0]));
    assert_eq!(encode_option(&DhcpOption::End), Ok(vec![255]));
}

#[test]
fn options_are_listed_by_code() {
    let mut options = DhcpOptions::new();
    options.insert(DhcpOption::Renewal(30));
    options.insert(DhcpOption::Unknown(UnknownOption::new(250, vec![1]).unwrap()));
    options.insert(DhcpOption::SubnetMask(Ipv4Addr::new(255, 255, 0, 0)));
    options.insert(DhcpOption::MessageType(MessageType::Ack));
    let listed = options.iter();
    let codes: Vec<u8> = listed.iter().map(|option| u8::from(option.code())).collect();
    assert_eq!(codes, vec![1, 53, 58, 250]);
    assert_eq!(listed[0], &DhcpOption::SubnetMask(Ipv4Addr::new(255, 255, 0, 0)));
    assert_eq!(listed[2], &DhcpOption::Renewal(30));
    assert!(DhcpOptions::new().iter().is_empty());
}
