use dhcproto::addr::Ipv6Addr;
use dhcproto::decoder::{Decodable, Decoder};
use dhcproto::encoder::{Encodable, Encoder};
use dhcproto::error::{DecodeError, EncodeError};
use dhcproto::v6::{
    DhcpOption, DhcpOptions, Duid, Message, MessageType, OptionCode, UnknownOption,
};

fn solicit() -> Vec<u8> {
    vec![
        0x01, 0x10, 0x08, 0x74, 0x00, 0x01, 0x00, 0x0e, 0x00, 0x01, 0x00, 0x01, 0x1c, 0x39, 0xcf,
        0x88, 0x08, 0x00, 0x27, 0xfe, 0x8f, 0x95, 0x00, 0x06, 0x00, 0x04, 0x00, 0x17, 0x00, 0x18,
        0x00, 0x08, 0x00, 0x02, 0x00, 0x00, 0x00, 0x19, 0x00, 0x0c, 0x27, 0xfe, 0x8f, 0x95, 0x00,
        0x00, 0x0e, 0x10, 0x00, 0x00, 0x15, 0x18,
    ]
}

fn decode_option(bytes: &[u8]) -> Result<DhcpOption, DecodeError> {
    DhcpOption::decode(&mut Decoder::new(bytes))
}

fn encode_option(option: &DhcpOption) -> Result<Vec<u8>, EncodeError> {
    let mut buf = Vec::new();
    let n = option.encode(&mut Encoder::new(&mut buf))?;
    assert_eq!(n, buf.len());
    Ok(buf)
}

#[test]
fn decode_v6() {
    let bytes = solicit();
    let msg = Message::decode(&mut Decoder::new(&bytes)).unwrap();
    let mut buf = Vec::new();
    let mut e = Encoder::new(&mut buf);
    msg.encode(&mut e).unwrap();
    let res = Message::decode(&mut Decoder::new(&buf)).unwrap();
    assert_eq!(msg, res);
}

#[test]
fn decode_solicit() {
    let bytes = solicit();
    assert_eq!(bytes.len(), 52);
    let mut decoder = Decoder::new(&bytes);
    let msg = Message::decode(&mut decoder).unwrap();
    assert_eq!(decoder.index(), 52);
    assert!(decoder.is_empty());
    assert_eq!(msg.mtype(), MessageType::Solicit);
    assert_eq!(msg.trans_id(), [0x10, 0x08, 0x74]);
    let opts = msg.opts();
    assert_eq!(opts.len(), 4);
    assert_eq!(
        opts.get(OptionCode::ClientId),
        Some(&DhcpOption::ClientId(Duid::LinkLayerTime {
            htype: 1,
            time: 0x1c39_cf88,
            addr: vec![0x08, 0x00, 0x27, 0xfe, 0x8f, 0x95]
        }))
    );
    assert_eq!(opts.get(OptionCode::ORO), Some(&DhcpOption::ORO(vec![23, 24])));
    assert_eq!(opts.get(OptionCode::ElapsedTime), Some(&DhcpOption::ElapsedTime(0)));
    assert_eq!(
        opts.get(OptionCode::Unknown(25)),
        Some(&DhcpOption::Unknown(UnknownOption::new(
            25,
            vec![0x27, 0xfe, 0x8f, 0x95, 0x00, 0x00, 0x0e, 0x10, 0x00, 0x00, 0x15, 0x18]
        )))
    );
    let mut buf = Vec::new();
    assert_eq!(msg.encode(&mut Encoder::new(&mut buf)), Ok(52));
    assert_eq!(buf, bytes);
}

#[test]
fn v6_codes_come_back_from_every_number() {
    for n in 0..=255u8 {
        assert_eq!(u8::from(MessageType::from(n)), n);
    }
    for n in 0..=u16::MAX {
        assert_eq!(u16::from(OptionCode::from(n)), n);
    }
    assert_eq!(MessageType::from(1), MessageType::Solicit);
    assert_eq!(MessageType::from(7), MessageType::Reply);
    assert_eq!(MessageType::from(11), MessageType::InformationRequest);
    assert_eq!(MessageType::from(13), MessageType::RelayRepl);
    assert_eq!(MessageType::from(21), MessageType::DHCPv4Response);
    assert_eq!(MessageType::from(0), MessageType::Unknown(0));
    assert_eq!(MessageType::from(22), MessageType::Unknown(22));
    assert_eq!(OptionCode::from(1), OptionCode::ClientId);
    assert_eq!(OptionCode::from(10), OptionCode::Unknown(10));
    assert_eq!(OptionCode::from(20), OptionCode::ReconfAccept);
    assert_eq!(OptionCode::from(&DhcpOption::RapidCommit), OptionCode::RapidCommit);
}

#[test]
fn v6_short_message_fails() {
    assert_eq!(
        Message::decode(&mut Decoder::new(&[])),
        Err(DecodeError::EndOfBuffer { index: 0 })
    );
    let mut decoder = Decoder::new(&[1, 2, 3]);
    assert_eq!(Message::decode(&mut decoder), Err(DecodeError::EndOfBuffer { index: 1 }));
    assert_eq!(decoder.index(), 0);
    let msg = Message::decode(&mut Decoder::new(&[7, 1, 2, 3])).unwrap();
    assert_eq!(msg.mtype(), MessageType::Reply);
    assert!(msg.opts().is_empty());
    let mut decoder = Decoder::new(&[7, 1, 2, 3, 0, 8, 0, 2, 0]);
    assert_eq!(Message::decode(&mut decoder), Err(DecodeError::EndOfBuffer { index: 8 }));
    assert_eq!(decoder.index(), 0);
    assert_eq!(
        Message::decode(&mut Decoder::new(&[7, 1, 2, 3, 0, 8, 0])),
        Err(DecodeError::EndOfBuffer { index: 6 })
    );
}

#[test]
fn v6_each_shape_reads_its_body() {
    assert_eq!(decode_option(&[0, 7, 0, 1, 255]), Ok(DhcpOption::Preference(255)));
    assert_eq!(decode_option(&[0, 7, 0, 2, 255, 0]), Err(DecodeError::invalid_length()));
    assert_eq!(decode_option(&[0, 8, 0, 2, 1, 2]), Ok(DhcpOption::ElapsedTime(0x0102)));
    assert_eq!(decode_option(&[0, 8, 0, 1, 1]), Err(DecodeError::invalid_length()));
    assert_eq!(decode_option(&[0, 14, 0, 0]), Ok(DhcpOption::RapidCommit));
    assert_eq!(decode_option(&[0, 14, 0, 1, 0]), Err(DecodeError::invalid_length()));
    assert_eq!(decode_option(&[0, 20, 0, 0]), Ok(DhcpOption::ReconfAccept));
    assert_eq!(decode_option(&[0, 19, 0, 1, 5]), Ok(DhcpOption::ReconfMsg(MessageType::Renew)));
    assert_eq!(decode_option(&[0, 6, 0, 3, 0, 23, 0]), Err(DecodeError::invalid_length()));
    assert_eq!(decode_option(&[0, 6, 0, 0]), Ok(DhcpOption::ORO(vec![])));
    assert_eq!(
        decode_option(&[0, 3, 0, 13, 0, 0, 0, 1, 0, 0, 0, 2, 0, 0, 0, 3, 9]),
        Ok(DhcpOption::IANA { iaid: 1, t1: 2, t2: 3, options: vec![9] })
    );
    assert_eq!(
        decode_option(&[0, 3, 0, 11, 0, 0, 0, 1, 0, 0, 0, 2, 0, 0, 0]),
        Err(DecodeError::invalid_length())
    );
    assert_eq!(
        decode_option(&[0, 4, 0, 4, 0, 0, 1, 0]),
        Ok(DhcpOption::IATA { iaid: 256, options: vec![] })
    );
    assert_eq!(
        decode_option(&[0, 13, 0, 4, 0, 2, b'n', b'o']),
        Ok(DhcpOption::StatusCode { code: 2, message: "no".to_string() })
    );
    assert_eq!(decode_option(&[0, 13, 0, 3, 0, 2, 0xff]), Err(DecodeError::Utf8Error));
    assert_eq!(decode_option(&[0, 13, 0, 1, 0]), Err(DecodeError::invalid_length()));
    assert_eq!(
        decode_option(&[0, 17, 0, 5, 0, 0, 0x11, 0x8b, 1]),
        Ok(DhcpOption::VendorOpts { enterprise: 4491, data: vec![1] })
    );
    assert_eq!(
        decode_option(&[0, 11, 0, 12, 3, 1, 0, 0, 0, 0, 1, 0, 0, 0, 2, 0xee]),
        Ok(DhcpOption::Authentication {
            proto: 3,
            algo: 1,
            rdm: 0,
            replay: 0x0000_0001_0000_0002,
            info: vec![0xee]
        })
    );
    let mut unicast = vec![0u8, 12, 0, 16];
    unicast.extend_from_slice(&[0xfe, 0x80, 0, 0, 0, 0, 0, 0, 0, 0, 0, 0, 0, 0, 0, 1]);
    assert_eq!(
        decode_option(&unicast),
        Ok(DhcpOption::ServerUnicast(Ipv6Addr::new([
            0xfe, 0x80, 0, 0, 0, 0, 0, 0, 0, 0, 0, 0, 0, 0, 0, 1
        ])))
    );
    assert_eq!(decode_option(&unicast[..19]), Err(DecodeError::EndOfBuffer { index: 4 }));
    assert_eq!(decode_option(&[0, 12, 0, 2, 1, 2]), Err(DecodeError::invalid_length()));
}

#[test]
fn v6_every_option_survives_encode_and_decode() {
    let addr = Ipv6Addr::new([0x20, 0x01, 0x0d, 0xb8, 0, 0, 0, 0, 0, 0, 0, 0, 0, 0, 0, 1]);
    let all = vec![
        DhcpOption::ClientId(Duid::Enterprise { enterprise: 4491, id: vec![1, 2, 3] }),
        DhcpOption::ServerId(Duid::LinkLayer { htype: 1, addr: vec![9, 9, 9, 9, 9, 9] }),
        DhcpOption::IANA { iaid: 7, t1: 3600, t2: 5400, options: vec![0, 13, 0, 2, 0, 0] },
        DhcpOption::IATA { iaid: 8, options: vec![] },
        DhcpOption::IAAddr { addr, preferred: 100, valid: u32::MAX, options: vec![1, 2] },
        DhcpOption::ORO(vec![23, 24, 0xffff]),
        DhcpOption::Preference(1),
        DhcpOption::ElapsedTime(65535),
        DhcpOption::RelayMsg(vec![1, 0, 0, 0]),
        DhcpOption::Authentication { proto: 1, algo: 2, rdm: 3, replay: u64::MAX - 1, info: vec![] },
        DhcpOption::ServerUnicast(addr),
        DhcpOption::StatusCode { code: 0, message: "Success".to_string() },
        DhcpOption::RapidCommit,
        DhcpOption::UserClass(vec![0, 1, b'c']),
        DhcpOption::VendorClass { enterprise: 311, data: vec![0, 1, b'v'] },
        DhcpOption::VendorOpts { enterprise: 4491, data: vec![] },
        DhcpOption::InterfaceId(b"eth0".to_vec()),
        DhcpOption::ReconfMsg(MessageType::InformationRequest),
        DhcpOption::ReconfAccept,
        DhcpOption::Unknown(UnknownOption::new(25, vec![1, 2, 3])),
        DhcpOption::Unknown(UnknownOption::new(0xffff, vec![])),
    ];
    let mut options = DhcpOptions::new();
    for option in &all {
        let bytes = encode_option(option).unwrap();
        assert_eq!(u16::from_be_bytes([bytes[0], bytes[1]]), u16::from(option.code()));
        assert_eq!(u16::from_be_bytes([bytes[2], bytes[3]]) as usize, bytes.len() - 4);
        let mut decoder = Decoder::new(&bytes);
        assert_eq!(DhcpOption::decode(&mut decoder).as_ref(), Ok(option));
        assert_eq!(decoder.index(), bytes.len());
        assert_eq!(options.insert(option.clone()), None);
    }
    assert_eq!(options.len(), all.len());
    let msg = Message::new(MessageType::Reply, [1, 2, 3], options);
    let mut buf = vec![0xaa];
    let n = msg.encode(&mut Encoder::new(&mut buf)).unwrap();
    assert_eq!(buf.len(), n + 1);
    assert_eq!(&buf[..5], &[0xaa, 7, 1, 2, 3]);
    let mut decoder = Decoder::new(&buf);
    decoder.read_u8().unwrap();
    assert_eq!(Message::decode(&mut decoder), Ok(msg));
    assert!(decoder.is_empty());
}

#[test]
fn v6_options_are_written_by_code() {
    let mut options = DhcpOptions::new();
    assert_eq!(options.insert(DhcpOption::ElapsedTime(1)), None);
    let id = Duid::Unknown { kind: 9, bytes: vec![] };
    assert_eq!(options.insert(DhcpOption::ClientId(id.clone())), None);
    assert_eq!(options.insert(DhcpOption::ElapsedTime(2)), Some(DhcpOption::ElapsedTime(1)));
    let mut buf = Vec::new();
    assert_eq!(options.encode(&mut Encoder::new(&mut buf)), Ok(12));
    assert_eq!(buf, vec![0, 1, 0, 2, 0, 9, 0, 8, 0, 2, 0, 2]);
    assert_eq!(options.get(OptionCode::ElapsedTime), Some(&DhcpOption::ElapsedTime(2)));
    assert_eq!(options.remove(OptionCode::ClientId), Some(DhcpOption::ClientId(id)));
    assert_eq!(options.remove(OptionCode::ClientId), None);
    assert_eq!(options.len(), 1);
    let copy = options.clone();
    assert_eq!(copy, options);
    let mut empty = Vec::new();
    assert_eq!(DhcpOptions::new().encode(&mut Encoder::new(&mut empty)), Ok(0));
    assert!(empty.is_empty());
}

#[test]
fn v6_last_of_two_options_with_one_code_stays() {
    let bytes = [0u8, 7, 0, 1, 1, 0, 8, 0, 2, 0, 0, 0, 7, 0, 1, 2];
    let options = DhcpOptions::decode(&mut Decoder::new(&bytes)).unwrap();
    assert_eq!(options.len(), 2);
    assert_eq!(options.get(OptionCode::Preference), Some(&DhcpOption::Preference(2)));
}

#[test]
fn v6_bodies_longer_than_the_length_do_not_encode() {
    let option = DhcpOption::RelayMsg(vec![0; 0x1_0000]);
    assert_eq!(encode_option(&option), Err(EncodeError::AddOverflow));
    assert_eq!(encode_option(&DhcpOption::RelayMsg(vec![0; 0xffff])).unwrap().len(), 0x1_0003);
    let mut options = DhcpOptions::new();
    options.insert(DhcpOption::Preference(1));
    options.insert(option);
    let msg = Message::new(MessageType::Reply, [0, 0, 1], options);
    let mut buf = vec![3u8];
    assert_eq!(msg.encode(&mut Encoder::new(&mut buf)), Err(EncodeError::AddOverflow));
    assert_eq!(buf, vec![3u8]);
}

#[test]
fn v6_unknown_option_parts() {
    let unknown = UnknownOption::new(25, vec![1, 2]);
    assert_eq!(unknown.code(), 25);
    assert_eq!(unknown.bytes(), &[1, 2]);
    assert_eq!(unknown.clone(), unknown);
    let addr = Ipv6Addr::new([1; 16]);
    assert_eq!(addr.octets(), [1; 16]);
}

#[test]
fn v6_options_are_listed_by_code() {
    let mut options = DhcpOptions::new();
    options.insert(DhcpOption::ReconfAccept);
    options.insert(DhcpOption::Unknown(UnknownOption::new(0xfffe, vec![])));
    options.insert(DhcpOption::ClientId(Duid::Uuid([7; 16])));
    options.insert(DhcpOption::ElapsedTime(9));
    let listed = options.iter();
    let codes: Vec<u16> = listed.iter().map(|option| u16::from(option.code())).collect();
    assert_eq!(codes, vec![1, 8, 20, 0xfffe]);
    assert_eq!(listed[1], &DhcpOption::ElapsedTime(9));
    assert!(DhcpOptions::new().iter().is_empty());
}

#[test]
fn v6_identifiers_read_by_type() {
    assert_eq!(
        Duid::read(&[0, 1, 0, 1, 0x1c, 0x39, 0xcf, 0x88, 8, 0, 0x27]),
        Ok(Duid::LinkLayerTime { htype: 1, time: 0x1c39_cf88, addr: vec![8, 0, 0x27] })
    );
    assert_eq!(Duid::read(&[0, 1, 0, 1, 0, 0, 0]), Err(DecodeError::invalid_length()));
    assert_eq!(
        Duid::read(&[0, 2, 0, 0, 0x11, 0x8b]),
        Ok(Duid::Enterprise { enterprise: 4491, id: vec![] })
    );
    assert_eq!(Duid::read(&[0, 2, 0, 0, 0x11]), Err(DecodeError::invalid_length()));
    assert_eq!(
        Duid::read(&[0, 3, 0, 6, 0xaa, 0xbb]),
        Ok(Duid::LinkLayer { htype: 6, addr: vec![0xaa, 0xbb] })
    );
    assert_eq!(Duid::read(&[0, 3, 0]), Err(DecodeError::invalid_length()));
    let mut uuid = vec![0u8, 4];
    uuid.extend_from_slice(&[5; 16]);
    assert_eq!(Duid::read(&uuid), Ok(Duid::Uuid([5; 16])));
    assert_eq!(Duid::read(&uuid[..17]), Err(DecodeError::invalid_length()));
    assert_eq!(Duid::read(&[0, 9, 1]), Ok(Duid::Unknown { kind: 9, bytes: vec![1] }));
    assert_eq!(Duid::read(&[0, 0]), Ok(Duid::Unknown { kind: 0, bytes: vec![] }));
    assert_eq!(Duid::read(&[0]), Err(DecodeError::invalid_length()));
    assert_eq!(Duid::read(&[]), Err(DecodeError::invalid_length()));
    assert_eq!(decode_option(&[0, 1, 0, 1, 7]), Err(DecodeError::invalid_length()));
}

#[test]
fn v6_identifiers_survive_write_and_read() {
    let all = vec![
        Duid::LinkLayerTime { htype: 1, time: u32::MAX, addr: vec![1, 2, 3, 4, 5, 6] },
        Duid::Enterprise { enterprise: 311, id: vec![0xde, 0xad] },
        Duid::LinkLayer { htype: 0xffff, addr: vec![] },
        Duid::Uuid([0xab; 16]),
        Duid::Unknown { kind: 5, bytes: vec![1] },
    ];
    for duid in &all {
        let mut buf = Vec::new();
        let n = duid.write(&mut Encoder::new(&mut buf)).unwrap();
        assert_eq!(n, buf.len());
        assert_eq!(Duid::read(&buf).as_ref(), Ok(duid));
    }
    let mut buf = Vec::new();
    all[0].write(&mut Encoder::new(&mut buf)).unwrap();
    assert_eq!(buf, vec![0, 1, 0, 1, 0xff, 0xff, 0xff, 0xff, 1, 2, 3, 4, 5, 6]);
}
