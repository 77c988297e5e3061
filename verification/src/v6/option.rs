//! The options of DHCPv6, one variant for each code.

use crate::addr::Ipv6Addr;
use crate::decoder::{Decodable, Decoder};
use crate::encoder::{Encodable, Encoder};
use crate::error::{invalid_length, DecodeError, DecodeFault, DecodeResult, EncodeError, EncodeResult};
use crate::v6::code::{number_of, MessageType, OptionCode};
use crate::v6::model::{duid_in, parse_body, parse_option, DuidModel, OptionModel, OptionValue};
use crate::wire::{be16s, u16_from_be, u16s_of, u64_from_be};
use vstd::prelude::*;
use vstd::slice::slice_to_vec;
use vstd::std_specs::convert::FromSpecImpl;

verus! {

/// An option whose code has no variant of its own, kept as it came: the
/// code and the body.
#[derive(Debug, PartialEq, Eq)]
pub struct UnknownOption {
    code: u16,
    bytes: Vec<u8>,
}

impl View for UnknownOption {
    type V = (u16, Seq<u8>);

    /// The code and the body.
    closed spec fn view(&self) -> (u16, Seq<u8>) {
        (self.code, self.bytes@)
    }
}

impl Clone for UnknownOption {
    fn clone(&self) -> (copy: UnknownOption)
        ensures
            copy@ == self@,
    {
        UnknownOption { code: self.code, bytes: self.bytes.clone() }
    }
}

impl UnknownOption {
    /// The option with the code `code` and the body `bytes`.
    pub fn new(code: u16, bytes: Vec<u8>) -> (option: UnknownOption)
        ensures
            option@ == (code, bytes@),
    {
        UnknownOption { code, bytes }
    }

    /// The code.
    pub fn code(&self) -> (code: u16)
        ensures
            code == self@.0,
    {
        self.code
    }

    /// The body.
    pub fn bytes(&self) -> (bytes: &[u8])
        ensures
            bytes@ == self@.1,
    {
        self.bytes.as_slice()
    }
}

/// A unique identifier of a client or a server.
#[derive(Debug, Clone, PartialEq, Eq)]
pub enum Duid {
    /// 1: a link-layer address, and the time at which the identifier was
    /// made
    LinkLayerTime { htype: u16, time: u32, addr: Vec<u8> },
    /// 2: an identifier that a vendor gave, and the enterprise number of
    /// the vendor
    Enterprise { enterprise: u32, id: Vec<u8> },
    /// 3: a link-layer address
    LinkLayer { htype: u16, addr: Vec<u8> },
    /// 4: a universally unique identifier
    Uuid([u8; 16]),
    /// An identifier of another type, kept as it came
    Unknown { kind: u16, bytes: Vec<u8> },
}

impl View for Duid {
    type V = DuidModel;

    open spec fn view(&self) -> DuidModel {
        match self {
            Duid::LinkLayerTime { htype, time, addr } => DuidModel::LinkLayerTime {
                htype: *htype,
                time: *time,
                addr: addr@,
            },
            Duid::Enterprise { enterprise, id } => DuidModel::Enterprise {
                enterprise: *enterprise,
                id: id@,
            },
            Duid::LinkLayer { htype, addr } => DuidModel::LinkLayer { htype: *htype, addr: addr@ },
            Duid::Uuid(uuid) => DuidModel::Uuid(uuid@),
            Duid::Unknown { kind, bytes } => DuidModel::Unknown { kind: *kind, bytes: bytes@ },
        }
    }
}

impl Duid {
    /// Reads the identifier that the bytes `body` are.
    pub fn read(body: &[u8]) -> (r: DecodeResult<Duid>)
        ensures
            match duid_in(body@) {
                Ok(duid) => r matches Ok(d) && d@ == duid,
                Err(e) => r matches Err(err) && err@ == e,
            },
    {
        if body.len() < 2 {
            return Err(DecodeError::invalid_length());
        }
        assert(body@.subrange(0, body@.len() as int) =~= body@);
        let mut decoder = Decoder::new(body);
        let kind: u16 = decoder.read_u16()?;
        Ok(
            match kind {
                1 => {
                    if body.len() < 8 {
                        return Err(DecodeError::invalid_length());
                    }
                    let htype: u16 = decoder.read_u16()?;
                    let time: u32 = decoder.read_u32()?;
                    Duid::LinkLayerTime { htype, time, addr: slice_to_vec(decoder.buffer()) }
                },
                2 => {
                    if body.len() < 6 {
                        return Err(DecodeError::invalid_length());
                    }
                    let enterprise: u32 = decoder.read_u32()?;
                    Duid::Enterprise { enterprise, id: slice_to_vec(decoder.buffer()) }
                },
                3 => {
                    if body.len() < 4 {
                        return Err(DecodeError::invalid_length());
                    }
                    let htype: u16 = decoder.read_u16()?;
                    Duid::LinkLayer { htype, addr: slice_to_vec(decoder.buffer()) }
                },
                4 => {
                    if body.len() != 18 {
                        return Err(DecodeError::invalid_length());
                    }
                    let uuid: [u8; 16] = decoder.read_array::<16>()?;
                    assert(uuid@ =~= body@.skip(2));
                    Duid::Uuid(uuid)
                },
                _ => Duid::Unknown { kind, bytes: slice_to_vec(decoder.buffer()) },
            },
        )
    }

    /// Appends the identifier: its type, then its fields.
    pub fn write<'a>(&self, e: &mut Encoder<'a>) -> (r: EncodeResult<usize>)
        ensures
            *final(final(e).buffer) == *final(old(e).buffer),
            r matches Ok(n) && n == self@.wire().len(),
            final(e).wrote(old(e), self@.wire()),
    {
        let start: usize = e.buffer.len();
        match self {
            Duid::LinkLayerTime { htype, time, addr } => {
                e.write_u16(1)?;
                e.write_u16(*htype)?;
                e.write_u32(*time)?;
                e.write(addr.as_slice())?;
            },
            Duid::Enterprise { enterprise, id } => {
                e.write_u16(2)?;
                e.write_u32(*enterprise)?;
                e.write(id.as_slice())?;
            },
            Duid::LinkLayer { htype, addr } => {
                e.write_u16(3)?;
                e.write_u16(*htype)?;
                e.write(addr.as_slice())?;
            },
            Duid::Uuid(uuid) => {
                e.write_u16(4)?;
                e.write(uuid.as_slice())?;
            },
            Duid::Unknown { kind, bytes } => {
                e.write_u16(*kind)?;
                e.write(bytes.as_slice())?;
            },
        }
        assert(e.buffer@ =~= old(e).buffer@ + self@.wire());
        Ok(e.buffer.len() - start)
    }
}

/// A DHCPv6 option. Options that stand inside the body of another are
/// kept as their bytes.
#[derive(Debug, Clone, PartialEq, Eq)]
pub enum DhcpOption {
    /// 1: Client identifier
    ClientId(Duid),
    /// 2: Server identifier
    ServerId(Duid),
    /// 3: Identity association for non-temporary addresses
    IANA { iaid: u32, t1: u32, t2: u32, options: Vec<u8> },
    /// 4: Identity association for temporary addresses
    IATA { iaid: u32, options: Vec<u8> },
    /// 5: Address of an identity association
    IAAddr { addr: Ipv6Addr, preferred: u32, valid: u32, options: Vec<u8> },
    /// 6: Option request
    ORO(Vec<u16>),
    /// 7: Preference
    Preference(u8),
    /// 8: Elapsed time
    ElapsedTime(u16),
    /// 9: Relay message
    RelayMsg(Vec<u8>),
    /// 11: Authentication
    Authentication { proto: u8, algo: u8, rdm: u8, replay: u64, info: Vec<u8> },
    /// 12: Server unicast
    ServerUnicast(Ipv6Addr),
    /// 13: Status code
    StatusCode { code: u16, message: String },
    /// 14: Rapid commit
    RapidCommit,
    /// 15: User class
    UserClass(Vec<u8>),
    /// 16: Vendor class
    VendorClass { enterprise: u32, data: Vec<u8> },
    /// 17: Vendor-specific information
    VendorOpts { enterprise: u32, data: Vec<u8> },
    /// 18: Interface id
    InterfaceId(Vec<u8>),
    /// 19: Reconfigure message
    ReconfMsg(MessageType),
    /// 20: Reconfigure accept
    ReconfAccept,
    /// An option whose code has no variant of its own
    Unknown(UnknownOption),
}

/// Appends each number of `codes` as two bytes, most significant first.
fn write_codes<'a>(e: &mut Encoder<'a>, codes: &[u16]) -> (r: EncodeResult<usize>)
    ensures
        *final(final(e).buffer) == *final(old(e).buffer),
        match r {
            Ok(n) => n == 2 * codes@.len() && final(e).wrote(old(e), be16s(codes@)),
            Err(err) => err is AddOverflow && 2 * codes@.len() > usize::MAX && final(e).buffer@
                == old(e).buffer@,
        },
{
    let total: usize = match codes.len().checked_mul(2) {
        Some(total) => total,
        None => {
            return Err(EncodeError::AddOverflow);
        },
    };
    let mut i: usize = 0;
    assert(e.buffer@ =~= old(e).buffer@ + be16s(codes@.take(0)));
    while i < codes.len()
        invariant
            i <= codes@.len(),
            e.buffer@ == old(e).buffer@ + be16s(codes@.take(i as int)),
            *final(e.buffer) == *final(old(e).buffer),
        decreases codes@.len() - i,
    {
        let ghost before = e.buffer@;
        let code: u16 = codes[i];
        let _ = e.write_u16(code);
        i = i + 1;
        assert(e.buffer@ =~= old(e).buffer@ + be16s(codes@.take(i as int))) by {
            assert(be16s(codes@.take(i as int)) =~= be16s(codes@.take(i - 1)) + crate::wire::be16(
                code,
            ));
        }
    }
    assert(codes@.take(codes@.len() as int) =~= codes@);
    Ok(total)
}

/// Reads a body that is a list of 16-bit numbers.
fn read_codes(body: &[u8]) -> (r: DecodeResult<Vec<u16>>)
    ensures
        match r {
            Ok(codes) => body@.len() % 2 == 0 && codes@ == u16s_of(body@),
            Err(e) => body@.len() % 2 != 0 && e@ == invalid_length(),
        },
{
    if body.len() % 2 != 0 {
        return Err(DecodeError::invalid_length());
    }
    let count: usize = body.len() / 2;
    let mut codes: Vec<u16> = Vec::new();
    let mut i: usize = 0;
    while i < count
        invariant
            i <= count,
            count == body@.len() / 2,
            body@.len() <= usize::MAX,
            codes@.len() == i,
            forall|j: int| 0 <= j < i ==> codes@[j] == crate::wire::u16_at(body@, 2 * j),
        decreases count - i,
    {
        codes.push(u16_from_be(body[2 * i], body[2 * i + 1]));
        i = i + 1;
    }
    assert(codes@ =~= u16s_of(body@));
    Ok(codes)
}

impl DhcpOption {
    /// The code of this option.
    pub open spec fn spec_code(&self) -> OptionCode {
        match self {
            DhcpOption::ClientId(_) => OptionCode::ClientId,
            DhcpOption::ServerId(_) => OptionCode::ServerId,
            DhcpOption::IANA { .. } => OptionCode::IANA,
            DhcpOption::IATA { .. } => OptionCode::IATA,
            DhcpOption::IAAddr { .. } => OptionCode::IAAddr,
            DhcpOption::ORO(_) => OptionCode::ORO,
            DhcpOption::Preference(_) => OptionCode::Preference,
            DhcpOption::ElapsedTime(_) => OptionCode::ElapsedTime,
            DhcpOption::RelayMsg(_) => OptionCode::RelayMsg,
            DhcpOption::Authentication { .. } => OptionCode::Authentication,
            DhcpOption::ServerUnicast(_) => OptionCode::ServerUnicast,
            DhcpOption::StatusCode { .. } => OptionCode::StatusCode,
            DhcpOption::RapidCommit => OptionCode::RapidCommit,
            DhcpOption::UserClass(_) => OptionCode::UserClass,
            DhcpOption::VendorClass { .. } => OptionCode::VendorClass,
            DhcpOption::VendorOpts { .. } => OptionCode::VendorOpts,
            DhcpOption::InterfaceId(_) => OptionCode::InterfaceId,
            DhcpOption::ReconfMsg(_) => OptionCode::ReconfMsg,
            DhcpOption::ReconfAccept => OptionCode::ReconfAccept,
            DhcpOption::Unknown(unknown) => OptionCode::Unknown(unknown@.0),
        }
    }

    /// The body of this option.
    pub open spec fn value(&self) -> OptionValue {
        match self {
            DhcpOption::ClientId(v) => OptionValue::Duid(v@),
            DhcpOption::ServerId(v) => OptionValue::Duid(v@),
            DhcpOption::IANA { iaid, t1, t2, options } => OptionValue::IaNa {
                iaid: *iaid,
                t1: *t1,
                t2: *t2,
                options: options@,
            },
            DhcpOption::IATA { iaid, options } => OptionValue::IaTa {
                iaid: *iaid,
                options: options@,
            },
            DhcpOption::IAAddr { addr, preferred, valid, options } => OptionValue::IaAddr {
                addr: addr@,
                preferred: *preferred,
                valid: *valid,
                options: options@,
            },
            DhcpOption::ORO(v) => OptionValue::Codes(v@),
            DhcpOption::Preference(v) => OptionValue::U8(*v),
            DhcpOption::ElapsedTime(v) => OptionValue::U16(*v),
            DhcpOption::RelayMsg(v) => OptionValue::Bytes(v@),
            DhcpOption::Authentication { proto, algo, rdm, replay, info } => OptionValue::Auth {
                proto: *proto,
                algo: *algo,
                rdm: *rdm,
                replay: *replay,
                info: info@,
            },
            DhcpOption::ServerUnicast(v) => OptionValue::Addr(v@),
            DhcpOption::StatusCode { code, message } => OptionValue::Status {
                code: *code,
                message: message@,
            },
            DhcpOption::RapidCommit => OptionValue::Empty,
            DhcpOption::UserClass(v) => OptionValue::Bytes(v@),
            DhcpOption::VendorClass { enterprise, data } => OptionValue::Vendor {
                enterprise: *enterprise,
                data: data@,
            },
            DhcpOption::VendorOpts { enterprise, data } => OptionValue::Vendor {
                enterprise: *enterprise,
                data: data@,
            },
            DhcpOption::InterfaceId(v) => OptionValue::Bytes(v@),
            DhcpOption::ReconfMsg(v) => OptionValue::Kind(*v),
            DhcpOption::ReconfAccept => OptionValue::Empty,
            DhcpOption::Unknown(unknown) => OptionValue::Raw(unknown@.1),
        }
    }

    /// The code of this option.
    pub fn code(&self) -> (code: OptionCode)
        ensures
            code == self.spec_code(),
    {
        match self {
            DhcpOption::ClientId(_) => OptionCode::ClientId,
            DhcpOption::ServerId(_) => OptionCode::ServerId,
            DhcpOption::IANA { .. } => OptionCode::IANA,
            DhcpOption::IATA { .. } => OptionCode::IATA,
            DhcpOption::IAAddr { .. } => OptionCode::IAAddr,
            DhcpOption::ORO(_) => OptionCode::ORO,
            DhcpOption::Preference(_) => OptionCode::Preference,
            DhcpOption::ElapsedTime(_) => OptionCode::ElapsedTime,
            DhcpOption::RelayMsg(_) => OptionCode::RelayMsg,
            DhcpOption::Authentication { .. } => OptionCode::Authentication,
            DhcpOption::ServerUnicast(_) => OptionCode::ServerUnicast,
            DhcpOption::StatusCode { .. } => OptionCode::StatusCode,
            DhcpOption::RapidCommit => OptionCode::RapidCommit,
            DhcpOption::UserClass(_) => OptionCode::UserClass,
            DhcpOption::VendorClass { .. } => OptionCode::VendorClass,
            DhcpOption::VendorOpts { .. } => OptionCode::VendorOpts,
            DhcpOption::InterfaceId(_) => OptionCode::InterfaceId,
            DhcpOption::ReconfMsg(_) => OptionCode::ReconfMsg,
            DhcpOption::ReconfAccept => OptionCode::ReconfAccept,
            DhcpOption::Unknown(unknown) => OptionCode::Unknown(unknown.code()),
        }
    }

    /// Appends the body of this option, without code and length.
    fn write_body<'a>(&self, e: &mut Encoder<'a>) -> (r: EncodeResult<usize>)
        ensures
            *final(final(e).buffer) == *final(old(e).buffer),
            match r {
                Ok(n) => final(e).wrote(old(e), self.value().wire()),
                Err(err) => err is AddOverflow && self.value().wire().len() > usize::MAX
                    && final(e).buffer@ == old(e).buffer@,
            },
    {
        match self {
            DhcpOption::ClientId(duid) | DhcpOption::ServerId(duid) => duid.write(e),
            DhcpOption::RelayMsg(v) | DhcpOption::UserClass(v) | DhcpOption::InterfaceId(v) => {
                e.write(v.as_slice())
            },
            DhcpOption::IANA { iaid, t1, t2, options } => {
                e.write_u32(*iaid)?;
                e.write_u32(*t1)?;
                e.write_u32(*t2)?;
                let r = e.write(options.as_slice());
                assert(e.buffer@ =~= old(e).buffer@ + self.value().wire());
                r
            },
            DhcpOption::IATA { iaid, options } => {
                e.write_u32(*iaid)?;
                let r = e.write(options.as_slice());
                assert(e.buffer@ =~= old(e).buffer@ + self.value().wire());
                r
            },
            DhcpOption::IAAddr { addr, preferred, valid, options } => {
                e.write(addr.octets.as_slice())?;
                e.write_u32(*preferred)?;
                e.write_u32(*valid)?;
                let r = e.write(options.as_slice());
                assert(e.buffer@ =~= old(e).buffer@ + self.value().wire());
                r
            },
            DhcpOption::ORO(codes) => write_codes(e, codes.as_slice()),
            DhcpOption::Preference(v) => e.write_u8(*v),
            DhcpOption::ElapsedTime(v) => e.write_u16(*v),
            DhcpOption::Authentication { proto, algo, rdm, replay, info } => {
                e.write_u8(*proto)?;
                e.write_u8(*algo)?;
                e.write_u8(*rdm)?;
                e.write_u32((*replay / 0x1_0000_0000) as u32)?;
                e.write_u32((*replay % 0x1_0000_0000) as u32)?;
                let r = e.write(info.as_slice());
                assert(e.buffer@ =~= old(e).buffer@ + self.value().wire());
                r
            },
            DhcpOption::ServerUnicast(addr) => e.write(addr.octets.as_slice()),
            DhcpOption::StatusCode { code, message } => {
                e.write_u16(*code)?;
                let r = e.write_string(message.as_str());
                assert(e.buffer@ =~= old(e).buffer@ + self.value().wire());
                r
            },
            DhcpOption::RapidCommit | DhcpOption::ReconfAccept => {
                assert(e.buffer@ =~= old(e).buffer@ + Seq::<u8>::empty());
                Ok(0)
            },
            DhcpOption::VendorClass { enterprise, data } | DhcpOption::VendorOpts {
                enterprise,
                data,
            } => {
                e.write_u32(*enterprise)?;
                let r = e.write(data.as_slice());
                assert(e.buffer@ =~= old(e).buffer@ + self.value().wire());
                r
            },
            DhcpOption::ReconfMsg(kind) => e.write_u8(u8::from(*kind)),
            DhcpOption::Unknown(unknown) => e.write(unknown.bytes()),
        }
    }
}

impl View for DhcpOption {
    type V = OptionModel;

    open spec fn view(&self) -> OptionModel {
        OptionModel { code: number_of(self.spec_code()), value: self.value() }
    }
}

impl From<&DhcpOption> for OptionCode {
    fn from(option: &DhcpOption) -> (code: OptionCode) {
        option.code()
    }
}

impl FromSpecImpl<&DhcpOption> for OptionCode {
    open spec fn obeys_from_spec() -> bool {
        true
    }

    open spec fn from_spec(option: &DhcpOption) -> OptionCode {
        option.spec_code()
    }
}

/// Reads the body of the option with the code `code`.
fn read_body(code: u16, body: &[u8]) -> (r: DecodeResult<DhcpOption>)
    ensures
        match parse_body(code, body@) {
            Ok(value) => r matches Ok(option) && option@ == (OptionModel { code, value }),
            Err(e) => r matches Err(err) && err@ == e,
        },
{
    proof {
        crate::v6::code::lemma_option_code_round_trip(code);
    }
    assert(body@.subrange(0, body@.len() as int) =~= body@);
    let mut decoder = Decoder::new(body);
    Ok(
        match OptionCode::from(code) {
            OptionCode::ClientId => DhcpOption::ClientId(Duid::read(body)?),
            OptionCode::ServerId => DhcpOption::ServerId(Duid::read(body)?),
            OptionCode::IANA => {
                if body.len() < 12 {
                    return Err(DecodeError::invalid_length());
                }
                let iaid: u32 = decoder.read_u32()?;
                let t1: u32 = decoder.read_u32()?;
                let t2: u32 = decoder.read_u32()?;
                DhcpOption::IANA { iaid, t1, t2, options: slice_to_vec(decoder.buffer()) }
            },
            OptionCode::IATA => {
                if body.len() < 4 {
                    return Err(DecodeError::invalid_length());
                }
                let iaid: u32 = decoder.read_u32()?;
                DhcpOption::IATA { iaid, options: slice_to_vec(decoder.buffer()) }
            },
            OptionCode::IAAddr => {
                if body.len() < 24 {
                    return Err(DecodeError::invalid_length());
                }
                let addr = Ipv6Addr::new(decoder.read_array::<16>()?);
                let preferred: u32 = decoder.read_u32()?;
                let valid: u32 = decoder.read_u32()?;
                DhcpOption::IAAddr {
                    addr,
                    preferred,
                    valid,
                    options: slice_to_vec(decoder.buffer()),
                }
            },
            OptionCode::ORO => DhcpOption::ORO(read_codes(body)?),
            OptionCode::Preference => {
                if body.len() != 1 {
                    return Err(DecodeError::invalid_length());
                }
                DhcpOption::Preference(decoder.read_u8()?)
            },
            OptionCode::ElapsedTime => {
                if body.len() != 2 {
                    return Err(DecodeError::invalid_length());
                }
                DhcpOption::ElapsedTime(decoder.read_u16()?)
            },
            OptionCode::RelayMsg => DhcpOption::RelayMsg(slice_to_vec(body)),
            OptionCode::Authentication => {
                if body.len() < 11 {
                    return Err(DecodeError::invalid_length());
                }
                let proto: u8 = decoder.read_u8()?;
                let algo: u8 = decoder.read_u8()?;
                let rdm: u8 = decoder.read_u8()?;
                let high: u32 = decoder.read_u32()?;
                let low: u32 = decoder.read_u32()?;
                DhcpOption::Authentication {
                    proto,
                    algo,
                    rdm,
                    replay: u64_from_be(high, low),
                    info: slice_to_vec(decoder.buffer()),
                }
            },
            OptionCode::ServerUnicast => {
                if body.len() != 16 {
                    return Err(DecodeError::invalid_length());
                }
                DhcpOption::ServerUnicast(Ipv6Addr::new(decoder.read_array::<16>()?))
            },
            OptionCode::StatusCode => {
                if body.len() < 2 {
                    return Err(DecodeError::invalid_length());
                }
                let code: u16 = decoder.read_u16()?;
                assert(body@.subrange(2, body@.len() as int) =~= body@.skip(2));
                let message = decoder.read_string(body.len() - 2)?;
                DhcpOption::StatusCode { code, message }
            },
            OptionCode::RapidCommit => {
                if body.len() != 0 {
                    return Err(DecodeError::invalid_length());
                }
                DhcpOption::RapidCommit
            },
            OptionCode::UserClass => DhcpOption::UserClass(slice_to_vec(body)),
            OptionCode::VendorClass => {
                if body.len() < 4 {
                    return Err(DecodeError::invalid_length());
                }
                let enterprise: u32 = decoder.read_u32()?;
                DhcpOption::VendorClass { enterprise, data: slice_to_vec(decoder.buffer()) }
            },
            OptionCode::VendorOpts => {
                if body.len() < 4 {
                    return Err(DecodeError::invalid_length());
                }
                let enterprise: u32 = decoder.read_u32()?;
                DhcpOption::VendorOpts { enterprise, data: slice_to_vec(decoder.buffer()) }
            },
            OptionCode::InterfaceId => DhcpOption::InterfaceId(slice_to_vec(body)),
            OptionCode::ReconfMsg => {
                if body.len() != 1 {
                    return Err(DecodeError::invalid_length());
                }
                DhcpOption::ReconfMsg(MessageType::from(decoder.read_u8()?))
            },
            OptionCode::ReconfAccept => {
                if body.len() != 0 {
                    return Err(DecodeError::invalid_length());
                }
                DhcpOption::ReconfAccept
            },
            OptionCode::Unknown(code) => DhcpOption::Unknown(
                UnknownOption::new(code, slice_to_vec(body)),
            ),
        },
    )
}

impl Decodable for DhcpOption {
    open spec fn parse(bytes: Seq<u8>, index: int) -> Result<(OptionModel, int), DecodeFault> {
        parse_option(bytes, index)
    }

    /// Reads one option: its code, its length and its body.
    fn decode<'a>(decoder: &mut Decoder<'a>) -> (r: DecodeResult<DhcpOption>) {
        let start: usize = decoder.index();
        let code: u16 = decoder.read_u16()?;
        let length: u16 = match decoder.read_u16() {
            Ok(length) => length,
            Err(e) => {
                decoder.rewind(start);
                return Err(e);
            },
        };
        let body: &[u8] = match decoder.read_slice(length as usize) {
            Ok(body) => body,
            Err(e) => {
                decoder.rewind(start);
                return Err(e);
            },
        };
        match read_body(code, body) {
            Ok(option) => Ok(option),
            Err(e) => {
                decoder.rewind(start);
                Err(e)
            },
        }
    }
}

impl Encodable for DhcpOption {
    open spec fn wire(&self) -> Seq<u8> {
        self@.wire()
    }

    open spec fn encodable(&self) -> bool {
        self@.encodable()
    }

    /// Appends the code, the length of the body and the body.
    fn encode<'a>(&self, e: &mut Encoder<'a>) -> (r: EncodeResult<usize>) {
        let code: u16 = u16::from(self.code());
        let mut body: Vec<u8> = Vec::new();
        let mut sink = Encoder::new(&mut body);
        let written: EncodeResult<usize> = self.write_body(&mut sink);
        if written.is_err() || body.len() > 0xffff {
            return Err(EncodeError::AddOverflow);
        }
        assert(body@ =~= self.value().wire());
        let ghost before = e.buffer@;
        e.write_u16(code)?;
        e.write_u16(body.len() as u16)?;
        e.write(body.as_slice())?;
        assert(e.buffer@ =~= before + self@.wire());
        Ok(4 + body.len())
    }
}

} // verus!
