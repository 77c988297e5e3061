//! What a DHCPv6 option is, as mathematics: a code and a typed body, the
//! bytes that stand for it, and the option that bytes stand for.

use crate::decoder::{strip_nul, take, text_in};
use crate::error::{invalid_length, DecodeFault};
use crate::v6::code::{byte_of_message_type, code_of, message_type_of, MessageType, OptionCode};
use crate::wire::{be16, be16s, be32, be64, u16_at, u16s_of, u32_at, u64_at};
use vstd::prelude::*;
use vstd::utf8::encode_utf8;

verus! {

/// A unique identifier of a client or a server.
pub enum DuidModel {
    /// 1: a link-layer address, and the time at which the identifier was
    /// made.
    LinkLayerTime { htype: u16, time: u32, addr: Seq<u8> },
    /// 2: an identifier that a vendor gave, and the enterprise number of
    /// the vendor.
    Enterprise { enterprise: u32, id: Seq<u8> },
    /// 3: a link-layer address.
    LinkLayer { htype: u16, addr: Seq<u8> },
    /// 4: a universally unique identifier, sixteen bytes.
    Uuid(Seq<u8>),
    /// An identifier of another type, kept as it came.
    Unknown { kind: u16, bytes: Seq<u8> },
}

impl DuidModel {
    /// The bytes of the identifier on the wire: its type, then its fields.
    pub open spec fn wire(self) -> Seq<u8> {
        match self {
            DuidModel::LinkLayerTime { htype, time, addr } => be16(1) + be16(htype) + be32(time)
                + addr,
            DuidModel::Enterprise { enterprise, id } => be16(2) + be32(enterprise) + id,
            DuidModel::LinkLayer { htype, addr } => be16(3) + be16(htype) + addr,
            DuidModel::Uuid(uuid) => be16(4) + uuid,
            DuidModel::Unknown { kind, bytes } => be16(kind) + bytes,
        }
    }

    /// Whether reading the bytes of the identifier gives it back: a
    /// universally unique identifier has sixteen bytes, and an identifier
    /// of another type does not have a known type.
    pub open spec fn canonical(self) -> bool {
        match self {
            DuidModel::Uuid(uuid) => uuid.len() == 16,
            DuidModel::Unknown { kind, .. } => kind == 0 || kind > 4,
            _ => true,
        }
    }
}

/// The identifier that the bytes `body` are.
pub open spec fn duid_in(body: Seq<u8>) -> Result<DuidModel, DecodeFault> {
    if body.len() < 2 {
        Err(invalid_length())
    } else if u16_at(body, 0) == 1 {
        if body.len() >= 8 {
            Ok(
                DuidModel::LinkLayerTime {
                    htype: u16_at(body, 2),
                    time: u32_at(body, 4),
                    addr: body.skip(8),
                },
            )
        } else {
            Err(invalid_length())
        }
    } else if u16_at(body, 0) == 2 {
        if body.len() >= 6 {
            Ok(DuidModel::Enterprise { enterprise: u32_at(body, 2), id: body.skip(6) })
        } else {
            Err(invalid_length())
        }
    } else if u16_at(body, 0) == 3 {
        if body.len() >= 4 {
            Ok(DuidModel::LinkLayer { htype: u16_at(body, 2), addr: body.skip(4) })
        } else {
            Err(invalid_length())
        }
    } else if u16_at(body, 0) == 4 {
        if body.len() == 18 {
            Ok(DuidModel::Uuid(body.skip(2)))
        } else {
            Err(invalid_length())
        }
    } else {
        Ok(DuidModel::Unknown { kind: u16_at(body, 0), bytes: body.skip(2) })
    }
}

/// The forms that the body of an option takes.
pub enum Shape {
    /// A unique identifier of a client or a server.
    Duid,
    /// Bytes with no further structure.
    Bytes,
    /// An identity association for non-temporary addresses.
    IaNa,
    /// An identity association for temporary addresses.
    IaTa,
    /// An address of an identity association.
    IaAddr,
    /// A list of option codes.
    Codes,
    /// An unsigned 8-bit number.
    U8,
    /// An unsigned 16-bit number.
    U16,
    /// Authentication.
    Auth,
    /// One IPv6 address.
    Addr,
    /// A status code and its message.
    Status,
    /// No body.
    Empty,
    /// An enterprise number and bytes.
    Vendor,
    /// A message type in one octet.
    Kind,
    /// The body of a code that has no variant of its own, kept as it came.
    Raw,
}

/// The body of an option. Options inside a body are kept as their bytes.
pub enum OptionValue {
    Duid(DuidModel),
    Bytes(Seq<u8>),
    IaNa { iaid: u32, t1: u32, t2: u32, options: Seq<u8> },
    IaTa { iaid: u32, options: Seq<u8> },
    IaAddr { addr: Seq<u8>, preferred: u32, valid: u32, options: Seq<u8> },
    Codes(Seq<u16>),
    U8(u8),
    U16(u16),
    Auth { proto: u8, algo: u8, rdm: u8, replay: u64, info: Seq<u8> },
    Addr(Seq<u8>),
    Status { code: u16, message: Seq<char> },
    Empty,
    Vendor { enterprise: u32, data: Seq<u8> },
    Kind(MessageType),
    Raw(Seq<u8>),
}

/// An option: the number of its code, and its body.
pub struct OptionModel {
    pub code: u16,
    pub value: OptionValue,
}

/// The form of the body that follows the code `code`.
pub open spec fn shape_of(code: u16) -> Shape {
    match code_of(code) {
        OptionCode::ClientId | OptionCode::ServerId => Shape::Duid,
        OptionCode::RelayMsg | OptionCode::UserClass | OptionCode::InterfaceId => Shape::Bytes,
        OptionCode::IANA => Shape::IaNa,
        OptionCode::IATA => Shape::IaTa,
        OptionCode::IAAddr => Shape::IaAddr,
        OptionCode::ORO => Shape::Codes,
        OptionCode::Preference => Shape::U8,
        OptionCode::ElapsedTime => Shape::U16,
        OptionCode::Authentication => Shape::Auth,
        OptionCode::ServerUnicast => Shape::Addr,
        OptionCode::StatusCode => Shape::Status,
        OptionCode::RapidCommit | OptionCode::ReconfAccept => Shape::Empty,
        OptionCode::VendorClass | OptionCode::VendorOpts => Shape::Vendor,
        OptionCode::ReconfMsg => Shape::Kind,
        OptionCode::Unknown(_) => Shape::Raw,
    }
}

impl OptionValue {
    /// The form of this body.
    pub open spec fn shape(self) -> Shape {
        match self {
            OptionValue::Duid(_) => Shape::Duid,
            OptionValue::Bytes(_) => Shape::Bytes,
            OptionValue::IaNa { .. } => Shape::IaNa,
            OptionValue::IaTa { .. } => Shape::IaTa,
            OptionValue::IaAddr { .. } => Shape::IaAddr,
            OptionValue::Codes(_) => Shape::Codes,
            OptionValue::U8(_) => Shape::U8,
            OptionValue::U16(_) => Shape::U16,
            OptionValue::Auth { .. } => Shape::Auth,
            OptionValue::Addr(_) => Shape::Addr,
            OptionValue::Status { .. } => Shape::Status,
            OptionValue::Empty => Shape::Empty,
            OptionValue::Vendor { .. } => Shape::Vendor,
            OptionValue::Kind(_) => Shape::Kind,
            OptionValue::Raw(_) => Shape::Raw,
        }
    }

    /// The bytes of this body on the wire, without code and length.
    pub open spec fn wire(self) -> Seq<u8> {
        match self {
            OptionValue::Duid(duid) => duid.wire(),
            OptionValue::Bytes(bytes) => bytes,
            OptionValue::IaNa { iaid, t1, t2, options } => be32(iaid) + be32(t1) + be32(t2)
                + options,
            OptionValue::IaTa { iaid, options } => be32(iaid) + options,
            OptionValue::IaAddr { addr, preferred, valid, options } => addr + be32(preferred)
                + be32(valid) + options,
            OptionValue::Codes(codes) => be16s(codes),
            OptionValue::U8(v) => seq![v],
            OptionValue::U16(v) => be16(v),
            OptionValue::Auth { proto, algo, rdm, replay, info } => seq![proto, algo, rdm] + be64(
                replay,
            ) + info,
            OptionValue::Addr(addr) => addr,
            OptionValue::Status { code, message } => be16(code) + encode_utf8(message),
            OptionValue::Empty => Seq::empty(),
            OptionValue::Vendor { enterprise, data } => be32(enterprise) + data,
            OptionValue::Kind(kind) => seq![byte_of_message_type(kind)],
            OptionValue::Raw(bytes) => bytes,
        }
    }

    /// Whether reading the bytes of this body gives the body back: an
    /// identifier reads back, an address has sixteen bytes, the message of
    /// a status does not end in NUL, and a message type is not an unknown
    /// one with a known byte.
    pub open spec fn canonical(self) -> bool {
        match self {
            OptionValue::Duid(duid) => duid.canonical(),
            OptionValue::IaAddr { addr, .. } => addr.len() == 16,
            OptionValue::Addr(addr) => addr.len() == 16,
            OptionValue::Status { message, .. } => strip_nul(encode_utf8(message)) == encode_utf8(
                message,
            ),
            OptionValue::Kind(kind) => message_type_of(byte_of_message_type(kind)) == kind,
            _ => true,
        }
    }
}

impl OptionModel {
    /// The bytes of this option on the wire: the code and the length of the
    /// body, two bytes each, and the body.
    pub open spec fn wire(self) -> Seq<u8> {
        be16(self.code) + be16(self.value.wire().len() as u16) + self.value.wire()
    }

    /// Whether the length of the body fits the two bytes of the length.
    pub open spec fn encodable(self) -> bool {
        self.value.wire().len() <= 0xffff
    }

    /// Whether this option is one that a read can give: its body has the
    /// form that its code calls for, fits the length, and reads back as
    /// itself.
    pub open spec fn valid(self) -> bool {
        &&& self.value.shape() == shape_of(self.code)
        &&& self.encodable()
        &&& self.value.canonical()
    }
}

/// The body that the bytes `body` are under the code `code`.
pub open spec fn parse_body(code: u16, body: Seq<u8>) -> Result<OptionValue, DecodeFault> {
    match shape_of(code) {
        Shape::Duid => match duid_in(body) {
            Ok(duid) => Ok(OptionValue::Duid(duid)),
            Err(e) => Err(e),
        },
        Shape::Bytes => Ok(OptionValue::Bytes(body)),
        Shape::IaNa => if body.len() >= 12 {
            Ok(
                OptionValue::IaNa {
                    iaid: u32_at(body, 0),
                    t1: u32_at(body, 4),
                    t2: u32_at(body, 8),
                    options: body.skip(12),
                },
            )
        } else {
            Err(invalid_length())
        },
        Shape::IaTa => if body.len() >= 4 {
            Ok(OptionValue::IaTa { iaid: u32_at(body, 0), options: body.skip(4) })
        } else {
            Err(invalid_length())
        },
        Shape::IaAddr => if body.len() >= 24 {
            Ok(
                OptionValue::IaAddr {
                    addr: body.take(16),
                    preferred: u32_at(body, 16),
                    valid: u32_at(body, 20),
                    options: body.skip(24),
                },
            )
        } else {
            Err(invalid_length())
        },
        Shape::Codes => if body.len() % 2 == 0 {
            Ok(OptionValue::Codes(u16s_of(body)))
        } else {
            Err(invalid_length())
        },
        Shape::U8 => if body.len() == 1 {
            Ok(OptionValue::U8(body[0]))
        } else {
            Err(invalid_length())
        },
        Shape::U16 => if body.len() == 2 {
            Ok(OptionValue::U16(u16_at(body, 0)))
        } else {
            Err(invalid_length())
        },
        Shape::Auth => if body.len() >= 11 {
            Ok(
                OptionValue::Auth {
                    proto: body[0],
                    algo: body[1],
                    rdm: body[2],
                    replay: u64_at(body, 3),
                    info: body.skip(11),
                },
            )
        } else {
            Err(invalid_length())
        },
        Shape::Addr => if body.len() == 16 {
            Ok(OptionValue::Addr(body))
        } else {
            Err(invalid_length())
        },
        Shape::Status => if body.len() >= 2 {
            match text_in(body.skip(2)) {
                Ok(message) => Ok(OptionValue::Status { code: u16_at(body, 0), message }),
                Err(e) => Err(e),
            }
        } else {
            Err(invalid_length())
        },
        Shape::Empty => if body.len() == 0 {
            Ok(OptionValue::Empty)
        } else {
            Err(invalid_length())
        },
        Shape::Vendor => if body.len() >= 4 {
            Ok(OptionValue::Vendor { enterprise: u32_at(body, 0), data: body.skip(4) })
        } else {
            Err(invalid_length())
        },
        Shape::Kind => if body.len() == 1 {
            Ok(OptionValue::Kind(message_type_of(body[0])))
        } else {
            Err(invalid_length())
        },
        Shape::Raw => Ok(OptionValue::Raw(body)),
    }
}

/// The option that stands at `index` of `bytes`, and the index after it.
///
/// An option is a code and a length, two bytes each, and a body of that
/// length; a body that runs off the buffer is a failure, and so is one
/// that does not fit its code.
pub open spec fn parse_option(bytes: Seq<u8>, index: int) -> Result<(OptionModel, int), DecodeFault> {
    match take(bytes, index, 2) {
        Err(e) => Err(e),
        Ok(code) => match take(bytes, index + 2, 2) {
            Err(e) => Err(e),
            Ok(length) => match take(bytes, index + 4, u16_at(length, 0) as int) {
                Err(e) => Err(e),
                Ok(body) => match parse_body(u16_at(code, 0), body) {
                    Err(e) => Err(e),
                    Ok(value) => Ok(
                        (
                            OptionModel { code: u16_at(code, 0), value },
                            index + 4 + u16_at(length, 0),
                        ),
                    ),
                },
            },
        },
    }
}

} // verus!
