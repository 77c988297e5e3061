//! What a DHCPv4 option is, as mathematics: a code and a typed body, the
//! bytes that stand for it, and the option that bytes stand for.

use crate::addr::{ips_wire, pairs_wire, Ipv4Addr};
use crate::decoder::{ips_in, pairs_in, strip_nul, take, text_in};
use crate::error::{invalid_length, DecodeFault};
use crate::v4::code::{
    byte_of_message_type, byte_of_node_type, code_of, message_type_of, node_type_of, MessageType,
    NodeType, OptionCode,
};
use crate::wire::{be16, be32, be_i32, i32_at, u16_at, u32_at};
use vstd::prelude::*;
use vstd::utf8::encode_utf8;

verus! {

/// The forms that the body of an option takes.
pub enum Shape {
    /// No length octet and no body: padding and the end mark.
    Empty,
    /// One IPv4 address.
    Ip,
    /// A list of IPv4 addresses, at least one.
    Ips,
    /// A list of pairs of IPv4 addresses.
    Pairs,
    /// UTF-8 text.
    Text,
    /// An unsigned 8-bit number.
    U8,
    /// An unsigned 16-bit number.
    U16,
    /// An unsigned 32-bit number.
    U32,
    /// A signed 32-bit number.
    I32,
    /// A truth value in one octet.
    Flag,
    /// Bytes with no further structure.
    Bytes,
    /// A message type in one octet.
    Kind,
    /// A node type in one octet.
    Node,
    /// The body of a code that has no variant of its own, kept as it came.
    Raw,
}

/// The body of an option.
pub enum OptionValue {
    Empty,
    Ip(Ipv4Addr),
    Ips(Seq<Ipv4Addr>),
    Pairs(Seq<(Ipv4Addr, Ipv4Addr)>),
    Text(Seq<char>),
    U8(u8),
    U16(u16),
    U32(u32),
    I32(i32),
    Flag(bool),
    Bytes(Seq<u8>),
    Kind(MessageType),
    Node(NodeType),
    Raw(Seq<u8>),
}

/// An option: the byte of its code, and its body.
pub struct OptionModel {
    pub code: u8,
    pub value: OptionValue,
}

/// The form of the body that follows the code byte `code`.
pub open spec fn shape_of(code: u8) -> Shape {
    match code_of(code) {
        OptionCode::Pad | OptionCode::End => Shape::Empty,
        OptionCode::SubnetMask | OptionCode::SwapServer | OptionCode::BroadcastAddr
        | OptionCode::RouterSolicitationAddr | OptionCode::RequestedIpAddress
        | OptionCode::ServerIdentifier => Shape::Ip,
        OptionCode::Router | OptionCode::TimeServer | OptionCode::NameServer
        | OptionCode::DomainNameServer | OptionCode::LogServer | OptionCode::QuoteServer
        | OptionCode::LprServer | OptionCode::ImpressServer
        | OptionCode::ResourceLocationServer | OptionCode::NIS | OptionCode::NTPServers
        | OptionCode::NetBiosNameServers | OptionCode::NetBiosDatagramDistributionServer
        | OptionCode::XFontServer | OptionCode::XDisplayManager => Shape::Ips,
        OptionCode::StaticRoutingTable => Shape::Pairs,
        OptionCode::Hostname | OptionCode::MeritDumpFile | OptionCode::DomainName
        | OptionCode::RootPath | OptionCode::ExtensionsPath | OptionCode::NISDomain
        | OptionCode::NetBiosScope | OptionCode::Message => Shape::Text,
        OptionCode::DefaultIpTtl | OptionCode::DefaultTcpTtl | OptionCode::OptionOverload => Shape::U8,
        OptionCode::BootFileSize | OptionCode::MaxDatagramSize | OptionCode::InterfaceMtu
        | OptionCode::MaxMessageSize => Shape::U16,
        OptionCode::ArpCacheTimeout | OptionCode::TcpKeepaliveInterval
        | OptionCode::AddressLeaseTime | OptionCode::Renewal | OptionCode::Rebinding => Shape::U32,
        OptionCode::TimeOffset => Shape::I32,
        OptionCode::IpForwarding | OptionCode::NonLocalSrcRouting | OptionCode::AllSubnetsLocal
        | OptionCode::PerformMaskDiscovery | OptionCode::MaskSupplier
        | OptionCode::PerformRouterDiscovery | OptionCode::EthernetEncapsulation
        | OptionCode::TcpKeepaliveGarbage => Shape::Flag,
        OptionCode::VendorExtensions | OptionCode::ParameterRequestList
        | OptionCode::ClassIdentifier | OptionCode::ClientIdentifier => Shape::Bytes,
        OptionCode::MessageType => Shape::Kind,
        OptionCode::NetBiosNodeType => Shape::Node,
        OptionCode::Unknown(_) => Shape::Raw,
    }
}

impl OptionValue {
    /// The form of this body.
    pub open spec fn shape(self) -> Shape {
        match self {
            OptionValue::Empty => Shape::Empty,
            OptionValue::Ip(_) => Shape::Ip,
            OptionValue::Ips(_) => Shape::Ips,
            OptionValue::Pairs(_) => Shape::Pairs,
            OptionValue::Text(_) => Shape::Text,
            OptionValue::U8(_) => Shape::U8,
            OptionValue::U16(_) => Shape::U16,
            OptionValue::U32(_) => Shape::U32,
            OptionValue::I32(_) => Shape::I32,
            OptionValue::Flag(_) => Shape::Flag,
            OptionValue::Bytes(_) => Shape::Bytes,
            OptionValue::Kind(_) => Shape::Kind,
            OptionValue::Node(_) => Shape::Node,
            OptionValue::Raw(_) => Shape::Raw,
        }
    }

    /// The bytes of this body on the wire, without code and length.
    pub open spec fn wire(self) -> Seq<u8> {
        match self {
            OptionValue::Empty => Seq::empty(),
            OptionValue::Ip(ip) => ip.wire(),
            OptionValue::Ips(ips) => ips_wire(ips),
            OptionValue::Pairs(pairs) => pairs_wire(pairs),
            OptionValue::Text(text) => encode_utf8(text),
            OptionValue::U8(v) => seq![v],
            OptionValue::U16(v) => be16(v),
            OptionValue::U32(v) => be32(v),
            OptionValue::I32(v) => be_i32(v),
            OptionValue::Flag(b) => seq![if b { 1u8 } else { 0u8 }],
            OptionValue::Bytes(bytes) => bytes,
            OptionValue::Kind(kind) => seq![byte_of_message_type(kind)],
            OptionValue::Node(node) => seq![byte_of_node_type(node)],
            OptionValue::Raw(bytes) => bytes,
        }
    }

    /// Whether reading the bytes of this body gives the body back: a list
    /// of addresses is not empty, text does not end in NUL, and a message
    /// type or node type is not an unknown one with a known byte.
    pub open spec fn canonical(self) -> bool {
        match self {
            OptionValue::Ips(ips) => ips.len() > 0,
            OptionValue::Text(text) => strip_nul(encode_utf8(text)) == encode_utf8(text),
            OptionValue::Kind(kind) => message_type_of(byte_of_message_type(kind)) == kind,
            OptionValue::Node(node) => node_type_of(byte_of_node_type(node)) == node,
            _ => true,
        }
    }
}

impl OptionModel {
    /// The bytes of this option on the wire: the code, and for all but
    /// padding and the end mark the length of the body and the body.
    pub open spec fn wire(self) -> Seq<u8> {
        if self.value is Empty {
            seq![self.code]
        } else {
            seq![self.code, self.value.wire().len() as u8] + self.value.wire()
        }
    }

    /// Whether the length of the body fits the length octet.
    pub open spec fn encodable(self) -> bool {
        self.value.wire().len() <= 255
    }

    /// Whether this option is one that a read can give: its body has the
    /// form that its code calls for, fits the length octet, and reads back
    /// as itself.
    pub open spec fn valid(self) -> bool {
        &&& self.value.shape() == shape_of(self.code)
        &&& self.encodable()
        &&& self.value.canonical()
    }
}

/// The body that the bytes `body` are under the code byte `code`.
pub open spec fn parse_body(code: u8, body: Seq<u8>) -> Result<OptionValue, DecodeFault> {
    match shape_of(code) {
        Shape::Empty => Ok(OptionValue::Empty),
        Shape::Ip => if body.len() == 4 {
            Ok(OptionValue::Ip(Ipv4Addr::at(body, 0)))
        } else {
            Err(invalid_length())
        },
        Shape::Ips => match ips_in(body) {
            Ok(ips) => Ok(OptionValue::Ips(ips)),
            Err(e) => Err(e),
        },
        Shape::Pairs => match pairs_in(body) {
            Ok(pairs) => Ok(OptionValue::Pairs(pairs)),
            Err(e) => Err(e),
        },
        Shape::Text => match text_in(body) {
            Ok(text) => Ok(OptionValue::Text(text)),
            Err(e) => Err(e),
        },
        Shape::U8 => if body.len() == 1 {
            Ok(OptionValue::U8(body[0]))
        } else {
            Err(invalid_length())
        },
        Shape::U16 => if body.len() == 2 {
            Ok(OptionValue::U16(u16_at(body, 0)))
        } else {
            Err(invalid_length())
        },
        Shape::U32 => if body.len() == 4 {
            Ok(OptionValue::U32(u32_at(body, 0)))
        } else {
            Err(invalid_length())
        },
        Shape::I32 => if body.len() == 4 {
            Ok(OptionValue::I32(i32_at(body, 0)))
        } else {
            Err(invalid_length())
        },
        Shape::Flag => if body.len() == 1 {
            Ok(OptionValue::Flag(body[0] != 0))
        } else {
            Err(invalid_length())
        },
        Shape::Bytes => Ok(OptionValue::Bytes(body)),
        Shape::Kind => if body.len() == 1 {
            Ok(OptionValue::Kind(message_type_of(body[0])))
        } else {
            Err(invalid_length())
        },
        Shape::Node => if body.len() == 1 {
            Ok(OptionValue::Node(node_type_of(body[0])))
        } else {
            Err(invalid_length())
        },
        Shape::Raw => Ok(OptionValue::Raw(body)),
    }
}

/// The option that stands at `index` of `bytes`, and the index after it.
///
/// Padding and the end mark are one byte. Every other option is a code, a
/// length and a body of that length; a body that runs off the buffer is a
/// failure, and so is one that does not fit its code.
pub open spec fn parse_option(bytes: Seq<u8>, index: int) -> Result<(OptionModel, int), DecodeFault> {
    match take(bytes, index, 1) {
        Err(e) => Err(e),
        Ok(code) => if shape_of(code[0]) is Empty {
            Ok((OptionModel { code: code[0], value: OptionValue::Empty }, index + 1))
        } else {
            match take(bytes, index + 1, 1) {
                Err(e) => Err(e),
                Ok(length) => match take(bytes, index + 2, length[0] as int) {
                    Err(e) => Err(e),
                    Ok(body) => match parse_body(code[0], body) {
                        Err(e) => Err(e),
                        Ok(value) => Ok(
                            (OptionModel { code: code[0], value }, index + 2 + length[0]),
                        ),
                    },
                },
            }
        },
    }
}

} // verus!
