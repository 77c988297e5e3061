//! The options of DHCPv4, one variant for each code.

use crate::addr::Ipv4Addr;
use crate::decoder::{ips_in, pairs_in, text_in, Decodable, Decoder};
use crate::encoder::{Encodable, Encoder};
use crate::error::{invalid_length, DecodeError, DecodeFault, DecodeResult, EncodeError, EncodeResult};
use crate::v4::code::{byte_of, MessageType, NodeType, OptionCode};
use crate::v4::model::{parse_body, parse_option, OptionModel, OptionValue};
use crate::wire::{i32_at, i32_from_bits, u16_at, u16_from_be, u32_at, u32_from_be};
use vstd::prelude::*;
use vstd::slice::slice_to_vec;
use vstd::std_specs::convert::FromSpecImpl;

verus! {

/// An option whose code has no variant of its own, kept as it came: the
/// code, the length octet and the body.
#[derive(Debug, PartialEq, Eq)]
pub struct UnknownOption {
    code: u8,
    length: u8,
    bytes: Vec<u8>,
}

impl View for UnknownOption {
    type V = (u8, Seq<u8>);

    /// The code and the body.
    closed spec fn view(&self) -> (u8, Seq<u8>) {
        (self.code, self.bytes@)
    }
}

impl Clone for UnknownOption {
    fn clone(&self) -> (copy: UnknownOption)
        ensures
            copy@ == self@,
    {
        proof {
            use_type_invariant(self);
        }
        UnknownOption { code: self.code, length: self.length, bytes: self.bytes.clone() }
    }
}

impl UnknownOption {
    #[verifier::type_invariant]
    spec fn length_is_exact(self) -> bool {
        self.length == self.bytes@.len()
    }

    /// The option with the code `code` and the body `bytes`, if the body
    /// fits the length octet.
    pub fn new(code: u8, bytes: Vec<u8>) -> (r: Option<UnknownOption>)
        ensures
            match r {
                Some(option) => bytes@.len() <= 255 && option@ == (code, bytes@),
                None => bytes@.len() > 255,
            },
    {
        if bytes.len() > 255 {
            None
        } else {
            Some(UnknownOption { code, length: bytes.len() as u8, bytes })
        }
    }

    /// The option with the code `code` and the body `bytes`.
    pub(crate) fn kept(code: u8, bytes: Vec<u8>) -> (option: UnknownOption)
        requires
            bytes@.len() <= 255,
        ensures
            option@ == (code, bytes@),
    {
        UnknownOption { code, length: bytes.len() as u8, bytes }
    }

    /// The code.
    pub fn code(&self) -> (code: u8)
        ensures
            code == self@.0,
    {
        self.code
    }

    /// The length octet, which is the length of the body.
    pub fn length(&self) -> (length: u8)
        ensures
            length == self@.1.len(),
    {
        proof {
            use_type_invariant(self);
        }
        self.length
    }

    /// The body.
    pub fn bytes(&self) -> (bytes: &[u8])
        ensures
            bytes@ == self@.1,
            bytes@.len() <= 255,
    {
        proof {
            use_type_invariant(self);
        }
        self.bytes.as_slice()
    }
}

/// A DHCPv4 option.
#[derive(Debug, Clone, PartialEq, Eq)]
pub enum DhcpOption {
    /// 0: Padding
    Pad,
    /// 1: Subnet mask
    SubnetMask(Ipv4Addr),
    /// 2: Time offset
    TimeOffset(i32),
    /// 3: Routers
    Router(Vec<Ipv4Addr>),
    /// 4: Time servers
    TimeServer(Vec<Ipv4Addr>),
    /// 5: Name servers
    NameServer(Vec<Ipv4Addr>),
    /// 6: Domain name servers
    DomainNameServer(Vec<Ipv4Addr>),
    /// 7: Log servers
    LogServer(Vec<Ipv4Addr>),
    /// 8: Quote servers
    QuoteServer(Vec<Ipv4Addr>),
    /// 9: LPR servers
    LprServer(Vec<Ipv4Addr>),
    /// 10: Impress servers
    ImpressServer(Vec<Ipv4Addr>),
    /// 11: Resource location servers
    ResourceLocationServer(Vec<Ipv4Addr>),
    /// 12: Host name
    Hostname(String),
    /// 13: Boot file size
    BootFileSize(u16),
    /// 14: Merit dump file
    MeritDumpFile(String),
    /// 15: Domain name
    DomainName(String),
    /// 16: Swap server
    SwapServer(Ipv4Addr),
    /// 17: Root path
    RootPath(String),
    /// 18: Extensions path
    ExtensionsPath(String),
    /// 19: IP forwarding
    IpForwarding(bool),
    /// 20: Non-local source routing
    NonLocalSrcRouting(bool),
    /// 22: Maximum datagram reassembly size
    MaxDatagramSize(u16),
    /// 23: Default IP time to live
    DefaultIpTtl(u8),
    /// 26: Interface MTU
    InterfaceMtu(u16),
    /// 27: All subnets are local
    AllSubnetsLocal(bool),
    /// 28: Broadcast address
    BroadcastAddr(Ipv4Addr),
    /// 29: Perform mask discovery
    PerformMaskDiscovery(bool),
    /// 30: Mask supplier
    MaskSupplier(bool),
    /// 31: Perform router discovery
    PerformRouterDiscovery(bool),
    /// 32: Router solicitation address
    RouterSolicitationAddr(Ipv4Addr),
    /// 33: Static routing table
    StaticRoutingTable(Vec<(Ipv4Addr, Ipv4Addr)>),
    /// 35: ARP cache timeout
    ArpCacheTimeout(u32),
    /// 36: Ethernet encapsulation
    EthernetEncapsulation(bool),
    /// 37: Default TCP time to live
    DefaultTcpTtl(u8),
    /// 38: TCP keepalive interval
    TcpKeepaliveInterval(u32),
    /// 39: TCP keepalive garbage
    TcpKeepaliveGarbage(bool),
    /// 40: Network information service domain
    NISDomain(String),
    /// 41: Network information servers
    NIS(Vec<Ipv4Addr>),
    /// 42: NTP servers
    NTPServers(Vec<Ipv4Addr>),
    /// 43: Vendor extensions
    VendorExtensions(Vec<u8>),
    /// 44: NetBIOS over TCP/IP name servers
    NetBiosNameServers(Vec<Ipv4Addr>),
    /// 45: NetBIOS over TCP/IP datagram distribution servers
    NetBiosDatagramDistributionServer(Vec<Ipv4Addr>),
    /// 46: NetBIOS over TCP/IP node type
    NetBiosNodeType(NodeType),
    /// 47: NetBIOS over TCP/IP scope
    NetBiosScope(String),
    /// 48: X Window System font servers
    XFontServer(Vec<Ipv4Addr>),
    /// 49: X Window System display managers
    XDisplayManager(Vec<Ipv4Addr>),
    /// 50: Requested IP address
    RequestedIpAddress(Ipv4Addr),
    /// 51: IP address lease time
    AddressLeaseTime(u32),
    /// 52: Option overload
    OptionOverload(u8),
    /// 53: Message type
    MessageType(MessageType),
    /// 54: Server identifier
    ServerIdentifier(Ipv4Addr),
    /// 55: Parameter request list
    ParameterRequestList(Vec<u8>),
    /// 56: Message
    Message(String),
    /// 57: Maximum DHCP message size
    MaxMessageSize(u16),
    /// 58: Renewal (T1) time
    Renewal(u32),
    /// 59: Rebinding (T2) time
    Rebinding(u32),
    /// 60: Class identifier
    ClassIdentifier(Vec<u8>),
    /// 61: Client identifier
    ClientIdentifier(Vec<u8>),
    /// An option whose code has no variant of its own
    Unknown(UnknownOption),
    /// 255: End
    End,
}

impl DhcpOption {
    /// The code of this option.
    pub open spec fn spec_code(&self) -> OptionCode {
        match self {
            DhcpOption::Pad => OptionCode::Pad,
            DhcpOption::SubnetMask(_) => OptionCode::SubnetMask,
            DhcpOption::TimeOffset(_) => OptionCode::TimeOffset,
            DhcpOption::Router(_) => OptionCode::Router,
            DhcpOption::TimeServer(_) => OptionCode::TimeServer,
            DhcpOption::NameServer(_) => OptionCode::NameServer,
            DhcpOption::DomainNameServer(_) => OptionCode::DomainNameServer,
            DhcpOption::LogServer(_) => OptionCode::LogServer,
            DhcpOption::QuoteServer(_) => OptionCode::QuoteServer,
            DhcpOption::LprServer(_) => OptionCode::LprServer,
            DhcpOption::ImpressServer(_) => OptionCode::ImpressServer,
            DhcpOption::ResourceLocationServer(_) => OptionCode::ResourceLocationServer,
            DhcpOption::Hostname(_) => OptionCode::Hostname,
            DhcpOption::BootFileSize(_) => OptionCode::BootFileSize,
            DhcpOption::MeritDumpFile(_) => OptionCode::MeritDumpFile,
            DhcpOption::DomainName(_) => OptionCode::DomainName,
            DhcpOption::SwapServer(_) => OptionCode::SwapServer,
            DhcpOption::RootPath(_) => OptionCode::RootPath,
            DhcpOption::ExtensionsPath(_) => OptionCode::ExtensionsPath,
            DhcpOption::IpForwarding(_) => OptionCode::IpForwarding,
            DhcpOption::NonLocalSrcRouting(_) => OptionCode::NonLocalSrcRouting,
            DhcpOption::MaxDatagramSize(_) => OptionCode::MaxDatagramSize,
            DhcpOption::DefaultIpTtl(_) => OptionCode::DefaultIpTtl,
            DhcpOption::InterfaceMtu(_) => OptionCode::InterfaceMtu,
            DhcpOption::AllSubnetsLocal(_) => OptionCode::AllSubnetsLocal,
            DhcpOption::BroadcastAddr(_) => OptionCode::BroadcastAddr,
            DhcpOption::PerformMaskDiscovery(_) => OptionCode::PerformMaskDiscovery,
            DhcpOption::MaskSupplier(_) => OptionCode::MaskSupplier,
            DhcpOption::PerformRouterDiscovery(_) => OptionCode::PerformRouterDiscovery,
            DhcpOption::RouterSolicitationAddr(_) => OptionCode::RouterSolicitationAddr,
            DhcpOption::StaticRoutingTable(_) => OptionCode::StaticRoutingTable,
            DhcpOption::ArpCacheTimeout(_) => OptionCode::ArpCacheTimeout,
            DhcpOption::EthernetEncapsulation(_) => OptionCode::EthernetEncapsulation,
            DhcpOption::DefaultTcpTtl(_) => OptionCode::DefaultTcpTtl,
            DhcpOption::TcpKeepaliveInterval(_) => OptionCode::TcpKeepaliveInterval,
            DhcpOption::TcpKeepaliveGarbage(_) => OptionCode::TcpKeepaliveGarbage,
            DhcpOption::NISDomain(_) => OptionCode::NISDomain,
            DhcpOption::NIS(_) => OptionCode::NIS,
            DhcpOption::NTPServers(_) => OptionCode::NTPServers,
            DhcpOption::VendorExtensions(_) => OptionCode::VendorExtensions,
            DhcpOption::NetBiosNameServers(_) => OptionCode::NetBiosNameServers,
            DhcpOption::NetBiosDatagramDistributionServer(_) => OptionCode::NetBiosDatagramDistributionServer,
            DhcpOption::NetBiosNodeType(_) => OptionCode::NetBiosNodeType,
            DhcpOption::NetBiosScope(_) => OptionCode::NetBiosScope,
            DhcpOption::XFontServer(_) => OptionCode::XFontServer,
            DhcpOption::XDisplayManager(_) => OptionCode::XDisplayManager,
            DhcpOption::RequestedIpAddress(_) => OptionCode::RequestedIpAddress,
            DhcpOption::AddressLeaseTime(_) => OptionCode::AddressLeaseTime,
            DhcpOption::OptionOverload(_) => OptionCode::OptionOverload,
            DhcpOption::MessageType(_) => OptionCode::MessageType,
            DhcpOption::ServerIdentifier(_) => OptionCode::ServerIdentifier,
            DhcpOption::ParameterRequestList(_) => OptionCode::ParameterRequestList,
            DhcpOption::Message(_) => OptionCode::Message,
            DhcpOption::MaxMessageSize(_) => OptionCode::MaxMessageSize,
            DhcpOption::Renewal(_) => OptionCode::Renewal,
            DhcpOption::Rebinding(_) => OptionCode::Rebinding,
            DhcpOption::ClassIdentifier(_) => OptionCode::ClassIdentifier,
            DhcpOption::ClientIdentifier(_) => OptionCode::ClientIdentifier,
            DhcpOption::Unknown(unknown) => OptionCode::Unknown(unknown@.0),
            DhcpOption::End => OptionCode::End,
        }
    }

    /// The body of this option.
    pub open spec fn value(&self) -> OptionValue {
        match self {
            DhcpOption::Pad => OptionValue::Empty,
            DhcpOption::SubnetMask(v) => OptionValue::Ip(*v),
            DhcpOption::TimeOffset(v) => OptionValue::I32(*v),
            DhcpOption::Router(v) => OptionValue::Ips(v@),
            DhcpOption::TimeServer(v) => OptionValue::Ips(v@),
            DhcpOption::NameServer(v) => OptionValue::Ips(v@),
            DhcpOption::DomainNameServer(v) => OptionValue::Ips(v@),
            DhcpOption::LogServer(v) => OptionValue::Ips(v@),
            DhcpOption::QuoteServer(v) => OptionValue::Ips(v@),
            DhcpOption::LprServer(v) => OptionValue::Ips(v@),
            DhcpOption::ImpressServer(v) => OptionValue::Ips(v@),
            DhcpOption::ResourceLocationServer(v) => OptionValue::Ips(v@),
            DhcpOption::Hostname(v) => OptionValue::Text(v@),
            DhcpOption::BootFileSize(v) => OptionValue::U16(*v),
            DhcpOption::MeritDumpFile(v) => OptionValue::Text(v@),
            DhcpOption::DomainName(v) => OptionValue::Text(v@),
            DhcpOption::SwapServer(v) => OptionValue::Ip(*v),
            DhcpOption::RootPath(v) => OptionValue::Text(v@),
            DhcpOption::ExtensionsPath(v) => OptionValue::Text(v@),
            DhcpOption::IpForwarding(v) => OptionValue::Flag(*v),
            DhcpOption::NonLocalSrcRouting(v) => OptionValue::Flag(*v),
            DhcpOption::MaxDatagramSize(v) => OptionValue::U16(*v),
            DhcpOption::DefaultIpTtl(v) => OptionValue::U8(*v),
            DhcpOption::InterfaceMtu(v) => OptionValue::U16(*v),
            DhcpOption::AllSubnetsLocal(v) => OptionValue::Flag(*v),
            DhcpOption::BroadcastAddr(v) => OptionValue::Ip(*v),
            DhcpOption::PerformMaskDiscovery(v) => OptionValue::Flag(*v),
            DhcpOption::MaskSupplier(v) => OptionValue::Flag(*v),
            DhcpOption::PerformRouterDiscovery(v) => OptionValue::Flag(*v),
            DhcpOption::RouterSolicitationAddr(v) => OptionValue::Ip(*v),
            DhcpOption::StaticRoutingTable(v) => OptionValue::Pairs(v@),
            DhcpOption::ArpCacheTimeout(v) => OptionValue::U32(*v),
            DhcpOption::EthernetEncapsulation(v) => OptionValue::Flag(*v),
            DhcpOption::DefaultTcpTtl(v) => OptionValue::U8(*v),
            DhcpOption::TcpKeepaliveInterval(v) => OptionValue::U32(*v),
            DhcpOption::TcpKeepaliveGarbage(v) => OptionValue::Flag(*v),
            DhcpOption::NISDomain(v) => OptionValue::Text(v@),
            DhcpOption::NIS(v) => OptionValue::Ips(v@),
            DhcpOption::NTPServers(v) => OptionValue::Ips(v@),
            DhcpOption::VendorExtensions(v) => OptionValue::Bytes(v@),
            DhcpOption::NetBiosNameServers(v) => OptionValue::Ips(v@),
            DhcpOption::NetBiosDatagramDistributionServer(v) => OptionValue::Ips(v@),
            DhcpOption::NetBiosNodeType(v) => OptionValue::Node(*v),
            DhcpOption::NetBiosScope(v) => OptionValue::Text(v@),
            DhcpOption::XFontServer(v) => OptionValue::Ips(v@),
            DhcpOption::XDisplayManager(v) => OptionValue::Ips(v@),
            DhcpOption::RequestedIpAddress(v) => OptionValue::Ip(*v),
            DhcpOption::AddressLeaseTime(v) => OptionValue::U32(*v),
            DhcpOption::OptionOverload(v) => OptionValue::U8(*v),
            DhcpOption::MessageType(v) => OptionValue::Kind(*v),
            DhcpOption::ServerIdentifier(v) => OptionValue::Ip(*v),
            DhcpOption::ParameterRequestList(v) => OptionValue::Bytes(v@),
            DhcpOption::Message(v) => OptionValue::Text(v@),
            DhcpOption::MaxMessageSize(v) => OptionValue::U16(*v),
            DhcpOption::Renewal(v) => OptionValue::U32(*v),
            DhcpOption::Rebinding(v) => OptionValue::U32(*v),
            DhcpOption::ClassIdentifier(v) => OptionValue::Bytes(v@),
            DhcpOption::ClientIdentifier(v) => OptionValue::Bytes(v@),
            DhcpOption::Unknown(unknown) => OptionValue::Raw(unknown@.1),
            DhcpOption::End => OptionValue::Empty,
        }
    }

    /// The code of this option.
    pub fn code(&self) -> (code: OptionCode)
        ensures
            code == self.spec_code(),
    {
        match self {
            DhcpOption::Pad => OptionCode::Pad,
            DhcpOption::SubnetMask(_) => OptionCode::SubnetMask,
            DhcpOption::TimeOffset(_) => OptionCode::TimeOffset,
            DhcpOption::Router(_) => OptionCode::Router,
            DhcpOption::TimeServer(_) => OptionCode::TimeServer,
            DhcpOption::NameServer(_) => OptionCode::NameServer,
            DhcpOption::DomainNameServer(_) => OptionCode::DomainNameServer,
            DhcpOption::LogServer(_) => OptionCode::LogServer,
            DhcpOption::QuoteServer(_) => OptionCode::QuoteServer,
            DhcpOption::LprServer(_) => OptionCode::LprServer,
            DhcpOption::ImpressServer(_) => OptionCode::ImpressServer,
            DhcpOption::ResourceLocationServer(_) => OptionCode::ResourceLocationServer,
            DhcpOption::Hostname(_) => OptionCode::Hostname,
            DhcpOption::BootFileSize(_) => OptionCode::BootFileSize,
            DhcpOption::MeritDumpFile(_) => OptionCode::MeritDumpFile,
            DhcpOption::DomainName(_) => OptionCode::DomainName,
            DhcpOption::SwapServer(_) => OptionCode::SwapServer,
            DhcpOption::RootPath(_) => OptionCode::RootPath,
            DhcpOption::ExtensionsPath(_) => OptionCode::ExtensionsPath,
            DhcpOption::IpForwarding(_) => OptionCode::IpForwarding,
            DhcpOption::NonLocalSrcRouting(_) => OptionCode::NonLocalSrcRouting,
            DhcpOption::MaxDatagramSize(_) => OptionCode::MaxDatagramSize,
            DhcpOption::DefaultIpTtl(_) => OptionCode::DefaultIpTtl,
            DhcpOption::InterfaceMtu(_) => OptionCode::InterfaceMtu,
            DhcpOption::AllSubnetsLocal(_) => OptionCode::AllSubnetsLocal,
            DhcpOption::BroadcastAddr(_) => OptionCode::BroadcastAddr,
            DhcpOption::PerformMaskDiscovery(_) => OptionCode::PerformMaskDiscovery,
            DhcpOption::MaskSupplier(_) => OptionCode::MaskSupplier,
            DhcpOption::PerformRouterDiscovery(_) => OptionCode::PerformRouterDiscovery,
            DhcpOption::RouterSolicitationAddr(_) => OptionCode::RouterSolicitationAddr,
            DhcpOption::StaticRoutingTable(_) => OptionCode::StaticRoutingTable,
            DhcpOption::ArpCacheTimeout(_) => OptionCode::ArpCacheTimeout,
            DhcpOption::EthernetEncapsulation(_) => OptionCode::EthernetEncapsulation,
            DhcpOption::DefaultTcpTtl(_) => OptionCode::DefaultTcpTtl,
            DhcpOption::TcpKeepaliveInterval(_) => OptionCode::TcpKeepaliveInterval,
            DhcpOption::TcpKeepaliveGarbage(_) => OptionCode::TcpKeepaliveGarbage,
            DhcpOption::NISDomain(_) => OptionCode::NISDomain,
            DhcpOption::NIS(_) => OptionCode::NIS,
            DhcpOption::NTPServers(_) => OptionCode::NTPServers,
            DhcpOption::VendorExtensions(_) => OptionCode::VendorExtensions,
            DhcpOption::NetBiosNameServers(_) => OptionCode::NetBiosNameServers,
            DhcpOption::NetBiosDatagramDistributionServer(_) => OptionCode::NetBiosDatagramDistributionServer,
            DhcpOption::NetBiosNodeType(_) => OptionCode::NetBiosNodeType,
            DhcpOption::NetBiosScope(_) => OptionCode::NetBiosScope,
            DhcpOption::XFontServer(_) => OptionCode::XFontServer,
            DhcpOption::XDisplayManager(_) => OptionCode::XDisplayManager,
            DhcpOption::RequestedIpAddress(_) => OptionCode::RequestedIpAddress,
            DhcpOption::AddressLeaseTime(_) => OptionCode::AddressLeaseTime,
            DhcpOption::OptionOverload(_) => OptionCode::OptionOverload,
            DhcpOption::MessageType(_) => OptionCode::MessageType,
            DhcpOption::ServerIdentifier(_) => OptionCode::ServerIdentifier,
            DhcpOption::ParameterRequestList(_) => OptionCode::ParameterRequestList,
            DhcpOption::Message(_) => OptionCode::Message,
            DhcpOption::MaxMessageSize(_) => OptionCode::MaxMessageSize,
            DhcpOption::Renewal(_) => OptionCode::Renewal,
            DhcpOption::Rebinding(_) => OptionCode::Rebinding,
            DhcpOption::ClassIdentifier(_) => OptionCode::ClassIdentifier,
            DhcpOption::ClientIdentifier(_) => OptionCode::ClientIdentifier,
            DhcpOption::Unknown(unknown) => OptionCode::Unknown(unknown.code()),
            DhcpOption::End => OptionCode::End,
        }
    }

    /// Appends the body of this option, without code and length.
    fn write_body<'a>(&self, e: &mut Encoder<'a>) -> (r: EncodeResult<usize>)
        ensures
            *final(final(e).buffer) == *final(old(e).buffer),
            match r {
                Ok(n) => n == self.value().wire().len() && final(e).wrote(
                    old(e),
                    self.value().wire(),
                ),
                Err(err) => err is AddOverflow && self.value().wire().len() > usize::MAX
                    && final(e).buffer@ == old(e).buffer@,
            },
    {
        match self {
            DhcpOption::SubnetMask(v) => e.write_ip(*v),
            DhcpOption::TimeOffset(v) => e.write_i32(*v),
            DhcpOption::Router(v) => e.write_ips(v.as_slice()),
            DhcpOption::TimeServer(v) => e.write_ips(v.as_slice()),
            DhcpOption::NameServer(v) => e.write_ips(v.as_slice()),
            DhcpOption::DomainNameServer(v) => e.write_ips(v.as_slice()),
            DhcpOption::LogServer(v) => e.write_ips(v.as_slice()),
            DhcpOption::QuoteServer(v) => e.write_ips(v.as_slice()),
            DhcpOption::LprServer(v) => e.write_ips(v.as_slice()),
            DhcpOption::ImpressServer(v) => e.write_ips(v.as_slice()),
            DhcpOption::ResourceLocationServer(v) => e.write_ips(v.as_slice()),
            DhcpOption::Hostname(v) => e.write_string(v.as_str()),
            DhcpOption::BootFileSize(v) => e.write_u16(*v),
            DhcpOption::MeritDumpFile(v) => e.write_string(v.as_str()),
            DhcpOption::DomainName(v) => e.write_string(v.as_str()),
            DhcpOption::SwapServer(v) => e.write_ip(*v),
            DhcpOption::RootPath(v) => e.write_string(v.as_str()),
            DhcpOption::ExtensionsPath(v) => e.write_string(v.as_str()),
            DhcpOption::IpForwarding(v) => e.write_u8(if *v { 1 } else { 0 }),
            DhcpOption::NonLocalSrcRouting(v) => e.write_u8(if *v { 1 } else { 0 }),
            DhcpOption::MaxDatagramSize(v) => e.write_u16(*v),
            DhcpOption::DefaultIpTtl(v) => e.write_u8(*v),
            DhcpOption::InterfaceMtu(v) => e.write_u16(*v),
            DhcpOption::AllSubnetsLocal(v) => e.write_u8(if *v { 1 } else { 0 }),
            DhcpOption::BroadcastAddr(v) => e.write_ip(*v),
            DhcpOption::PerformMaskDiscovery(v) => e.write_u8(if *v { 1 } else { 0 }),
            DhcpOption::MaskSupplier(v) => e.write_u8(if *v { 1 } else { 0 }),
            DhcpOption::PerformRouterDiscovery(v) => e.write_u8(if *v { 1 } else { 0 }),
            DhcpOption::RouterSolicitationAddr(v) => e.write_ip(*v),
            DhcpOption::StaticRoutingTable(v) => e.write_pair_ips(v.as_slice()),
            DhcpOption::ArpCacheTimeout(v) => e.write_u32(*v),
            DhcpOption::EthernetEncapsulation(v) => e.write_u8(if *v { 1 } else { 0 }),
            DhcpOption::DefaultTcpTtl(v) => e.write_u8(*v),
            DhcpOption::TcpKeepaliveInterval(v) => e.write_u32(*v),
            DhcpOption::TcpKeepaliveGarbage(v) => e.write_u8(if *v { 1 } else { 0 }),
            DhcpOption::NISDomain(v) => e.write_string(v.as_str()),
            DhcpOption::NIS(v) => e.write_ips(v.as_slice()),
            DhcpOption::NTPServers(v) => e.write_ips(v.as_slice()),
            DhcpOption::VendorExtensions(v) => e.write(v.as_slice()),
            DhcpOption::NetBiosNameServers(v) => e.write_ips(v.as_slice()),
            DhcpOption::NetBiosDatagramDistributionServer(v) => e.write_ips(v.as_slice()),
            DhcpOption::NetBiosNodeType(v) => e.write_u8(u8::from(*v)),
            DhcpOption::NetBiosScope(v) => e.write_string(v.as_str()),
            DhcpOption::XFontServer(v) => e.write_ips(v.as_slice()),
            DhcpOption::XDisplayManager(v) => e.write_ips(v.as_slice()),
            DhcpOption::RequestedIpAddress(v) => e.write_ip(*v),
            DhcpOption::AddressLeaseTime(v) => e.write_u32(*v),
            DhcpOption::OptionOverload(v) => e.write_u8(*v),
            DhcpOption::MessageType(v) => e.write_u8(u8::from(*v)),
            DhcpOption::ServerIdentifier(v) => e.write_ip(*v),
            DhcpOption::ParameterRequestList(v) => e.write(v.as_slice()),
            DhcpOption::Message(v) => e.write_string(v.as_str()),
            DhcpOption::MaxMessageSize(v) => e.write_u16(*v),
            DhcpOption::Renewal(v) => e.write_u32(*v),
            DhcpOption::Rebinding(v) => e.write_u32(*v),
            DhcpOption::ClassIdentifier(v) => e.write(v.as_slice()),
            DhcpOption::ClientIdentifier(v) => e.write(v.as_slice()),
            DhcpOption::Unknown(unknown) => e.write(unknown.bytes()),
            DhcpOption::Pad | DhcpOption::End => {
                assert(e.buffer@ =~= old(e).buffer@ + Seq::<u8>::empty());
                Ok(0)
            },
        }
    }
}

impl View for DhcpOption {
    type V = OptionModel;

    open spec fn view(&self) -> OptionModel {
        OptionModel { code: byte_of(self.spec_code()), value: self.value() }
    }
}

impl From<&DhcpOption> for OptionCode {
    fn from(option: &DhcpOption) -> (code: OptionCode) {
        option.code()
    }
}

impl FromSpecImpl<&DhcpOption> for OptionCode {
    open spec fn obeys_from_spec() -> bool {
        true
    }

    open spec fn from_spec(option: &DhcpOption) -> OptionCode {
        option.spec_code()
    }
}

/// Reads a body that is one IPv4 address.
fn read_ip(body: &[u8]) -> (r: DecodeResult<Ipv4Addr>)
    ensures
        match r {
            Ok(ip) => body@.len() == 4 && ip == Ipv4Addr::at(body@, 0),
            Err(e) => body@.len() != 4 && e@ == invalid_length(),
        },
{
    if body.len() != 4 {
        return Err(DecodeError::invalid_length());
    }
    Ok(Ipv4Addr::new(body[0], body[1], body[2], body[3]))
}

/// Reads a body that is a list of IPv4 addresses.
fn read_ips(body: &[u8]) -> (r: DecodeResult<Vec<Ipv4Addr>>)
    ensures
        match ips_in(body@) {
            Ok(ips) => r matches Ok(v) && v@ == ips,
            Err(e) => r matches Err(err) && err@ == e,
        },
{
    assert(body@.subrange(0, body@.len() as int) =~= body@);
    let mut decoder = Decoder::new(body);
    decoder.read_ips(body.len())
}

/// Reads a body that is a list of pairs of IPv4 addresses.
fn read_pair_ips(body: &[u8]) -> (r: DecodeResult<Vec<(Ipv4Addr, Ipv4Addr)>>)
    ensures
        match pairs_in(body@) {
            Ok(pairs) => r matches Ok(v) && v@ == pairs,
            Err(e) => r matches Err(err) && err@ == e,
        },
{
    assert(body@.subrange(0, body@.len() as int) =~= body@);
    let mut decoder = Decoder::new(body);
    decoder.read_pair_ips(body.len())
}

/// Reads a body that is text.
fn read_text(body: &[u8]) -> (r: DecodeResult<String>)
    ensures
        match text_in(body@) {
            Ok(text) => r matches Ok(v) && v@ == text,
            Err(e) => r matches Err(err) && err@ == e,
        },
{
    assert(body@.subrange(0, body@.len() as int) =~= body@);
    let mut decoder = Decoder::new(body);
    decoder.read_string(body.len())
}

/// Reads a body that is one octet.
fn read_u8(body: &[u8]) -> (r: DecodeResult<u8>)
    ensures
        match r {
            Ok(v) => body@.len() == 1 && v == body@[0],
            Err(e) => body@.len() != 1 && e@ == invalid_length(),
        },
{
    if body.len() != 1 {
        return Err(DecodeError::invalid_length());
    }
    Ok(body[0])
}

/// Reads a body that is a truth value: one octet, true unless it is zero.
fn read_flag(body: &[u8]) -> (r: DecodeResult<bool>)
    ensures
        match r {
            Ok(v) => body@.len() == 1 && v == (body@[0] != 0),
            Err(e) => body@.len() != 1 && e@ == invalid_length(),
        },
{
    if body.len() != 1 {
        return Err(DecodeError::invalid_length());
    }
    Ok(body[0] != 0)
}

/// Reads a body that is a 16-bit number.
fn read_u16(body: &[u8]) -> (r: DecodeResult<u16>)
    ensures
        match r {
            Ok(v) => body@.len() == 2 && v == u16_at(body@, 0),
            Err(e) => body@.len() != 2 && e@ == invalid_length(),
        },
{
    if body.len() != 2 {
        return Err(DecodeError::invalid_length());
    }
    Ok(u16_from_be(body[0], body[1]))
}

/// Reads a body that is a 32-bit number.
fn read_u32(body: &[u8]) -> (r: DecodeResult<u32>)
    ensures
        match r {
            Ok(v) => body@.len() == 4 && v == u32_at(body@, 0),
            Err(e) => body@.len() != 4 && e@ == invalid_length(),
        },
{
    if body.len() != 4 {
        return Err(DecodeError::invalid_length());
    }
    Ok(u32_from_be(body[0], body[1], body[2], body[3]))
}

/// Reads a body that is a signed 32-bit number.
fn read_i32(body: &[u8]) -> (r: DecodeResult<i32>)
    ensures
        match r {
            Ok(v) => body@.len() == 4 && v == i32_at(body@, 0),
            Err(e) => body@.len() != 4 && e@ == invalid_length(),
        },
{
    if body.len() != 4 {
        return Err(DecodeError::invalid_length());
    }
    Ok(i32_from_bits(u32_from_be(body[0], body[1], body[2], body[3])))
}

/// Reads the body of the option with the code byte `code`.
fn read_body(code: u8, body: &[u8]) -> (r: DecodeResult<DhcpOption>)
    requires
        body@.len() <= 255,
    ensures
        match parse_body(code, body@) {
            Ok(value) => r matches Ok(option) && option@ == (OptionModel { code, value }),
            Err(e) => r matches Err(err) && err@ == e,
        },
{
    proof {
        crate::v4::code::lemma_option_code_round_trip(code);
    }
    Ok(
        match OptionCode::from(code) {
            OptionCode::Pad => DhcpOption::Pad,
            OptionCode::SubnetMask => DhcpOption::SubnetMask(read_ip(body)?),
            OptionCode::TimeOffset => DhcpOption::TimeOffset(read_i32(body)?),
            OptionCode::Router => DhcpOption::Router(read_ips(body)?),
            OptionCode::TimeServer => DhcpOption::TimeServer(read_ips(body)?),
            OptionCode::NameServer => DhcpOption::NameServer(read_ips(body)?),
            OptionCode::DomainNameServer => DhcpOption::DomainNameServer(read_ips(body)?),
            OptionCode::LogServer => DhcpOption::LogServer(read_ips(body)?),
            OptionCode::QuoteServer => DhcpOption::QuoteServer(read_ips(body)?),
            OptionCode::LprServer => DhcpOption::LprServer(read_ips(body)?),
            OptionCode::ImpressServer => DhcpOption::ImpressServer(read_ips(body)?),
            OptionCode::ResourceLocationServer => DhcpOption::ResourceLocationServer(read_ips(body)?),
            OptionCode::Hostname => DhcpOption::Hostname(read_text(body)?),
            OptionCode::BootFileSize => DhcpOption::BootFileSize(read_u16(body)?),
            OptionCode::MeritDumpFile => DhcpOption::MeritDumpFile(read_text(body)?),
            OptionCode::DomainName => DhcpOption::DomainName(read_text(body)?),
            OptionCode::SwapServer => DhcpOption::SwapServer(read_ip(body)?),
            OptionCode::RootPath => DhcpOption::RootPath(read_text(body)?),
            OptionCode::ExtensionsPath => DhcpOption::ExtensionsPath(read_text(body)?),
            OptionCode::IpForwarding => DhcpOption::IpForwarding(read_flag(body)?),
            OptionCode::NonLocalSrcRouting => DhcpOption::NonLocalSrcRouting(read_flag(body)?),
            OptionCode::MaxDatagramSize => DhcpOption::MaxDatagramSize(read_u16(body)?),
            OptionCode::DefaultIpTtl => DhcpOption::DefaultIpTtl(read_u8(body)?),
            OptionCode::InterfaceMtu => DhcpOption::InterfaceMtu(read_u16(body)?),
            OptionCode::AllSubnetsLocal => DhcpOption::AllSubnetsLocal(read_flag(body)?),
            OptionCode::BroadcastAddr => DhcpOption::BroadcastAddr(read_ip(body)?),
            OptionCode::PerformMaskDiscovery => DhcpOption::PerformMaskDiscovery(read_flag(body)?),
            OptionCode::MaskSupplier => DhcpOption::MaskSupplier(read_flag(body)?),
            OptionCode::PerformRouterDiscovery => DhcpOption::PerformRouterDiscovery(read_flag(body)?),
            OptionCode::RouterSolicitationAddr => DhcpOption::RouterSolicitationAddr(read_ip(body)?),
            OptionCode::StaticRoutingTable => DhcpOption::StaticRoutingTable(read_pair_ips(body)?),
            OptionCode::ArpCacheTimeout => DhcpOption::ArpCacheTimeout(read_u32(body)?),
            OptionCode::EthernetEncapsulation => DhcpOption::EthernetEncapsulation(read_flag(body)?),
            OptionCode::DefaultTcpTtl => DhcpOption::DefaultTcpTtl(read_u8(body)?),
            OptionCode::TcpKeepaliveInterval => DhcpOption::TcpKeepaliveInterval(read_u32(body)?),
            OptionCode::TcpKeepaliveGarbage => DhcpOption::TcpKeepaliveGarbage(read_flag(body)?),
            OptionCode::NISDomain => DhcpOption::NISDomain(read_text(body)?),
            OptionCode::NIS => DhcpOption::NIS(read_ips(body)?),
            OptionCode::NTPServers => DhcpOption::NTPServers(read_ips(body)?),
            OptionCode::VendorExtensions => DhcpOption::VendorExtensions(slice_to_vec(body)),
            OptionCode::NetBiosNameServers => DhcpOption::NetBiosNameServers(read_ips(body)?),
            OptionCode::NetBiosDatagramDistributionServer => DhcpOption::NetBiosDatagramDistributionServer(read_ips(body)?),
            OptionCode::NetBiosNodeType => DhcpOption::NetBiosNodeType(NodeType::from(read_u8(body)?)),
            OptionCode::NetBiosScope => DhcpOption::NetBiosScope(read_text(body)?),
            OptionCode::XFontServer => DhcpOption::XFontServer(read_ips(body)?),
            OptionCode::XDisplayManager => DhcpOption::XDisplayManager(read_ips(body)?),
            OptionCode::RequestedIpAddress => DhcpOption::RequestedIpAddress(read_ip(body)?),
            OptionCode::AddressLeaseTime => DhcpOption::AddressLeaseTime(read_u32(body)?),
            OptionCode::OptionOverload => DhcpOption::OptionOverload(read_u8(body)?),
            OptionCode::MessageType => DhcpOption::MessageType(MessageType::from(read_u8(body)?)),
            OptionCode::ServerIdentifier => DhcpOption::ServerIdentifier(read_ip(body)?),
            OptionCode::ParameterRequestList => DhcpOption::ParameterRequestList(slice_to_vec(body)),
            OptionCode::Message => DhcpOption::Message(read_text(body)?),
            OptionCode::MaxMessageSize => DhcpOption::MaxMessageSize(read_u16(body)?),
            OptionCode::Renewal => DhcpOption::Renewal(read_u32(body)?),
            OptionCode::Rebinding => DhcpOption::Rebinding(read_u32(body)?),
            OptionCode::ClassIdentifier => DhcpOption::ClassIdentifier(slice_to_vec(body)),
            OptionCode::ClientIdentifier => DhcpOption::ClientIdentifier(slice_to_vec(body)),
            OptionCode::End => DhcpOption::End,
            OptionCode::Unknown(code) => DhcpOption::Unknown(
                UnknownOption::kept(code, slice_to_vec(body)),
            ),
        },
    )
}

impl Decodable for DhcpOption {
    open spec fn parse(bytes: Seq<u8>, index: int) -> Result<(OptionModel, int), DecodeFault> {
        parse_option(bytes, index)
    }

    /// Reads one option: its code, and for all but padding and the end mark
    /// its length and its body.
    fn decode<'a>(decoder: &mut Decoder<'a>) -> (r: DecodeResult<DhcpOption>) {
        let start: usize = decoder.index();
        let code: u8 = decoder.read_u8()?;
        if code == 0 {
            return Ok(DhcpOption::Pad);
        }
        if code == 255 {
            return Ok(DhcpOption::End);
        }
        let length: u8 = match decoder.read_u8() {
            Ok(length) => length,
            Err(e) => {
                decoder.rewind(start);
                return Err(e);
            },
        };
        let body: &[u8] = match decoder.read_slice(length as usize) {
            Ok(body) => body,
            Err(e) => {
                decoder.rewind(start);
                return Err(e);
            },
        };
        match read_body(code, body) {
            Ok(option) => Ok(option),
            Err(e) => {
                decoder.rewind(start);
                Err(e)
            },
        }
    }
}

impl Encodable for DhcpOption {
    open spec fn wire(&self) -> Seq<u8> {
        self@.wire()
    }

    open spec fn encodable(&self) -> bool {
        self@.encodable()
    }

    /// Appends the code and, for all but padding and the end mark, the
    /// length of the body and the body.
    fn encode<'a>(&self, e: &mut Encoder<'a>) -> (r: EncodeResult<usize>) {
        let code: u8 = u8::from(self.code());
        match self {
            DhcpOption::Pad | DhcpOption::End => {
                return e.write_u8(code);
            },
            _ => {},
        }
        let mut body: Vec<u8> = Vec::new();
        let mut sink = Encoder::new(&mut body);
        let written: EncodeResult<usize> = self.write_body(&mut sink);
        if written.is_err() || body.len() > 255 {
            return Err(EncodeError::AddOverflow);
        }
        assert(body@ =~= self.value().wire());
        let ghost before = e.buffer@;
        e.write_u8(code)?;
        e.write_u8(body.len() as u8)?;
        e.write(body.as_slice())?;
        assert(e.buffer@ =~= before + self@.wire());
        Ok(2 + body.len())
    }
}

} // verus!
