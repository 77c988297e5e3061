//! The one-octet codes of DHCPv4: option codes, message types, node types.

use vstd::prelude::*;
use vstd::std_specs::convert::FromSpecImpl;

verus! {

/// The code that says which option follows.
#[derive(Debug, Copy, Hash, Clone, PartialEq, Eq, Structural)]
pub enum OptionCode {
    /// 0: Padding
    Pad,
    /// 1: Subnet mask
    SubnetMask,
    /// 2: Time offset
    TimeOffset,
    /// 3: Routers
    Router,
    /// 4: Time servers
    TimeServer,
    /// 5: Name servers
    NameServer,
    /// 6: Domain name servers
    DomainNameServer,
    /// 7: Log servers
    LogServer,
    /// 8: Quote servers
    QuoteServer,
    /// 9: LPR servers
    LprServer,
    /// 10: Impress servers
    ImpressServer,
    /// 11: Resource location servers
    ResourceLocationServer,
    /// 12: Host name
    Hostname,
    /// 13: Boot file size
    BootFileSize,
    /// 14: Merit dump file
    MeritDumpFile,
    /// 15: Domain name
    DomainName,
    /// 16: Swap server
    SwapServer,
    /// 17: Root path
    RootPath,
    /// 18: Extensions path
    ExtensionsPath,
    /// 19: IP forwarding
    IpForwarding,
    /// 20: Non-local source routing
    NonLocalSrcRouting,
    /// 22: Maximum datagram reassembly size
    MaxDatagramSize,
    /// 23: Default IP time to live
    DefaultIpTtl,
    /// 26: Interface MTU
    InterfaceMtu,
    /// 27: All subnets are local
    AllSubnetsLocal,
    /// 28: Broadcast address
    BroadcastAddr,
    /// 29: Perform mask discovery
    PerformMaskDiscovery,
    /// 30: Mask supplier
    MaskSupplier,
    /// 31: Perform router discovery
    PerformRouterDiscovery,
    /// 32: Router solicitation address
    RouterSolicitationAddr,
    /// 33: Static routing table
    StaticRoutingTable,
    /// 35: ARP cache timeout
    ArpCacheTimeout,
    /// 36: Ethernet encapsulation
    EthernetEncapsulation,
    /// 37: Default TCP time to live
    DefaultTcpTtl,
    /// 38: TCP keepalive interval
    TcpKeepaliveInterval,
    /// 39: TCP keepalive garbage
    TcpKeepaliveGarbage,
    /// 40: Network information service domain
    NISDomain,
    /// 41: Network information servers
    NIS,
    /// 42: NTP servers
    NTPServers,
    /// 43: Vendor extensions
    VendorExtensions,
    /// 44: NetBIOS over TCP/IP name servers
    NetBiosNameServers,
    /// 45: NetBIOS over TCP/IP datagram distribution servers
    NetBiosDatagramDistributionServer,
    /// 46: NetBIOS over TCP/IP node type
    NetBiosNodeType,
    /// 47: NetBIOS over TCP/IP scope
    NetBiosScope,
    /// 48: X Window System font servers
    XFontServer,
    /// 49: X Window System display managers
    XDisplayManager,
    /// 50: Requested IP address
    RequestedIpAddress,
    /// 51: IP address lease time
    AddressLeaseTime,
    /// 52: Option overload
    OptionOverload,
    /// 53: Message type
    MessageType,
    /// 54: Server identifier
    ServerIdentifier,
    /// 55: Parameter request list
    ParameterRequestList,
    /// 56: Message
    Message,
    /// 57: Maximum DHCP message size
    MaxMessageSize,
    /// 58: Renewal (T1) time
    Renewal,
    /// 59: Rebinding (T2) time
    Rebinding,
    /// 60: Class identifier
    ClassIdentifier,
    /// 61: Client identifier
    ClientIdentifier,
    /// A code with no variant of its own
    Unknown(u8),
    /// 255: End
    End,
}

/// The option code that the byte `n` stands for.
pub open spec fn code_of(n: u8) -> OptionCode {
    match n {
        0u8 => OptionCode::Pad,
        1u8 => OptionCode::SubnetMask,
        2u8 => OptionCode::TimeOffset,
        3u8 => OptionCode::Router,
        4u8 => OptionCode::TimeServer,
        5u8 => OptionCode::NameServer,
        6u8 => OptionCode::DomainNameServer,
        7u8 => OptionCode::LogServer,
        8u8 => OptionCode::QuoteServer,
        9u8 => OptionCode::LprServer,
        10u8 => OptionCode::ImpressServer,
        11u8 => OptionCode::ResourceLocationServer,
        12u8 => OptionCode::Hostname,
        13u8 => OptionCode::BootFileSize,
        14u8 => OptionCode::MeritDumpFile,
        15u8 => OptionCode::DomainName,
        16u8 => OptionCode::SwapServer,
        17u8 => OptionCode::RootPath,
        18u8 => OptionCode::ExtensionsPath,
        19u8 => OptionCode::IpForwarding,
        20u8 => OptionCode::NonLocalSrcRouting,
        22u8 => OptionCode::MaxDatagramSize,
        23u8 => OptionCode::DefaultIpTtl,
        26u8 => OptionCode::InterfaceMtu,
        27u8 => OptionCode::AllSubnetsLocal,
        28u8 => OptionCode::BroadcastAddr,
        29u8 => OptionCode::PerformMaskDiscovery,
        30u8 => OptionCode::MaskSupplier,
        31u8 => OptionCode::PerformRouterDiscovery,
        32u8 => OptionCode::RouterSolicitationAddr,
        33u8 => OptionCode::StaticRoutingTable,
        35u8 => OptionCode::ArpCacheTimeout,
        36u8 => OptionCode::EthernetEncapsulation,
        37u8 => OptionCode::DefaultTcpTtl,
        38u8 => OptionCode::TcpKeepaliveInterval,
        39u8 => OptionCode::TcpKeepaliveGarbage,
        40u8 => OptionCode::NISDomain,
        41u8 => OptionCode::NIS,
        42u8 => OptionCode::NTPServers,
        43u8 => OptionCode::VendorExtensions,
        44u8 => OptionCode::NetBiosNameServers,
        45u8 => OptionCode::NetBiosDatagramDistributionServer,
        46u8 => OptionCode::NetBiosNodeType,
        47u8 => OptionCode::NetBiosScope,
        48u8 => OptionCode::XFontServer,
        49u8 => OptionCode::XDisplayManager,
        50u8 => OptionCode::RequestedIpAddress,
        51u8 => OptionCode::AddressLeaseTime,
        52u8 => OptionCode::OptionOverload,
        53u8 => OptionCode::MessageType,
        54u8 => OptionCode::ServerIdentifier,
        55u8 => OptionCode::ParameterRequestList,
        56u8 => OptionCode::Message,
        57u8 => OptionCode::MaxMessageSize,
        58u8 => OptionCode::Renewal,
        59u8 => OptionCode::Rebinding,
        60u8 => OptionCode::ClassIdentifier,
        61u8 => OptionCode::ClientIdentifier,
        255u8 => OptionCode::End,
        _ => OptionCode::Unknown(n),
    }
}

/// The byte that stands for the option code `code`.
pub open spec fn byte_of(code: OptionCode) -> u8 {
    match code {
        OptionCode::Pad => 0,
        OptionCode::SubnetMask => 1,
        OptionCode::TimeOffset => 2,
        OptionCode::Router => 3,
        OptionCode::TimeServer => 4,
        OptionCode::NameServer => 5,
        OptionCode::DomainNameServer => 6,
        OptionCode::LogServer => 7,
        OptionCode::QuoteServer => 8,
        OptionCode::LprServer => 9,
        OptionCode::ImpressServer => 10,
        OptionCode::ResourceLocationServer => 11,
        OptionCode::Hostname => 12,
        OptionCode::BootFileSize => 13,
        OptionCode::MeritDumpFile => 14,
        OptionCode::DomainName => 15,
        OptionCode::SwapServer => 16,
        OptionCode::RootPath => 17,
        OptionCode::ExtensionsPath => 18,
        OptionCode::IpForwarding => 19,
        OptionCode::NonLocalSrcRouting => 20,
        OptionCode::MaxDatagramSize => 22,
        OptionCode::DefaultIpTtl => 23,
        OptionCode::InterfaceMtu => 26,
        OptionCode::AllSubnetsLocal => 27,
        OptionCode::BroadcastAddr => 28,
        OptionCode::PerformMaskDiscovery => 29,
        OptionCode::MaskSupplier => 30,
        OptionCode::PerformRouterDiscovery => 31,
        OptionCode::RouterSolicitationAddr => 32,
        OptionCode::StaticRoutingTable => 33,
        OptionCode::ArpCacheTimeout => 35,
        OptionCode::EthernetEncapsulation => 36,
        OptionCode::DefaultTcpTtl => 37,
        OptionCode::TcpKeepaliveInterval => 38,
        OptionCode::TcpKeepaliveGarbage => 39,
        OptionCode::NISDomain => 40,
        OptionCode::NIS => 41,
        OptionCode::NTPServers => 42,
        OptionCode::VendorExtensions => 43,
        OptionCode::NetBiosNameServers => 44,
        OptionCode::NetBiosDatagramDistributionServer => 45,
        OptionCode::NetBiosNodeType => 46,
        OptionCode::NetBiosScope => 47,
        OptionCode::XFontServer => 48,
        OptionCode::XDisplayManager => 49,
        OptionCode::RequestedIpAddress => 50,
        OptionCode::AddressLeaseTime => 51,
        OptionCode::OptionOverload => 52,
        OptionCode::MessageType => 53,
        OptionCode::ServerIdentifier => 54,
        OptionCode::ParameterRequestList => 55,
        OptionCode::Message => 56,
        OptionCode::MaxMessageSize => 57,
        OptionCode::Renewal => 58,
        OptionCode::Rebinding => 59,
        OptionCode::ClassIdentifier => 60,
        OptionCode::ClientIdentifier => 61,
        OptionCode::End => 255,
        OptionCode::Unknown(n) => n,
    }
}

/// Every byte comes back from the option code it stands for.
pub proof fn lemma_option_code_round_trip(n: u8)
    ensures
        byte_of(code_of(n)) == n,
{
}

impl From<u8> for OptionCode {
    fn from(n: u8) -> (code: OptionCode) {
        match n {
            0 => OptionCode::Pad,
            1 => OptionCode::SubnetMask,
            2 => OptionCode::TimeOffset,
            3 => OptionCode::Router,
            4 => OptionCode::TimeServer,
            5 => OptionCode::NameServer,
            6 => OptionCode::DomainNameServer,
            7 => OptionCode::LogServer,
            8 => OptionCode::QuoteServer,
            9 => OptionCode::LprServer,
            10 => OptionCode::ImpressServer,
            11 => OptionCode::ResourceLocationServer,
            12 => OptionCode::Hostname,
            13 => OptionCode::BootFileSize,
            14 => OptionCode::MeritDumpFile,
            15 => OptionCode::DomainName,
            16 => OptionCode::SwapServer,
            17 => OptionCode::RootPath,
            18 => OptionCode::ExtensionsPath,
            19 => OptionCode::IpForwarding,
            20 => OptionCode::NonLocalSrcRouting,
            22 => OptionCode::MaxDatagramSize,
            23 => OptionCode::DefaultIpTtl,
            26 => OptionCode::InterfaceMtu,
            27 => OptionCode::AllSubnetsLocal,
            28 => OptionCode::BroadcastAddr,
            29 => OptionCode::PerformMaskDiscovery,
            30 => OptionCode::MaskSupplier,
            31 => OptionCode::PerformRouterDiscovery,
            32 => OptionCode::RouterSolicitationAddr,
            33 => OptionCode::StaticRoutingTable,
            35 => OptionCode::ArpCacheTimeout,
            36 => OptionCode::EthernetEncapsulation,
            37 => OptionCode::DefaultTcpTtl,
            38 => OptionCode::TcpKeepaliveInterval,
            39 => OptionCode::TcpKeepaliveGarbage,
            40 => OptionCode::NISDomain,
            41 => OptionCode::NIS,
            42 => OptionCode::NTPServers,
            43 => OptionCode::VendorExtensions,
            44 => OptionCode::NetBiosNameServers,
            45 => OptionCode::NetBiosDatagramDistributionServer,
            46 => OptionCode::NetBiosNodeType,
            47 => OptionCode::NetBiosScope,
            48 => OptionCode::XFontServer,
            49 => OptionCode::XDisplayManager,
            50 => OptionCode::RequestedIpAddress,
            51 => OptionCode::AddressLeaseTime,
            52 => OptionCode::OptionOverload,
            53 => OptionCode::MessageType,
            54 => OptionCode::ServerIdentifier,
            55 => OptionCode::ParameterRequestList,
            56 => OptionCode::Message,
            57 => OptionCode::MaxMessageSize,
            58 => OptionCode::Renewal,
            59 => OptionCode::Rebinding,
            60 => OptionCode::ClassIdentifier,
            61 => OptionCode::ClientIdentifier,
            255 => OptionCode::End,
            n => OptionCode::Unknown(n),
        }
    }
}

impl FromSpecImpl<u8> for OptionCode {
    open spec fn obeys_from_spec() -> bool {
        true
    }

    open spec fn from_spec(n: u8) -> OptionCode {
        code_of(n)
    }
}

impl From<OptionCode> for u8 {
    fn from(code: OptionCode) -> (n: u8) {
        match code {
            OptionCode::Pad => 0,
            OptionCode::SubnetMask => 1,
            OptionCode::TimeOffset => 2,
            OptionCode::Router => 3,
            OptionCode::TimeServer => 4,
            OptionCode::NameServer => 5,
            OptionCode::DomainNameServer => 6,
            OptionCode::LogServer => 7,
            OptionCode::QuoteServer => 8,
            OptionCode::LprServer => 9,
            OptionCode::ImpressServer => 10,
            OptionCode::ResourceLocationServer => 11,
            OptionCode::Hostname => 12,
            OptionCode::BootFileSize => 13,
            OptionCode::MeritDumpFile => 14,
            OptionCode::DomainName => 15,
            OptionCode::SwapServer => 16,
            OptionCode::RootPath => 17,
            OptionCode::ExtensionsPath => 18,
            OptionCode::IpForwarding => 19,
            OptionCode::NonLocalSrcRouting => 20,
            OptionCode::MaxDatagramSize => 22,
            OptionCode::DefaultIpTtl => 23,
            OptionCode::InterfaceMtu => 26,
            OptionCode::AllSubnetsLocal => 27,
            OptionCode::BroadcastAddr => 28,
            OptionCode::PerformMaskDiscovery => 29,
            OptionCode::MaskSupplier => 30,
            OptionCode::PerformRouterDiscovery => 31,
            OptionCode::RouterSolicitationAddr => 32,
            OptionCode::StaticRoutingTable => 33,
            OptionCode::ArpCacheTimeout => 35,
            OptionCode::EthernetEncapsulation => 36,
            OptionCode::DefaultTcpTtl => 37,
            OptionCode::TcpKeepaliveInterval => 38,
            OptionCode::TcpKeepaliveGarbage => 39,
            OptionCode::NISDomain => 40,
            OptionCode::NIS => 41,
            OptionCode::NTPServers => 42,
            OptionCode::VendorExtensions => 43,
            OptionCode::NetBiosNameServers => 44,
            OptionCode::NetBiosDatagramDistributionServer => 45,
            OptionCode::NetBiosNodeType => 46,
            OptionCode::NetBiosScope => 47,
            OptionCode::XFontServer => 48,
            OptionCode::XDisplayManager => 49,
            OptionCode::RequestedIpAddress => 50,
            OptionCode::AddressLeaseTime => 51,
            OptionCode::OptionOverload => 52,
            OptionCode::MessageType => 53,
            OptionCode::ServerIdentifier => 54,
            OptionCode::ParameterRequestList => 55,
            OptionCode::Message => 56,
            OptionCode::MaxMessageSize => 57,
            OptionCode::Renewal => 58,
            OptionCode::Rebinding => 59,
            OptionCode::ClassIdentifier => 60,
            OptionCode::ClientIdentifier => 61,
            OptionCode::End => 255,
            OptionCode::Unknown(n) => n,
        }
    }
}

impl FromSpecImpl<OptionCode> for u8 {
    open spec fn obeys_from_spec() -> bool {
        true
    }

    open spec fn from_spec(code: OptionCode) -> u8 {
        byte_of(code)
    }
}

/// What a DHCPv4 message is for.
#[derive(Debug, Copy, Hash, Clone, PartialEq, Eq, Structural)]
pub enum MessageType {
    /// 1
    Discover,
    /// 2
    Offer,
    /// 3
    Request,
    /// 4
    Decline,
    /// 5
    Ack,
    /// 6
    Nak,
    /// 7
    Release,
    /// 8
    Inform,
    /// A message type with no variant of its own
    Unknown(u8),
}

/// The message type that the byte `n` stands for.
pub open spec fn message_type_of(n: u8) -> MessageType {
    match n {
        1u8 => MessageType::Discover,
        2u8 => MessageType::Offer,
        3u8 => MessageType::Request,
        4u8 => MessageType::Decline,
        5u8 => MessageType::Ack,
        6u8 => MessageType::Nak,
        7u8 => MessageType::Release,
        8u8 => MessageType::Inform,
        _ => MessageType::Unknown(n),
    }
}

/// The byte that stands for `value`.
pub open spec fn byte_of_message_type(value: MessageType) -> u8 {
    match value {
        MessageType::Discover => 1,
        MessageType::Offer => 2,
        MessageType::Request => 3,
        MessageType::Decline => 4,
        MessageType::Ack => 5,
        MessageType::Nak => 6,
        MessageType::Release => 7,
        MessageType::Inform => 8,
        MessageType::Unknown(n) => n,
    }
}

/// Every byte comes back from the message type it stands for.
pub proof fn lemma_message_type_round_trip(n: u8)
    ensures
        byte_of_message_type(message_type_of(n)) == n,
{
}

impl From<u8> for MessageType {
    fn from(n: u8) -> (value: MessageType) {
        match n {
            1 => MessageType::Discover,
            2 => MessageType::Offer,
            3 => MessageType::Request,
            4 => MessageType::Decline,
            5 => MessageType::Ack,
            6 => MessageType::Nak,
            7 => MessageType::Release,
            8 => MessageType::Inform,
            n => MessageType::Unknown(n),
        }
    }
}

impl FromSpecImpl<u8> for MessageType {
    open spec fn obeys_from_spec() -> bool {
        true
    }

    open spec fn from_spec(n: u8) -> MessageType {
        message_type_of(n)
    }
}

impl From<MessageType> for u8 {
    fn from(value: MessageType) -> (n: u8) {
        match value {
            MessageType::Discover => 1,
            MessageType::Offer => 2,
            MessageType::Request => 3,
            MessageType::Decline => 4,
            MessageType::Ack => 5,
            MessageType::Nak => 6,
            MessageType::Release => 7,
            MessageType::Inform => 8,
            MessageType::Unknown(n) => n,
        }
    }
}

impl FromSpecImpl<MessageType> for u8 {
    open spec fn obeys_from_spec() -> bool {
        true
    }

    open spec fn from_spec(value: MessageType) -> u8 {
        byte_of_message_type(value)
    }
}

/// How a NetBIOS over TCP/IP client resolves names.
#[derive(Debug, Copy, Hash, Clone, PartialEq, Eq, Structural)]
pub enum NodeType {
    /// 1
    B,
    /// 2
    P,
    /// 4
    M,
    /// 8
    H,
    /// A node type with no variant of its own
    Unknown(u8),
}

/// The node type that the byte `n` stands for.
pub open spec fn node_type_of(n: u8) -> NodeType {
    match n {
        1u8 => NodeType::B,
        2u8 => NodeType::P,
        4u8 => NodeType::M,
        8u8 => NodeType::H,
        _ => NodeType::Unknown(n),
    }
}

/// The byte that stands for `value`.
pub open spec fn byte_of_node_type(value: NodeType) -> u8 {
    match value {
        NodeType::B => 1,
        NodeType::P => 2,
        NodeType::M => 4,
        NodeType::H => 8,
        NodeType::Unknown(n) => n,
    }
}

/// Every byte comes back from the node type it stands for.
pub proof fn lemma_node_type_round_trip(n: u8)
    ensures
        byte_of_node_type(node_type_of(n)) == n,
{
}

impl From<u8> for NodeType {
    fn from(n: u8) -> (value: NodeType) {
        match n {
            1 => NodeType::B,
            2 => NodeType::P,
            4 => NodeType::M,
            8 => NodeType::H,
            n => NodeType::Unknown(n),
        }
    }
}

impl FromSpecImpl<u8> for NodeType {
    open spec fn obeys_from_spec() -> bool {
        true
    }

    open spec fn from_spec(n: u8) -> NodeType {
        node_type_of(n)
    }
}

impl From<NodeType> for u8 {
    fn from(value: NodeType) -> (n: u8) {
        match value {
            NodeType::B => 1,
            NodeType::P => 2,
            NodeType::M => 4,
            NodeType::H => 8,
            NodeType::Unknown(n) => n,
        }
    }
}

impl FromSpecImpl<NodeType> for u8 {
    open spec fn obeys_from_spec() -> bool {
        true
    }

    open spec fn from_spec(value: NodeType) -> u8 {
        byte_of_node_type(value)
    }
}

/// Whether a DHCPv4 message is a request or a reply.
#[derive(Debug, Copy, Hash, Clone, PartialEq, Eq, Structural)]
pub enum Opcode {
    /// 1
    BootRequest,
    /// 2
    BootReply,
    /// An opcode with no variant of its own
    Unknown(u8),
}

/// The opcode that the byte `n` stands for.
pub open spec fn opcode_of(n: u8) -> Opcode {
    match n {
        1u8 => Opcode::BootRequest,
        2u8 => Opcode::BootReply,
        _ => Opcode::Unknown(n),
    }
}

/// The byte that stands for `value`.
pub open spec fn byte_of_opcode(value: Opcode) -> u8 {
    match value {
        Opcode::BootRequest => 1,
        Opcode::BootReply => 2,
        Opcode::Unknown(n) => n,
    }
}

/// Every byte comes back from the opcode it stands for.
pub proof fn lemma_opcode_round_trip(n: u8)
    ensures
        byte_of_opcode(opcode_of(n)) == n,
{
}

impl From<u8> for Opcode {
    fn from(n: u8) -> (value: Opcode) {
        match n {
            1 => Opcode::BootRequest,
            2 => Opcode::BootReply,
            n => Opcode::Unknown(n),
        }
    }
}

impl FromSpecImpl<u8> for Opcode {
    open spec fn obeys_from_spec() -> bool {
        true
    }

    open spec fn from_spec(n: u8) -> Opcode {
        opcode_of(n)
    }
}

impl From<Opcode> for u8 {
    fn from(value: Opcode) -> (n: u8) {
        match value {
            Opcode::BootRequest => 1,
            Opcode::BootReply => 2,
            Opcode::Unknown(n) => n,
        }
    }
}

impl FromSpecImpl<Opcode> for u8 {
    open spec fn obeys_from_spec() -> bool {
        true
    }

    open spec fn from_spec(value: Opcode) -> u8 {
        byte_of_opcode(value)
    }
}

} // verus!
