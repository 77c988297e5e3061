//! The codes of DHCPv6: message types and option codes.

use vstd::prelude::*;
use vstd::std_specs::convert::FromSpecImpl;

verus! {

/// What a DHCPv6 message is for.
#[derive(Debug, Copy, Hash, Clone, PartialEq, Eq, Structural)]
pub enum MessageType {
    /// 1
    Solicit,
    /// 2
    Advertise,
    /// 3
    Request,
    /// 4
    Confirm,
    /// 5
    Renew,
    /// 6
    Rebind,
    /// 7
    Reply,
    /// 8
    Release,
    /// 9
    Decline,
    /// 10
    Reconfigure,
    /// 11
    InformationRequest,
    /// 12
    RelayForw,
    /// 13
    RelayRepl,
    /// 14
    LeaseQuery,
    /// 15
    LeaseQueryReply,
    /// 16
    LeaseQueryDone,
    /// 17
    LeaseQueryData,
    /// 18
    ReconfigureRequest,
    /// 19
    ReconfigureReply,
    /// 20
    DHCPv4Query,
    /// 21
    DHCPv4Response,
    /// A message type with no variant of its own
    Unknown(u8),
}

/// The message type that the number `n` stands for.
pub open spec fn message_type_of(n: u8) -> MessageType {
    match n {
        1u8 => MessageType::Solicit,
        2u8 => MessageType::Advertise,
        3u8 => MessageType::Request,
        4u8 => MessageType::Confirm,
        5u8 => MessageType::Renew,
        6u8 => MessageType::Rebind,
        7u8 => MessageType::Reply,
        8u8 => MessageType::Release,
        9u8 => MessageType::Decline,
        10u8 => MessageType::Reconfigure,
        11u8 => MessageType::InformationRequest,
        12u8 => MessageType::RelayForw,
        13u8 => MessageType::RelayRepl,
        14u8 => MessageType::LeaseQuery,
        15u8 => MessageType::LeaseQueryReply,
        16u8 => MessageType::LeaseQueryDone,
        17u8 => MessageType::LeaseQueryData,
        18u8 => MessageType::ReconfigureRequest,
        19u8 => MessageType::ReconfigureReply,
        20u8 => MessageType::DHCPv4Query,
        21u8 => MessageType::DHCPv4Response,
        _ => MessageType::Unknown(n),
    }
}

/// The number that stands for `value`.
pub open spec fn byte_of_message_type(value: MessageType) -> u8 {
    match value {
        MessageType::Solicit => 1,
        MessageType::Advertise => 2,
        MessageType::Request => 3,
        MessageType::Confirm => 4,
        MessageType::Renew => 5,
        MessageType::Rebind => 6,
        MessageType::Reply => 7,
        MessageType::Release => 8,
        MessageType::Decline => 9,
        MessageType::Reconfigure => 10,
        MessageType::InformationRequest => 11,
        MessageType::RelayForw => 12,
        MessageType::RelayRepl => 13,
        MessageType::LeaseQuery => 14,
        MessageType::LeaseQueryReply => 15,
        MessageType::LeaseQueryDone => 16,
        MessageType::LeaseQueryData => 17,
        MessageType::ReconfigureRequest => 18,
        MessageType::ReconfigureReply => 19,
        MessageType::DHCPv4Query => 20,
        MessageType::DHCPv4Response => 21,
        MessageType::Unknown(n) => n,
    }
}

/// Every byte comes back from the message type it stands for.
pub proof fn lemma_message_type_round_trip(n: u8)
    ensures
        byte_of_message_type(message_type_of(n)) == n,
{
}

impl From<u8> for MessageType {
    fn from(n: u8) -> (value: MessageType) {
        match n {
            1 => MessageType::Solicit,
            2 => MessageType::Advertise,
            3 => MessageType::Request,
            4 => MessageType::Confirm,
            5 => MessageType::Renew,
            6 => MessageType::Rebind,
            7 => MessageType::Reply,
            8 => MessageType::Release,
            9 => MessageType::Decline,
            10 => MessageType::Reconfigure,
            11 => MessageType::InformationRequest,
            12 => MessageType::RelayForw,
            13 => MessageType::RelayRepl,
            14 => MessageType::LeaseQuery,
            15 => MessageType::LeaseQueryReply,
            16 => MessageType::LeaseQueryDone,
            17 => MessageType::LeaseQueryData,
            18 => MessageType::ReconfigureRequest,
            19 => MessageType::ReconfigureReply,
            20 => MessageType::DHCPv4Query,
            21 => MessageType::DHCPv4Response,
            n => MessageType::Unknown(n),
        }
    }
}

impl FromSpecImpl<u8> for MessageType {
    open spec fn obeys_from_spec() -> bool {
        true
    }

    open spec fn from_spec(n: u8) -> MessageType {
        message_type_of(n)
    }
}

impl From<MessageType> for u8 {
    fn from(value: MessageType) -> (n: u8) {
        match value {
            MessageType::Solicit => 1,
            MessageType::Advertise => 2,
            MessageType::Request => 3,
            MessageType::Confirm => 4,
            MessageType::Renew => 5,
            MessageType::Rebind => 6,
            MessageType::Reply => 7,
            MessageType::Release => 8,
            MessageType::Decline => 9,
            MessageType::Reconfigure => 10,
            MessageType::InformationRequest => 11,
            MessageType::RelayForw => 12,
            MessageType::RelayRepl => 13,
            MessageType::LeaseQuery => 14,
            MessageType::LeaseQueryReply => 15,
            MessageType::LeaseQueryDone => 16,
            MessageType::LeaseQueryData => 17,
            MessageType::ReconfigureRequest => 18,
            MessageType::ReconfigureReply => 19,
            MessageType::DHCPv4Query => 20,
            MessageType::DHCPv4Response => 21,
            MessageType::Unknown(n) => n,
        }
    }
}

impl FromSpecImpl<MessageType> for u8 {
    open spec fn obeys_from_spec() -> bool {
        true
    }

    open spec fn from_spec(value: MessageType) -> u8 {
        byte_of_message_type(value)
    }
}

/// The code that says which option follows.
#[derive(Debug, Copy, Hash, Clone, PartialEq, Eq, Structural)]
pub enum OptionCode {
    /// 1: Client identifier
    ClientId,
    /// 2: Server identifier
    ServerId,
    /// 3: Identity association for non-temporary addresses
    IANA,
    /// 4: Identity association for temporary addresses
    IATA,
    /// 5: Address of an identity association
    IAAddr,
    /// 6: Option request
    ORO,
    /// 7: Preference
    Preference,
    /// 8: Elapsed time
    ElapsedTime,
    /// 9: Relay message
    RelayMsg,
    /// 11: Authentication
    Authentication,
    /// 12: Server unicast
    ServerUnicast,
    /// 13: Status code
    StatusCode,
    /// 14: Rapid commit
    RapidCommit,
    /// 15: User class
    UserClass,
    /// 16: Vendor class
    VendorClass,
    /// 17: Vendor-specific information
    VendorOpts,
    /// 18: Interface id
    InterfaceId,
    /// 19: Reconfigure message
    ReconfMsg,
    /// 20: Reconfigure accept
    ReconfAccept,
    /// A code with no variant of its own
    Unknown(u16),
}

/// The option code that the number `n` stands for.
pub open spec fn code_of(n: u16) -> OptionCode {
    match n {
        1u16 => OptionCode::ClientId,
        2u16 => OptionCode::ServerId,
        3u16 => OptionCode::IANA,
        4u16 => OptionCode::IATA,
        5u16 => OptionCode::IAAddr,
        6u16 => OptionCode::ORO,
        7u16 => OptionCode::Preference,
        8u16 => OptionCode::ElapsedTime,
        9u16 => OptionCode::RelayMsg,
        11u16 => OptionCode::Authentication,
        12u16 => OptionCode::ServerUnicast,
        13u16 => OptionCode::StatusCode,
        14u16 => OptionCode::RapidCommit,
        15u16 => OptionCode::UserClass,
        16u16 => OptionCode::VendorClass,
        17u16 => OptionCode::VendorOpts,
        18u16 => OptionCode::InterfaceId,
        19u16 => OptionCode::ReconfMsg,
        20u16 => OptionCode::ReconfAccept,
        _ => OptionCode::Unknown(n),
    }
}

/// The number that stands for `value`.
pub open spec fn number_of(value: OptionCode) -> u16 {
    match value {
        OptionCode::ClientId => 1,
        OptionCode::ServerId => 2,
        OptionCode::IANA => 3,
        OptionCode::IATA => 4,
        OptionCode::IAAddr => 5,
        OptionCode::ORO => 6,
        OptionCode::Preference => 7,
        OptionCode::ElapsedTime => 8,
        OptionCode::RelayMsg => 9,
        OptionCode::Authentication => 11,
        OptionCode::ServerUnicast => 12,
        OptionCode::StatusCode => 13,
        OptionCode::RapidCommit => 14,
        OptionCode::UserClass => 15,
        OptionCode::VendorClass => 16,
        OptionCode::VendorOpts => 17,
        OptionCode::InterfaceId => 18,
        OptionCode::ReconfMsg => 19,
        OptionCode::ReconfAccept => 20,
        OptionCode::Unknown(n) => n,
    }
}

/// Every 16-bit number comes back from the option code it stands for.
pub proof fn lemma_option_code_round_trip(n: u16)
    ensures
        number_of(code_of(n)) == n,
{
}

impl From<u16> for OptionCode {
    fn from(n: u16) -> (value: OptionCode) {
        match n {
            1 => OptionCode::ClientId,
            2 => OptionCode::ServerId,
            3 => OptionCode::IANA,
            4 => OptionCode::IATA,
            5 => OptionCode::IAAddr,
            6 => OptionCode::ORO,
            7 => OptionCode::Preference,
            8 => OptionCode::ElapsedTime,
            9 => OptionCode::RelayMsg,
            11 => OptionCode::Authentication,
            12 => OptionCode::ServerUnicast,
            13 => OptionCode::StatusCode,
            14 => OptionCode::RapidCommit,
            15 => OptionCode::UserClass,
            16 => OptionCode::VendorClass,
            17 => OptionCode::VendorOpts,
            18 => OptionCode::InterfaceId,
            19 => OptionCode::ReconfMsg,
            20 => OptionCode::ReconfAccept,
            n => OptionCode::Unknown(n),
        }
    }
}

impl FromSpecImpl<u16> for OptionCode {
    open spec fn obeys_from_spec() -> bool {
        true
    }

    open spec fn from_spec(n: u16) -> OptionCode {
        code_of(n)
    }
}

impl From<OptionCode> for u16 {
    fn from(value: OptionCode) -> (n: u16) {
        match value {
            OptionCode::ClientId => 1,
            OptionCode::ServerId => 2,
            OptionCode::IANA => 3,
            OptionCode::IATA => 4,
            OptionCode::IAAddr => 5,
            OptionCode::ORO => 6,
            OptionCode::Preference => 7,
            OptionCode::ElapsedTime => 8,
            OptionCode::RelayMsg => 9,
            OptionCode::Authentication => 11,
            OptionCode::ServerUnicast => 12,
            OptionCode::StatusCode => 13,
            OptionCode::RapidCommit => 14,
            OptionCode::UserClass => 15,
            OptionCode::VendorClass => 16,
            OptionCode::VendorOpts => 17,
            OptionCode::InterfaceId => 18,
            OptionCode::ReconfMsg => 19,
            OptionCode::ReconfAccept => 20,
            OptionCode::Unknown(n) => n,
        }
    }
}

impl FromSpecImpl<OptionCode> for u16 {
    open spec fn obeys_from_spec() -> bool {
        true
    }

    open spec fn from_spec(value: OptionCode) -> u16 {
        number_of(value)
    }
}

} // verus!
