//! DHCP for IPv6: the message, its options and their codes.

pub mod code;
pub mod laws;
pub mod message;
pub mod model;
pub mod option;
pub mod options;

pub use self::code::{MessageType, OptionCode};
pub use self::message::Message;
pub use self::option::{DhcpOption, Duid, UnknownOption};
pub use self::options::DhcpOptions;
pub use crate::decoder::{Decodable, Decoder};
pub use crate::encoder::{Encodable, Encoder};
