//! A DHCP parser and encoder for DHCPv4 and DHCPv6.
//!
//! Bytes go through a [`Decoder`] into a `Message`, and a `Message` goes
//! through an [`Encoder`] back into bytes. Every type that is read or
//! written comes with a mathematical description of its wire format, and
//! reading and writing are proved to follow it.

pub mod addr;
pub mod decoder;
pub mod domain;
pub mod encoder;
pub mod error;
pub mod order;
pub mod v4;
pub mod v6;
pub mod wire;

pub use crate::decoder::{Decodable, Decoder};
pub use crate::domain::Domain;
pub use crate::encoder::{Encodable, Encoder};
pub use trust_dns_proto::rr::Name;
