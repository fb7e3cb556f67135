//! Wire-level codec for the EtherNet/IP (CIP) attribute and message layer.
//!
//! The crate covers the bounded-width attribute family with access control,
//! the length-prefixed framing protocol, the message-router request/response
//! codec, and the session registry, each with a byte-exact contract.

pub mod attr;
pub mod data_type;
pub mod eip;
pub mod encapsulation;
pub mod error_code;
pub mod identity;
pub mod item;
pub mod message_router;
pub mod reader;
pub mod send_data;
pub mod services;
pub mod session;
pub mod sink;
pub mod socket_address;
pub mod static_attr;
pub mod wire;

pub use error_code::ErrorCode;
pub use reader::Reader;
