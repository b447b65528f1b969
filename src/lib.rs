//! A wire-format codec for DHCP messages: the fixed header of RFC 2131 and
//! the options of RFC 2132, decoded and encoded with checked bounds.

pub mod codec;
pub mod error;
pub mod header;
pub mod message;
pub mod options;
pub mod wire;

pub use codec::{decode_options, encode_options, OptionDecoder, OptionEncoder};
pub use error::DhcpError;
pub use header::DHCPMessageRaw;
pub use message::{decode_message, encode_message, DHCPMessage, HType, HwAddress, Op};
pub use options::{MessageTy, Options, OverloadMode};
