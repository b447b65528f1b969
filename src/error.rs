use vstd::prelude::*;

verus! {

/// Every way in which encoding or decoding a DHCP message can fail.
#[derive(Clone, Copy, Debug, PartialEq, Eq, Structural)]
pub enum DhcpError {
    /// The option area does not start with the magic cookie.
    BadMagicCookie,
    /// Fewer bytes than the fixed header needs.
    TruncatedMessage,
    /// An option's tag or length announces more bytes than were received.
    TruncatedOption,
    /// An option's length does not fit its shape, its value is invalid, or
    /// an address list to encode is empty.
    MalformedOption,
    /// A hardware type other than Ethernet.
    UnsupportedHardwareType,
    /// An op byte other than BootRequest (1) or BootReply (2).
    InvalidOpcode,
    /// A flags word other than 0x8000 or 0x0000.
    InvalidFlagsValue,
    /// The encoded options do not fit the 312-byte option area, or an option
    /// value passes 255 bytes; on decode, more bytes than a message can hold.
    OptionAreaOverflow,
    /// The output buffer is smaller than the encoded message.
    BufferTooSmall,
}

} // verus!
