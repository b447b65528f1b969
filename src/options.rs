use vstd::prelude::*;

verus! {

/// Option overload modes (tag 52).
#[derive(Clone, Copy, Debug, PartialEq, Eq, Structural)]
pub enum OverloadMode {
    File,
    SName,
    Both,
}

/// DHCP message types (tag 53).
#[derive(Clone, Copy, Debug, PartialEq, Eq, Structural)]
pub enum MessageTy {
    Discover,
    Offer,
    Request,
    Decline,
    Ack,
    Nak,
    Release,
    Inform,
}

/// The payload shapes an option value can take on the wire.
#[derive(Clone, Copy, Debug, PartialEq, Eq, Structural)]
pub enum Shape {
    /// Pad and End: a tag byte alone.
    Marker,
    /// One IPv4 address, 4 bytes.
    Addr,
    /// One or more IPv4 addresses, 4 bytes each.
    AddrList,
    /// UTF-8 text.
    Text,
    Byte,
    /// A 16-bit integer in network order.
    Word,
    /// A 32-bit integer in network order.
    Long,
    /// One byte, zero for false.
    Flag,
    /// Pairs of IPv4 addresses, 8 bytes each.
    AddrPairs,
    /// 16-bit integers in network order.
    WordList,
    /// Opaque bytes.
    Bytes,
    /// A type byte followed by opaque bytes.
    ClientId,
    Overload,
    MsgType,
}

/// The shape registered for each known tag; `None` for an unknown tag.
pub open spec fn shape_of(tag: u8) -> Option<Shape> {
    match tag {
        0 | 255 => Some(Shape::Marker),
        1 | 2 | 16 | 28 | 32 | 50 | 54 => Some(Shape::Addr),
        3 | 4 | 5 | 6 | 7 | 8 | 9 | 10 | 11 | 41 | 42 | 44 | 45 | 48 | 49 | 65 | 68 | 69 | 70
        | 71 | 72 | 73 | 74 | 75 | 76 => Some(Shape::AddrList),
        12 | 14 | 15 | 17 | 18 | 40 | 47 | 56 | 60 | 64 | 66 | 67 => Some(Shape::Text),
        23 | 37 | 46 => Some(Shape::Byte),
        13 | 22 | 26 | 57 => Some(Shape::Word),
        24 | 35 | 38 | 51 | 58 | 59 => Some(Shape::Long),
        19 | 20 | 27 | 29 | 30 | 31 | 34 | 36 | 39 => Some(Shape::Flag),
        21 | 33 => Some(Shape::AddrPairs),
        25 => Some(Shape::WordList),
        55 => Some(Shape::Bytes),
        61 => Some(Shape::ClientId),
        52 => Some(Shape::Overload),
        53 => Some(Shape::MsgType),
        _ => None,
    }
}

/// Executable lookup in the tag table.
pub fn tag_shape(tag: u8) -> (r: Option<Shape>)
    ensures
        r == shape_of(tag),
{
    match tag {
        0 | 255 => Some(Shape::Marker),
        1 | 2 | 16 | 28 | 32 | 50 | 54 => Some(Shape::Addr),
        3 | 4 | 5 | 6 | 7 | 8 | 9 | 10 | 11 | 41 | 42 | 44 | 45 | 48 | 49 | 65 | 68 | 69 | 70
        | 71 | 72 | 73 | 74 | 75 | 76 => Some(Shape::AddrList),
        12 | 14 | 15 | 17 | 18 | 40 | 47 | 56 | 60 | 64 | 66 | 67 => Some(Shape::Text),
        23 | 37 | 46 => Some(Shape::Byte),
        13 | 22 | 26 | 57 => Some(Shape::Word),
        24 | 35 | 38 | 51 | 58 | 59 => Some(Shape::Long),
        19 | 20 | 27 | 29 | 30 | 31 | 34 | 36 | 39 => Some(Shape::Flag),
        21 | 33 => Some(Shape::AddrPairs),
        25 => Some(Shape::WordList),
        55 => Some(Shape::Bytes),
        61 => Some(Shape::ClientId),
        52 => Some(Shape::Overload),
        53 => Some(Shape::MsgType),
        _ => None,
    }
}

/// The mathematical value carried by an option.
pub enum Payload {
    Empty,
    Addr([u8; 4]),
    AddrList(Seq<[u8; 4]>),
    Text(Seq<char>),
    Byte(u8),
    Word(u16),
    Long(u32),
    Flag(bool),
    AddrPairs(Seq<([u8; 4], [u8; 4])>),
    WordList(Seq<u16>),
    Bytes(Seq<u8>),
    ClientId(u8, Seq<u8>),
    Overload(OverloadMode),
    MsgType(MessageTy),
}

/// The shape a payload has.
pub open spec fn payload_shape(p: Payload) -> Shape {
    match p {
        Payload::Empty => Shape::Marker,
        Payload::Addr(_) => Shape::Addr,
        Payload::AddrList(_) => Shape::AddrList,
        Payload::Text(_) => Shape::Text,
        Payload::Byte(_) => Shape::Byte,
        Payload::Word(_) => Shape::Word,
        Payload::Long(_) => Shape::Long,
        Payload::Flag(_) => Shape::Flag,
        Payload::AddrPairs(_) => Shape::AddrPairs,
        Payload::WordList(_) => Shape::WordList,
        Payload::Bytes(_) => Shape::Bytes,
        Payload::ClientId(_, _) => Shape::ClientId,
        Payload::Overload(_) => Shape::Overload,
        Payload::MsgType(_) => Shape::MsgType,
    }
}

/// An option as a tag and the value it carries.
pub struct OptionView {
    pub tag: u8,
    pub payload: Payload,
}

pub open spec fn ov(tag: u8, payload: Payload) -> OptionView {
    OptionView { tag, payload }
}

/// An option whose payload has the shape its tag is registered with.
pub open spec fn well_typed(o: OptionView) -> bool {
    shape_of(o.tag) == Some(payload_shape(o.payload))
}

/// DHCP options (RFC 2132), each with its tag and payload.
#[derive(Clone, Debug, PartialEq, Eq)]
pub enum Options {
    Pad,
    End,
    SubNetMask([u8; 4]),
    TimeOffset([u8; 4]),
    Router(Vec<[u8; 4]>),
    TimeServer(Vec<[u8; 4]>),
    NameServer(Vec<[u8; 4]>),
    DNS(Vec<[u8; 4]>),
    LogServer(Vec<[u8; 4]>),
    CookieServer(Vec<[u8; 4]>),
    LPRServer(Vec<[u8; 4]>),
    ImpressServer(Vec<[u8; 4]>),
    ResourceLocationServer(Vec<[u8; 4]>),
    Hostname(String),
    BootfileSize(u16),
    MeritDumpFile(String),
    DomainName(String),
    SwapServer([u8; 4]),
    RootPath(String),
    ExtensionPath(String),
    IpForwarding(bool),
    NonLocalSourceRouting(bool),
    PolicyFilter(Vec<([u8; 4], [u8; 4])>),
    MaximumDatagramReassemblySize(u16),
    DefaultIpTTL(u8),
    PathMTUAgingTimeout(u32),
    PathMTUPalteauTable(Vec<u16>),
    InterfaceMTU(u16),
    AllSubnetsAreLocal(bool),
    BroadCastAddress([u8; 4]),
    PerformMaskDiscovery(bool),
    MaskSupplier(bool),
    PerformRouterDiscovery(bool),
    RouterSolicitationAddress([u8; 4]),
    StaticRoute(Vec<([u8; 4], [u8; 4])>),
    TrailerEncapsulation(bool),
    ARPCacheTimeout(u32),
    EthernetEncapsulation(bool),
    TCPDefaultTTL(u8),
    TCPKeepaliveInterval(u32),
    TCPKeepaliveGarbage(bool),
    NetworkInformationServiceDomain(String),
    NetworkInformationServers(Vec<[u8; 4]>),
    NTPServer(Vec<[u8; 4]>),
    NetBIOSoverTCPIPNameServer(Vec<[u8; 4]>),
    NetBIOSoverTCPIPDatagramDistributionServer(Vec<[u8; 4]>),
    NetBIOSoverTCPIPNodeType(u8),
    NetBIOSoverTCPIPScope(String),
    XWindowSystemFontServer(Vec<[u8; 4]>),
    XWindowSystemDisplayManager(Vec<[u8; 4]>),
    NetworkInformationServicePlusDomain(String),
    NetworkInformationServicePlusServers(Vec<[u8; 4]>),
    MobileIPHomeAgent(Vec<[u8; 4]>),
    SMTPServer(Vec<[u8; 4]>),
    POPServer(Vec<[u8; 4]>),
    NNTPServer(Vec<[u8; 4]>),
    DefaultWWWServer(Vec<[u8; 4]>),
    DefaultFingerServer(Vec<[u8; 4]>),
    DefaultIRCServer(Vec<[u8; 4]>),
    StreetTalkServer(Vec<[u8; 4]>),
    StreetTalkDirectoryAssistanceServer(Vec<[u8; 4]>),
    RequestedIPAddress([u8; 4]),
    IPAddressLeaseTime(u32),
    OptionOverload(OverloadMode),
    TFTPServerName(String),
    BootFileName(String),
    DHCPMessageType(MessageTy),
    ServerIdentifer([u8; 4]),
    ParameterRequestList(Vec<u8>),
    Message(String),
    MaximumDHCPMessageSize(u16),
    RenewalTime(u32),
    RebindingTime(u32),
    VendorClassIdentifier(String),
    ClientIdentifier(u8, Vec<u8>),
}

impl View for Options {
    type V = OptionView;

    open spec fn view(&self) -> OptionView {
        match self {
            Options::Pad => ov(0, Payload::Empty),
            Options::End => ov(255, Payload::Empty),
            Options::SubNetMask(a) => ov(1, Payload::Addr(*a)),
            Options::TimeOffset(a) => ov(2, Payload::Addr(*a)),
            Options::Router(l) => ov(3, Payload::AddrList(l@)),
            Options::TimeServer(l) => ov(4, Payload::AddrList(l@)),
            Options::NameServer(l) => ov(5, Payload::AddrList(l@)),
            Options::DNS(l) => ov(6, Payload::AddrList(l@)),
            Options::LogServer(l) => ov(7, Payload::AddrList(l@)),
            Options::CookieServer(l) => ov(8, Payload::AddrList(l@)),
            Options::LPRServer(l) => ov(9, Payload::AddrList(l@)),
            Options::ImpressServer(l) => ov(10, Payload::AddrList(l@)),
            Options::ResourceLocationServer(l) => ov(11, Payload::AddrList(l@)),
            Options::Hostname(s) => ov(12, Payload::Text(s@)),
            Options::BootfileSize(w) => ov(13, Payload::Word(*w)),
            Options::MeritDumpFile(s) => ov(14, Payload::Text(s@)),
            Options::DomainName(s) => ov(15, Payload::Text(s@)),
            Options::SwapServer(a) => ov(16, Payload::Addr(*a)),
            Options::RootPath(s) => ov(17, Payload::Text(s@)),
            Options::ExtensionPath(s) => ov(18, Payload::Text(s@)),
            Options::IpForwarding(b) => ov(19, Payload::Flag(*b)),
            Options::NonLocalSourceRouting(b) => ov(20, Payload::Flag(*b)),
            Options::PolicyFilter(l) => ov(21, Payload::AddrPairs(l@)),
            Options::MaximumDatagramReassemblySize(w) => ov(22, Payload::Word(*w)),
            Options::DefaultIpTTL(x) => ov(23, Payload::Byte(*x)),
            Options::PathMTUAgingTimeout(x) => ov(24, Payload::Long(*x)),
            Options::PathMTUPalteauTable(l) => ov(25, Payload::WordList(l@)),
            Options::InterfaceMTU(w) => ov(26, Payload::Word(*w)),
            Options::AllSubnetsAreLocal(b) => ov(27, Payload::Flag(*b)),
            Options::BroadCastAddress(a) => ov(28, Payload::Addr(*a)),
            Options::PerformMaskDiscovery(b) => ov(29, Payload::Flag(*b)),
            Options::MaskSupplier(b) => ov(30, Payload::Flag(*b)),
            Options::PerformRouterDiscovery(b) => ov(31, Payload::Flag(*b)),
            Options::RouterSolicitationAddress(a) => ov(32, Payload::Addr(*a)),
            Options::StaticRoute(l) => ov(33, Payload::AddrPairs(l@)),
            Options::TrailerEncapsulation(b) => ov(34, Payload::Flag(*b)),
            Options::ARPCacheTimeout(x) => ov(35, Payload::Long(*x)),
            Options::EthernetEncapsulation(b) => ov(36, Payload::Flag(*b)),
            Options::TCPDefaultTTL(x) => ov(37, Payload::Byte(*x)),
            Options::TCPKeepaliveInterval(x) => ov(38, Payload::Long(*x)),
            Options::TCPKeepaliveGarbage(b) => ov(39, Payload::Flag(*b)),
            Options::NetworkInformationServiceDomain(s) => ov(40, Payload::Text(s@)),
            Options::NetworkInformationServers(l) => ov(41, Payload::AddrList(l@)),
            Options::NTPServer(l) => ov(42, Payload::AddrList(l@)),
            Options::NetBIOSoverTCPIPNameServer(l) => ov(44, Payload::AddrList(l@)),
            Options::NetBIOSoverTCPIPDatagramDistributionServer(l) => ov(45, Payload::AddrList(l@)),
            Options::NetBIOSoverTCPIPNodeType(x) => ov(46, Payload::Byte(*x)),
            Options::NetBIOSoverTCPIPScope(s) => ov(47, Payload::Text(s@)),
            Options::XWindowSystemFontServer(l) => ov(48, Payload::AddrList(l@)),
            Options::XWindowSystemDisplayManager(l) => ov(49, Payload::AddrList(l@)),
            Options::NetworkInformationServicePlusDomain(s) => ov(64, Payload::Text(s@)),
            Options::NetworkInformationServicePlusServers(l) => ov(65, Payload::AddrList(l@)),
            Options::MobileIPHomeAgent(l) => ov(68, Payload::AddrList(l@)),
            Options::SMTPServer(l) => ov(69, Payload::AddrList(l@)),
            Options::POPServer(l) => ov(70, Payload::AddrList(l@)),
            Options::NNTPServer(l) => ov(71, Payload::AddrList(l@)),
            Options::DefaultWWWServer(l) => ov(72, Payload::AddrList(l@)),
            Options::DefaultFingerServer(l) => ov(73, Payload::AddrList(l@)),
            Options::DefaultIRCServer(l) => ov(74, Payload::AddrList(l@)),
            Options::StreetTalkServer(l) => ov(75, Payload::AddrList(l@)),
            Options::StreetTalkDirectoryAssistanceServer(l) => ov(76, Payload::AddrList(l@)),
            Options::RequestedIPAddress(a) => ov(50, Payload::Addr(*a)),
            Options::IPAddressLeaseTime(x) => ov(51, Payload::Long(*x)),
            Options::OptionOverload(m) => ov(52, Payload::Overload(*m)),
            Options::TFTPServerName(s) => ov(66, Payload::Text(s@)),
            Options::BootFileName(s) => ov(67, Payload::Text(s@)),
            Options::DHCPMessageType(m) => ov(53, Payload::MsgType(*m)),
            Options::ServerIdentifer(a) => ov(54, Payload::Addr(*a)),
            Options::ParameterRequestList(b) => ov(55, Payload::Bytes(b@)),
            Options::Message(s) => ov(56, Payload::Text(s@)),
            Options::MaximumDHCPMessageSize(w) => ov(57, Payload::Word(*w)),
            Options::RenewalTime(x) => ov(58, Payload::Long(*x)),
            Options::RebindingTime(x) => ov(59, Payload::Long(*x)),
            Options::VendorClassIdentifier(s) => ov(60, Payload::Text(s@)),
            Options::ClientIdentifier(t, b) => ov(61, Payload::ClientId(*t, b@)),
        }
    }
}

/// The views of a sequence of options.
pub open spec fn views(s: Seq<Options>) -> Seq<OptionView> {
    s.map_values(|o: Options| o@)
}

impl Options {
    /// The tag byte that identifies this option on the wire.
    pub fn tag_number(&self) -> (r: u8)
        ensures
            r == self@.tag,
            well_typed(self@),
    {
        match self {
            Options::Pad => 0,
            Options::End => 255,
            Options::SubNetMask(_) => 1,
            Options::TimeOffset(_) => 2,
            Options::Router(_) => 3,
            Options::TimeServer(_) => 4,
            Options::NameServer(_) => 5,
            Options::DNS(_) => 6,
            Options::LogServer(_) => 7,
            Options::CookieServer(_) => 8,
            Options::LPRServer(_) => 9,
            Options::ImpressServer(_) => 10,
            Options::ResourceLocationServer(_) => 11,
            Options::Hostname(_) => 12,
            Options::BootfileSize(_) => 13,
            Options::MeritDumpFile(_) => 14,
            Options::DomainName(_) => 15,
            Options::SwapServer(_) => 16,
            Options::RootPath(_) => 17,
            Options::ExtensionPath(_) => 18,
            Options::IpForwarding(_) => 19,
            Options::NonLocalSourceRouting(_) => 20,
            Options::PolicyFilter(_) => 21,
            Options::MaximumDatagramReassemblySize(_) => 22,
            Options::DefaultIpTTL(_) => 23,
            Options::PathMTUAgingTimeout(_) => 24,
            Options::PathMTUPalteauTable(_) => 25,
            Options::InterfaceMTU(_) => 26,
            Options::AllSubnetsAreLocal(_) => 27,
            Options::BroadCastAddress(_) => 28,
            Options::PerformMaskDiscovery(_) => 29,
            Options::MaskSupplier(_) => 30,
            Options::PerformRouterDiscovery(_) => 31,
            Options::RouterSolicitationAddress(_) => 32,
            Options::StaticRoute(_) => 33,
            Options::TrailerEncapsulation(_) => 34,
            Options::ARPCacheTimeout(_) => 35,
            Options::EthernetEncapsulation(_) => 36,
            Options::TCPDefaultTTL(_) => 37,
            Options::TCPKeepaliveInterval(_) => 38,
            Options::TCPKeepaliveGarbage(_) => 39,
            Options::NetworkInformationServiceDomain(_) => 40,
            Options::NetworkInformationServers(_) => 41,
            Options::NTPServer(_) => 42,
            Options::NetBIOSoverTCPIPNameServer(_) => 44,
            Options::NetBIOSoverTCPIPDatagramDistributionServer(_) => 45,
            Options::NetBIOSoverTCPIPNodeType(_) => 46,
            Options::NetBIOSoverTCPIPScope(_) => 47,
            Options::XWindowSystemFontServer(_) => 48,
            Options::XWindowSystemDisplayManager(_) => 49,
            Options::NetworkInformationServicePlusDomain(_) => 64,
            Options::NetworkInformationServicePlusServers(_) => 65,
            Options::MobileIPHomeAgent(_) => 68,
            Options::SMTPServer(_) => 69,
            Options::POPServer(_) => 70,
            Options::NNTPServer(_) => 71,
            Options::DefaultWWWServer(_) => 72,
            Options::DefaultFingerServer(_) => 73,
            Options::DefaultIRCServer(_) => 74,
            Options::StreetTalkServer(_) => 75,
            Options::StreetTalkDirectoryAssistanceServer(_) => 76,
            Options::RequestedIPAddress(_) => 50,
            Options::IPAddressLeaseTime(_) => 51,
            Options::OptionOverload(_) => 52,
            Options::TFTPServerName(_) => 66,
            Options::BootFileName(_) => 67,
            Options::DHCPMessageType(_) => 53,
            Options::ServerIdentifer(_) => 54,
            Options::ParameterRequestList(_) => 55,
            Options::Message(_) => 56,
            Options::MaximumDHCPMessageSize(_) => 57,
            Options::RenewalTime(_) => 58,
            Options::RebindingTime(_) => 59,
            Options::VendorClassIdentifier(_) => 60,
            Options::ClientIdentifier(_, _) => 61,
        }
    }
}

} // verus!
