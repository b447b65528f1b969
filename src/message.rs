use vstd::prelude::*;
use vstd::string::StringExecFns;
use crate::codec::{decode_options, encode_options};
use crate::error::DhcpError;
use crate::header::{header_seq, DHCPMessageRaw, HEADER_LEN, MAX_MESSAGE_LEN};
use crate::options::{views, well_typed, MessageTy, OptionView, Options, Payload, ov};
use crate::wire::{
    be16, be32, decode_area, encode_area, encodable_options, lemma_be16, lemma_be32,
    lemma_encode_area, lemma_options_round_trip, long_at, magic_cookie, options_bytes, quad_at,
    word_at,
};

verus! {

#[derive(Clone, Copy, Debug, PartialEq, Eq, Structural)]
pub enum Op {
    BootRequest,
    BootReply,
}

/// Hardware types of RFC 1700; only Ethernet is supported by the codec.
#[derive(Clone, Copy, Debug, PartialEq, Eq, Structural)]
pub enum HType {
    /// ethernet or wifi.
    Ethernet,
    ExperimentalEthernet,
    AX25,
    ProteonProNETTokenRing,
    Chaos,
    IEEE802Networks,
    ARCNET,
    Hyperchannel,
    Lanstar,
    AutonetShortAddress,
    LocalTalk,
    LocalNet,
    Ultralink,
    SMDS,
    FrameRelay,
    Atm,
    HDLC,
    FibreChannel,
    SerialLine,
}

pub open spec fn op_code(op: Op) -> u8 {
    match op {
        Op::BootRequest => 1,
        Op::BootReply => 2,
    }
}

pub open spec fn op_of(b: u8) -> Option<Op> {
    if b == 1 {
        Some(Op::BootRequest)
    } else if b == 2 {
        Some(Op::BootReply)
    } else {
        None
    }
}

/// The hardware type code and address length of a supported hardware type.
pub open spec fn hw_type_code(h: HType) -> Option<(u8, u8)> {
    if h == HType::Ethernet {
        Some((1u8, 6u8))
    } else {
        None
    }
}

/// The flags word: only the high (broadcast) bit is defined.
pub open spec fn flags_word(broadcast: bool) -> u16 {
    if broadcast {
        0x8000
    } else {
        0
    }
}

pub open spec fn flag_of(w: u16) -> Option<bool> {
    if w == 0x8000 {
        Some(true)
    } else if w == 0 {
        Some(false)
    } else {
        None
    }
}

impl HType {
    /// The hardware type code and address length; `None` for a hardware
    /// type the codec does not support.
    pub fn code_and_len(self) -> (r: Option<(u8, u8)>)
        ensures
            r == hw_type_code(self),
    {
        match self {
            HType::Ethernet => Some((1, 6)),
            _ => None,
        }
    }
}

/// A client hardware address.
#[derive(Clone, Copy, Debug, PartialEq, Eq)]
pub enum HwAddress {
    Ethernet([u8; 6]),
}

impl HwAddress {
    pub open spec fn bytes(&self) -> Seq<u8> {
        match self {
            HwAddress::Ethernet(a) => a@,
        }
    }

    /// The address bytes.
    pub fn addr(&self) -> (r: &[u8])
        ensures
            r@ == self.bytes(),
    {
        match self {
            HwAddress::Ethernet(a) => vstd::array::array_as_slice(a),
        }
    }

    /// The hardware type this address belongs to.
    pub fn hw_type(&self) -> (r: HType)
        ensures
            r == HType::Ethernet,
    {
        match self {
            HwAddress::Ethernet(_) => HType::Ethernet,
        }
    }
}

/// A DHCP message in typed form.
#[derive(Debug)]
pub struct DHCPMessage {
    pub op: Op,
    pub htype: HType,
    pub hlen: u8,
    pub hops: u8,
    pub xid: u32,
    pub secs: u16,
    /// the broadcast flag
    pub flags: bool,
    pub ciaddr: [u8; 4],
    pub yiaddr: [u8; 4],
    pub siaddr: [u8; 4],
    pub giaddr: [u8; 4],
    pub chaddr: [u8; 16],
    pub sname: [u8; 64],
    pub file: [u8; 128],
    /// options in wire order
    pub options: Vec<Options>,
}

/// A typed message as a mathematical value.
pub struct MessageView {
    pub op: Op,
    pub htype: HType,
    pub hlen: u8,
    pub hops: u8,
    pub xid: u32,
    pub secs: u16,
    pub flags: bool,
    pub ciaddr: [u8; 4],
    pub yiaddr: [u8; 4],
    pub siaddr: [u8; 4],
    pub giaddr: [u8; 4],
    pub chaddr: Seq<u8>,
    pub sname: Seq<u8>,
    pub file: Seq<u8>,
    pub options: Seq<OptionView>,
}

impl View for DHCPMessage {
    type V = MessageView;

    open spec fn view(&self) -> MessageView {
        MessageView {
            op: self.op,
            htype: self.htype,
            hlen: self.hlen,
            hops: self.hops,
            xid: self.xid,
            secs: self.secs,
            flags: self.flags,
            ciaddr: self.ciaddr,
            yiaddr: self.yiaddr,
            siaddr: self.siaddr,
            giaddr: self.giaddr,
            chaddr: self.chaddr@,
            sname: self.sname@,
            file: self.file@,
            options: views(self.options@),
        }
    }
}

/// The typed message that header fields and an option area stand for,
/// with the error that stopped reading the options, if any.
pub open spec fn typed_from(
    op: u8,
    htype: u8,
    hlen: u8,
    hops: u8,
    xid: u32,
    secs: u16,
    flags: u16,
    ciaddr: [u8; 4],
    yiaddr: [u8; 4],
    siaddr: [u8; 4],
    giaddr: [u8; 4],
    chaddr: Seq<u8>,
    sname: Seq<u8>,
    file: Seq<u8>,
    area: Seq<u8>,
) -> Result<(MessageView, Option<DhcpError>), DhcpError> {
    if op_of(op) is None {
        Err(DhcpError::InvalidOpcode)
    } else if htype != 1 {
        Err(DhcpError::UnsupportedHardwareType)
    } else if flag_of(flags) is None {
        Err(DhcpError::InvalidFlagsValue)
    } else {
        match decode_area(area) {
            Err(e) => Err(e),
            Ok((opts, err)) => Ok(
                (
                    MessageView {
                        op: op_of(op).unwrap(),
                        htype: HType::Ethernet,
                        hlen,
                        hops,
                        xid,
                        secs,
                        flags: flag_of(flags).unwrap(),
                        ciaddr,
                        yiaddr,
                        siaddr,
                        giaddr,
                        chaddr,
                        sname,
                        file,
                        options: opts,
                    },
                    err,
                ),
            ),
        }
    }
}

/// What decoding a raw message gives.
pub open spec fn raw_decoded(r: DHCPMessageRaw) -> Result<(MessageView, Option<DhcpError>), DhcpError> {
    typed_from(
        r.op,
        r.htype,
        r.hlen,
        r.hops,
        r.xid,
        r.secs,
        r.flags,
        r.ciaddr,
        r.yiaddr,
        r.siaddr,
        r.giaddr,
        r.chaddr@,
        r.sname@,
        r.file@,
        r.options@,
    )
}

/// What decoding the received bytes `b` of a message gives.
pub open spec fn decode_wire(b: Seq<u8>) -> Result<(MessageView, Option<DhcpError>), DhcpError> {
    if b.len() < HEADER_LEN {
        Err(DhcpError::TruncatedMessage)
    } else if b.len() > MAX_MESSAGE_LEN {
        Err(DhcpError::OptionAreaOverflow)
    } else {
        typed_from(
            b[0],
            b[1],
            b[2],
            b[3],
            long_at(b, 4),
            word_at(b, 8),
            word_at(b, 10),
            quad_at(b, 12),
            quad_at(b, 16),
            quad_at(b, 20),
            quad_at(b, 24),
            b.subrange(28, 44),
            b.subrange(44, 108),
            b.subrange(108, 236),
            b.subrange(236, b.len() as int),
        )
    }
}

/// The client hardware address field as written: the first `hlen` bytes of
/// `chaddr`, then zeros up to 16 bytes.
pub open spec fn padded_chaddr(chaddr: Seq<u8>, hlen: u8) -> Seq<u8> {
    Seq::new(16, |i: int| if i < hlen { chaddr[i] } else { 0u8 })
}

/// The wire form of a typed message, or the error that prevents it.
pub open spec fn encode_wire(m: MessageView) -> Result<Seq<u8>, DhcpError> {
    if hw_type_code(m.htype) is None {
        Err(DhcpError::UnsupportedHardwareType)
    } else {
        match encode_area(m.options) {
            Err(e) => Err(e),
            Ok(area) => Ok(
                header_seq(
                    op_code(m.op),
                    hw_type_code(m.htype).unwrap().0,
                    m.hlen,
                    m.hops,
                    m.xid,
                    m.secs,
                    flags_word(m.flags),
                    m.ciaddr,
                    m.yiaddr,
                    m.siaddr,
                    m.giaddr,
                    padded_chaddr(m.chaddr, m.hlen),
                    m.sname,
                    m.file,
                ) + area,
            ),
        }
    }
}

impl DHCPMessageRaw {
    /// The typed form of this message: fails on an invalid op, hardware
    /// type, flags word or magic cookie; otherwise keeps the options read
    /// before any option error, and returns that error beside them.
    pub fn decode_to_rustic_message(self) -> (r: Result<(DHCPMessage, Option<DhcpError>), DhcpError>)
        ensures
            match raw_decoded(self) {
                Ok((mv, err)) => r matches Ok((m, e)) && m@ == mv && e == err,
                Err(e) => r == Err::<(DHCPMessage, Option<DhcpError>), DhcpError>(e),
            },
    {
        let op = match self.op {
            1 => Op::BootRequest,
            2 => Op::BootReply,
            _ => {
                return Err(DhcpError::InvalidOpcode);
            },
        };
        if self.htype != 1 {
            return Err(DhcpError::UnsupportedHardwareType);
        }
        let flags = if self.flags == 0x8000 {
            true
        } else if self.flags == 0 {
            false
        } else {
            return Err(DhcpError::InvalidFlagsValue);
        };
        let (options, err) = match decode_options(self.options.as_slice()) {
            Ok(x) => x,
            Err(e) => {
                return Err(e);
            },
        };
        Ok(
            (
                DHCPMessage {
                    op,
                    htype: HType::Ethernet,
                    hlen: self.hlen,
                    hops: self.hops,
                    xid: self.xid,
                    secs: self.secs,
                    flags,
                    ciaddr: self.ciaddr,
                    yiaddr: self.yiaddr,
                    siaddr: self.siaddr,
                    giaddr: self.giaddr,
                    chaddr: self.chaddr,
                    sname: self.sname,
                    file: self.file,
                    options,
                },
                err,
            ),
        )
    }
}

impl DHCPMessage {
    /// The message in wire layout; fails where the hardware type is not
    /// supported or the options cannot be encoded.
    pub fn to_raw(&self) -> (r: Result<DHCPMessageRaw, DhcpError>)
        ensures
            match encode_wire(self@) {
                Ok(b) => r matches Ok(raw) && raw.wire_bytes() == b,
                Err(e) => r == Err::<DHCPMessageRaw, DhcpError>(e),
            },
    {
        let (htype, _) = match self.htype.code_and_len() {
            Some(x) => x,
            None => {
                return Err(DhcpError::UnsupportedHardwareType);
            },
        };
        let options = match encode_options(self.options.as_slice()) {
            Ok(area) => area,
            Err(e) => {
                return Err(e);
            },
        };
        let op: u8 = match self.op {
            Op::BootRequest => 1,
            Op::BootReply => 2,
        };
        let flags: u16 = if self.flags {
            0x8000
        } else {
            0
        };
        Ok(
            DHCPMessageRaw {
                op,
                htype,
                hlen: self.hlen,
                hops: self.hops,
                xid: self.xid,
                secs: self.secs,
                flags,
                ciaddr: self.ciaddr,
                yiaddr: self.yiaddr,
                siaddr: self.siaddr,
                giaddr: self.giaddr,
                chaddr: pad_chaddr(&self.chaddr, self.hlen),
                sname: self.sname,
                file: self.file,
                options,
            },
        )
    }
}

/// `chaddr` with the bytes from `hlen` on set to zero.
fn pad_chaddr(chaddr: &[u8; 16], hlen: u8) -> (r: [u8; 16])
    ensures
        r@ == padded_chaddr(chaddr@, hlen),
{
    let mut r = *chaddr;
    let mut i: usize = 0;
    while i < 16
        invariant
            i <= 16,
            r@.len() == 16,
            forall|j: int| 0 <= j < i ==> r@[j] == padded_chaddr(chaddr@, hlen)[j],
            forall|j: int| i <= j < 16 ==> r@[j] == chaddr@[j],
        decreases 16 - i,
    {
        if i >= hlen as usize {
            r[i] = 0;
        }
        i = i + 1;
    }
    assert(r@ =~= padded_chaddr(chaddr@, hlen));
    r
}

/// Decodes the first `received_length` bytes of `bytes` as a DHCP message:
/// the fixed header, then the option area. Options read before an option
/// error are kept, and the error is returned beside them.
pub fn decode_message(bytes: &[u8], received_length: usize) -> (r: Result<
    (DHCPMessage, Option<DhcpError>),
    DhcpError,
>)
    ensures
        received_length > bytes@.len() ==> r == Err::<(DHCPMessage, Option<DhcpError>), DhcpError>(
            DhcpError::TruncatedMessage,
        ),
        received_length <= bytes@.len() ==> match decode_wire(bytes@.take(received_length as int)) {
            Ok((mv, err)) => r matches Ok((m, e)) && m@ == mv && e == err,
            Err(e) => r == Err::<(DHCPMessage, Option<DhcpError>), DhcpError>(e),
        },
{
    let raw = match DHCPMessageRaw::decode_received_message(bytes, received_length) {
        Ok(raw) => raw,
        Err(e) => {
            return Err(e);
        },
    };
    proof {
        let b = bytes@;
        let t = b.take(received_length as int);
        assert(t.subrange(28, 44) =~= b.subrange(28, 44));
        assert(t.subrange(44, 108) =~= b.subrange(44, 108));
        assert(t.subrange(108, 236) =~= b.subrange(108, 236));
        assert(t.subrange(236, t.len() as int) =~= b.subrange(236, received_length as int));
        assert(quad_at(t, 12) =~= quad_at(b, 12));
        assert(quad_at(t, 16) =~= quad_at(b, 16));
        assert(quad_at(t, 20) =~= quad_at(b, 20));
        assert(quad_at(t, 24) =~= quad_at(b, 24));
        assert(raw_decoded(raw) == decode_wire(t));
    }
    raw.decode_to_rustic_message()
}

/// Encodes a typed message into its wire form: the 236-byte fixed header,
/// then the option area. Only these bytes are to be sent.
pub fn encode_message(m: &DHCPMessage) -> (r: Result<Vec<u8>, DhcpError>)
    ensures
        match encode_wire(m@) {
            Ok(b) => r matches Ok(v) && v@ == b,
            Err(e) => r == Err::<Vec<u8>, DhcpError>(e),
        },
{
    match m.to_raw() {
        Ok(raw) => Ok(raw.to_bytes()),
        Err(e) => Err(e),
    }
}

/// A typed message whose wire form decodes back to it: the fixed-size
/// fields have their sizes, the bytes of `chaddr` past `hlen` are zero, each
/// option's payload has the shape of its tag, and End, if present, is the
/// last option.
pub open spec fn representable(m: MessageView) -> bool {
    &&& m.chaddr.len() == 16
    &&& forall|i: int| m.hlen <= i < 16 ==> #[trigger] m.chaddr[i] == 0
    &&& m.sname.len() == 64
    &&& m.file.len() == 128
    &&& forall|i: int| 0 <= i < m.options.len() ==> well_typed(#[trigger] m.options[i])
    &&& forall|i: int| 0 <= i < m.options.len() - 1 ==> (#[trigger] m.options[i]).tag != 255
}

/// Round trip: a representable message that encodes without error decodes
/// from its wire form to itself, field for field, with its options in the
/// same order and no option error.
#[verifier::rlimit(40)]
pub proof fn lemma_message_round_trip(m: MessageView)
    requires
        representable(m),
        encode_wire(m) is Ok,
    ensures
        decode_wire(encode_wire(m).unwrap()) == Ok::<(MessageView, Option<DhcpError>), DhcpError>(
            (m, None),
        ),
{
    lemma_encode_area(m.options);
    let area = magic_cookie() + options_bytes(m.options);
    assert(encodable_options(m.options));
    lemma_options_round_trip(m.options);
    let fw = flags_word(m.flags);
    let h = header_seq(
        op_code(m.op),
        1,
        m.hlen,
        m.hops,
        m.xid,
        m.secs,
        fw,
        m.ciaddr,
        m.yiaddr,
        m.siaddr,
        m.giaddr,
        padded_chaddr(m.chaddr, m.hlen),
        m.sname,
        m.file,
    );
    let b = h + area;
    assert(padded_chaddr(m.chaddr, m.hlen) =~= m.chaddr);
    assert(encode_wire(m).unwrap() == b);
    assert(h.len() == 236);
    lemma_be32(m.xid);
    lemma_be16(m.secs);
    lemma_be16(fw);
    assert(long_at(b, 4) == long_at(be32(m.xid), 0));
    assert(word_at(b, 8) == word_at(be16(m.secs), 0));
    assert(word_at(b, 10) == word_at(be16(fw), 0));
    assert(quad_at(b, 12) =~= m.ciaddr);
    assert(quad_at(b, 16) =~= m.yiaddr);
    assert(quad_at(b, 20) =~= m.siaddr);
    assert(quad_at(b, 24) =~= m.giaddr);
    assert(b.subrange(28, 44) =~= m.chaddr);
    assert(b.subrange(44, 108) =~= m.sname);
    assert(b.subrange(108, 236) =~= m.file);
    assert(b.subrange(236, b.len() as int) =~= area);
    assert(area.subrange(0, 4) =~= magic_cookie());
    assert(area.subrange(4, area.len() as int) =~= options_bytes(m.options));
    assert(op_of(op_code(m.op)) == Some(m.op));
}

/// The vendor class identifier that this client announces.
pub open spec fn vendor_class() -> Seq<char> {
    "rust-embedded-dhcp-client"@
}

/// The fields shared by the messages a client builds: a broadcast
/// BootRequest with zeroed addresses and the hardware address in `chaddr`.
pub open spec fn client_request(xid: u32, hw: Seq<u8>, options: Seq<OptionView>) -> MessageView {
    MessageView {
        op: Op::BootRequest,
        htype: HType::Ethernet,
        hlen: 6,
        hops: 0,
        xid,
        secs: 0,
        flags: true,
        ciaddr: [0u8, 0u8, 0u8, 0u8],
        yiaddr: [0u8, 0u8, 0u8, 0u8],
        siaddr: [0u8, 0u8, 0u8, 0u8],
        giaddr: [0u8, 0u8, 0u8, 0u8],
        chaddr: hw + Seq::new(10, |i: int| 0u8),
        sname: Seq::new(64, |i: int| 0u8),
        file: Seq::new(128, |i: int| 0u8),
        options,
    }
}

fn zero_addr() -> (r: [u8; 4])
    ensures
        r == [0u8, 0u8, 0u8, 0u8],
{
    [0u8, 0u8, 0u8, 0u8]
}

fn chaddr_of(hw: &HwAddress) -> (r: [u8; 16])
    ensures
        r@ == hw.bytes() + Seq::new(10, |i: int| 0u8),
{
    let a = hw.addr();
    let mut r = [0u8; 16];
    let mut k: usize = 0;
    while k < 6
        invariant
            a@ == hw.bytes(),
            a@.len() == 6,
            k <= 6,
            r@.len() == 16,
            forall|j: int| 0 <= j < k ==> r@[j] == a@[j],
            forall|j: int| 6 <= j < 16 ==> r@[j] == 0,
        decreases 6 - k,
    {
        r[k] = a[k];
        k = k + 1;
    }
    assert(r@ =~= hw.bytes() + Seq::new(10, |i: int| 0u8));
    r
}

fn vendor_class_text() -> (r: String)
    ensures
        r@ == vendor_class(),
{
    String::from_str("rust-embedded-dhcp-client")
}

impl DHCPMessage {
    fn client_request(xid: u32, hw: &HwAddress, options: Vec<Options>) -> (r: Self)
        ensures
            r@ == client_request(xid, hw.bytes(), views(options@)),
    {
        let sname = [0u8; 64];
        let file = [0u8; 128];
        assert(sname@ =~= Seq::new(64, |i: int| 0u8));
        assert(file@ =~= Seq::new(128, |i: int| 0u8));
        DHCPMessage {
            op: Op::BootRequest,
            htype: HType::Ethernet,
            hlen: 6,
            hops: 0,
            xid,
            secs: 0,
            flags: true,
            ciaddr: zero_addr(),
            yiaddr: zero_addr(),
            siaddr: zero_addr(),
            giaddr: zero_addr(),
            chaddr: chaddr_of(hw),
            sname,
            file,
            options,
        }
    }

    /// A DHCPDISCOVER: options MessageType(Discover), ClientIdentifier(1,
    /// address), VendorClassIdentifier, ParameterRequestList, End. Fails
    /// with `UnsupportedHardwareType` for a hardware type other than
    /// Ethernet.
    pub fn new_discover(
        transaction_id: u32,
        hardware_address: HwAddress,
        hw_type: HType,
        parameter_request_list: &[u8],
    ) -> (r: Result<Self, DhcpError>)
        ensures
            hw_type != HType::Ethernet ==> r == Err::<Self, DhcpError>(
                DhcpError::UnsupportedHardwareType,
            ),
            hw_type == HType::Ethernet ==> (r matches Ok(m) && m@ == client_request(
                transaction_id,
                hardware_address.bytes(),
                seq![
                    ov(53, Payload::MsgType(MessageTy::Discover)),
                    ov(61, Payload::ClientId(1, hardware_address.bytes())),
                    ov(60, Payload::Text(vendor_class())),
                    ov(55, Payload::Bytes(parameter_request_list@)),
                    ov(255, Payload::Empty),
                ],
            )),
    {
        let (htype, _) = match hw_type.code_and_len() {
            Some(x) => x,
            None => {
                return Err(DhcpError::UnsupportedHardwareType);
            },
        };
        let mut options: Vec<Options> = Vec::new();
        options.push(Options::DHCPMessageType(MessageTy::Discover));
        options.push(
            Options::ClientIdentifier(htype, vstd::slice::slice_to_vec(hardware_address.addr())),
        );
        options.push(Options::VendorClassIdentifier(vendor_class_text()));
        options.push(Options::ParameterRequestList(vstd::slice::slice_to_vec(parameter_request_list)));
        options.push(Options::End);
        let r = DHCPMessage::client_request(transaction_id, &hardware_address, options);
        assert(r@.options =~= seq![
            ov(53, Payload::MsgType(MessageTy::Discover)),
            ov(61, Payload::ClientId(1, hardware_address.bytes())),
            ov(60, Payload::Text(vendor_class())),
            ov(55, Payload::Bytes(parameter_request_list@)),
            ov(255, Payload::Empty),
        ]);
        Ok(r)
    }

    /// A DHCPREQUEST for an offered address: options MessageType(Request),
    /// RequestedIPAddress, ServerIdentifier, ClientIdentifier(1, address),
    /// VendorClassIdentifier, End. Fails with `UnsupportedHardwareType` for a
    /// hardware type other than Ethernet.
    pub fn new_request(
        transaction_id: u32,
        hardware_address: HwAddress,
        hw_type: HType,
        offered_ip_addr: [u8; 4],
        server_ip_addr: [u8; 4],
    ) -> (r: Result<Self, DhcpError>)
        ensures
            hw_type != HType::Ethernet ==> r == Err::<Self, DhcpError>(
                DhcpError::UnsupportedHardwareType,
            ),
            hw_type == HType::Ethernet ==> (r matches Ok(m) && m@ == client_request(
                transaction_id,
                hardware_address.bytes(),
                seq![
                    ov(53, Payload::MsgType(MessageTy::Request)),
                    ov(50, Payload::Addr(offered_ip_addr)),
                    ov(54, Payload::Addr(server_ip_addr)),
                    ov(61, Payload::ClientId(1, hardware_address.bytes())),
                    ov(60, Payload::Text(vendor_class())),
                    ov(255, Payload::Empty),
                ],
            )),
    {
        let (htype, _) = match hw_type.code_and_len() {
            Some(x) => x,
            None => {
                return Err(DhcpError::UnsupportedHardwareType);
            },
        };
        let mut options: Vec<Options> = Vec::new();
        options.push(Options::DHCPMessageType(MessageTy::Request));
        options.push(Options::RequestedIPAddress(offered_ip_addr));
        options.push(Options::ServerIdentifer(server_ip_addr));
        options.push(
            Options::ClientIdentifier(htype, vstd::slice::slice_to_vec(hardware_address.addr())),
        );
        options.push(Options::VendorClassIdentifier(vendor_class_text()));
        options.push(Options::End);
        let r = DHCPMessage::client_request(transaction_id, &hardware_address, options);
        assert(r@.options =~= seq![
            ov(53, Payload::MsgType(MessageTy::Request)),
            ov(50, Payload::Addr(offered_ip_addr)),
            ov(54, Payload::Addr(server_ip_addr)),
            ov(61, Payload::ClientId(1, hardware_address.bytes())),
            ov(60, Payload::Text(vendor_class())),
            ov(255, Payload::Empty),
        ]);
        Ok(r)
    }
}

impl DHCPMessage {
    /// The address of the first ServerIdentifier option, if there is one.
    pub fn server_identifier(&self) -> (r: Option<[u8; 4]>)
        ensures
            r matches Some(a) ==> exists|i: int|
                0 <= i < self@.options.len() && self@.options[i] == ov(54, Payload::Addr(a)) && (
                forall|j: int| 0 <= j < i ==> (#[trigger] self@.options[j]).tag != 54),
            r is None ==> forall|i: int|
                0 <= i < self@.options.len() ==> (#[trigger] self@.options[i]).tag != 54,
    {
        let mut i: usize = 0;
        while i < self.options.len()
            invariant
                i <= self.options@.len(),
                forall|j: int| 0 <= j < i ==> (#[trigger] self@.options[j]).tag != 54,
            decreases self.options@.len() - i,
        {
            if let Options::ServerIdentifer(a) = &self.options[i] {
                assert(self@.options[i as int] == ov(54, Payload::Addr(*a)));
                return Some(*a);
            }
            assert(self@.options[i as int] == self.options@[i as int]@);
            i = i + 1;
        }
        None
    }
}

} // verus!
