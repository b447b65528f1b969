use vstd::prelude::*;
use vstd::utf8::{decode_utf8, valid_utf8};
use crate::error::DhcpError;
use crate::options::{
    ov, shape_of, tag_shape, views, MessageTy, OptionView, Options, OverloadMode, Payload, Shape,
};
use crate::wire::{
    append_option, be16, be32, decode_area, decode_seq, decode_value, encodable, encode_area,
    join_addrs, join_pairs, join_words, lemma_encode_area_err, lemma_join_addrs,
    lemma_join_pairs, lemma_join_words, lemma_step_len, long_at, magic_cookie, msg_type_code,
    msg_type_of, option_bytes, overload_code, overload_of, parse_step, quad_at, value_bytes,
    word_at, Step, OPTION_AREA_CAPACITY,
};

verus! {

/// Relies on std::str::from_utf8: it accepts exactly the byte sequences
/// that are valid UTF-8, and the text it returns is made of those bytes.
#[verifier::external_body]
fn text_from_utf8(v: &[u8]) -> (r: Option<String>)
    ensures
        r is Some <==> valid_utf8(v@),
        r matches Some(s) ==> s@ == decode_utf8(v@),
{
    std::str::from_utf8(v).ok().map(String::from)
}

pub(crate) fn read_quad(v: &[u8], i: usize) -> (r: [u8; 4])
    requires
        i + 4 <= v@.len(),
    ensures
        r == quad_at(v@, i as int),
{
    [v[i], v[i + 1], v[i + 2], v[i + 3]]
}

fn read_word(v: &[u8], i: usize) -> (r: u16)
    requires
        i + 2 <= v@.len(),
    ensures
        r == word_at(v@, i as int),
{
    ((v[i] as u16) << 8u16) | (v[i + 1] as u16)
}

fn read_long(v: &[u8], i: usize) -> (r: u32)
    requires
        i + 4 <= v@.len(),
    ensures
        r == long_at(v@, i as int),
{
    ((v[i] as u32) << 24u32) | ((v[i + 1] as u32) << 16u32) | ((v[i + 2] as u32) << 8u32) | (v[i
        + 3] as u32)
}

fn read_addrs(v: &[u8]) -> (r: Vec<[u8; 4]>)
    requires
        v@.len() % 4 == 0,
    ensures
        r@ == Seq::new(v@.len() / 4, |i: int| quad_at(v@, 4 * i)),
{
    let len = v.len();
    let n = len / 4;
    let mut r: Vec<[u8; 4]> = Vec::new();
    let mut i: usize = 0;
    while i < n
        invariant
            n == v@.len() / 4,
            4 * n == v@.len(),
            len == v@.len(),
            i <= n,
            r@ =~= Seq::new(i as nat, |k: int| quad_at(v@, 4 * k)),
        decreases n - i,
    {
        r.push(read_quad(v, 4 * i));
        i = i + 1;
    }
    r
}

fn read_pairs(v: &[u8]) -> (r: Vec<([u8; 4], [u8; 4])>)
    requires
        v@.len() % 8 == 0,
    ensures
        r@ == Seq::new(v@.len() / 8, |i: int| (quad_at(v@, 8 * i), quad_at(v@, 8 * i + 4))),
{
    let len = v.len();
    let n = len / 8;
    let mut r: Vec<([u8; 4], [u8; 4])> = Vec::new();
    let mut i: usize = 0;
    while i < n
        invariant
            n == v@.len() / 8,
            8 * n == v@.len(),
            len == v@.len(),
            i <= n,
            r@ =~= Seq::new(i as nat, |k: int| (quad_at(v@, 8 * k), quad_at(v@, 8 * k + 4))),
        decreases n - i,
    {
        r.push((read_quad(v, 8 * i), read_quad(v, 8 * i + 4)));
        i = i + 1;
    }
    r
}

fn read_words(v: &[u8]) -> (r: Vec<u16>)
    requires
        v@.len() % 2 == 0,
    ensures
        r@ == Seq::new(v@.len() / 2, |i: int| word_at(v@, 2 * i)),
{
    let len = v.len();
    let n = len / 2;
    let mut r: Vec<u16> = Vec::new();
    let mut i: usize = 0;
    while i < n
        invariant
            n == v@.len() / 2,
            2 * n == v@.len(),
            len == v@.len(),
            i <= n,
            r@ =~= Seq::new(i as nat, |k: int| word_at(v@, 2 * k)),
        decreases n - i,
    {
        r.push(read_word(v, 2 * i));
        i = i + 1;
    }
    r
}

fn overload_from_byte(b: u8) -> (r: Option<OverloadMode>)
    ensures
        r == overload_of(b),
{
    match b {
        1 => Some(OverloadMode::File),
        2 => Some(OverloadMode::SName),
        3 => Some(OverloadMode::Both),
        _ => None,
    }
}

fn msg_type_from_byte(b: u8) -> (r: Option<MessageTy>)
    ensures
        r == msg_type_of(b),
{
    match b {
        1 => Some(MessageTy::Discover),
        2 => Some(MessageTy::Offer),
        3 => Some(MessageTy::Request),
        4 => Some(MessageTy::Decline),
        5 => Some(MessageTy::Ack),
        6 => Some(MessageTy::Nak),
        7 => Some(MessageTy::Release),
        8 => Some(MessageTy::Inform),
        _ => None,
    }
}

fn addr_option(tag: u8, a: [u8; 4]) -> (r: Options)
    requires
        shape_of(tag) == Some(Shape::Addr),
    ensures
        r@ == ov(tag, Payload::Addr(a)),
{
    match tag {
        1 => Options::SubNetMask(a),
        2 => Options::TimeOffset(a),
        16 => Options::SwapServer(a),
        28 => Options::BroadCastAddress(a),
        32 => Options::RouterSolicitationAddress(a),
        50 => Options::RequestedIPAddress(a),
        _ => Options::ServerIdentifer(a),
    }
}

fn addr_list_option(tag: u8, l: Vec<[u8; 4]>) -> (r: Options)
    requires
        shape_of(tag) == Some(Shape::AddrList),
    ensures
        r@ == ov(tag, Payload::AddrList(l@)),
{
    match tag {
        3 => Options::Router(l),
        4 => Options::TimeServer(l),
        5 => Options::NameServer(l),
        6 => Options::DNS(l),
        7 => Options::LogServer(l),
        8 => Options::CookieServer(l),
        9 => Options::LPRServer(l),
        10 => Options::ImpressServer(l),
        11 => Options::ResourceLocationServer(l),
        41 => Options::NetworkInformationServers(l),
        42 => Options::NTPServer(l),
        44 => Options::NetBIOSoverTCPIPNameServer(l),
        45 => Options::NetBIOSoverTCPIPDatagramDistributionServer(l),
        48 => Options::XWindowSystemFontServer(l),
        49 => Options::XWindowSystemDisplayManager(l),
        65 => Options::NetworkInformationServicePlusServers(l),
        68 => Options::MobileIPHomeAgent(l),
        69 => Options::SMTPServer(l),
        70 => Options::POPServer(l),
        71 => Options::NNTPServer(l),
        72 => Options::DefaultWWWServer(l),
        73 => Options::DefaultFingerServer(l),
        74 => Options::DefaultIRCServer(l),
        75 => Options::StreetTalkServer(l),
        _ => Options::StreetTalkDirectoryAssistanceServer(l),
    }
}

fn text_option(tag: u8, s: String) -> (r: Options)
    requires
        shape_of(tag) == Some(Shape::Text),
    ensures
        r@ == ov(tag, Payload::Text(s@)),
{
    match tag {
        12 => Options::Hostname(s),
        14 => Options::MeritDumpFile(s),
        15 => Options::DomainName(s),
        17 => Options::RootPath(s),
        18 => Options::ExtensionPath(s),
        40 => Options::NetworkInformationServiceDomain(s),
        47 => Options::NetBIOSoverTCPIPScope(s),
        56 => Options::Message(s),
        64 => Options::NetworkInformationServicePlusDomain(s),
        66 => Options::TFTPServerName(s),
        67 => Options::BootFileName(s),
        _ => Options::VendorClassIdentifier(s),
    }
}

fn byte_option(tag: u8, x: u8) -> (r: Options)
    requires
        shape_of(tag) == Some(Shape::Byte),
    ensures
        r@ == ov(tag, Payload::Byte(x)),
{
    match tag {
        23 => Options::DefaultIpTTL(x),
        37 => Options::TCPDefaultTTL(x),
        _ => Options::NetBIOSoverTCPIPNodeType(x),
    }
}

fn word_option(tag: u8, w: u16) -> (r: Options)
    requires
        shape_of(tag) == Some(Shape::Word),
    ensures
        r@ == ov(tag, Payload::Word(w)),
{
    match tag {
        13 => Options::BootfileSize(w),
        22 => Options::MaximumDatagramReassemblySize(w),
        26 => Options::InterfaceMTU(w),
        _ => Options::MaximumDHCPMessageSize(w),
    }
}

fn long_option(tag: u8, x: u32) -> (r: Options)
    requires
        shape_of(tag) == Some(Shape::Long),
    ensures
        r@ == ov(tag, Payload::Long(x)),
{
    match tag {
        24 => Options::PathMTUAgingTimeout(x),
        35 => Options::ARPCacheTimeout(x),
        38 => Options::TCPKeepaliveInterval(x),
        51 => Options::IPAddressLeaseTime(x),
        58 => Options::RenewalTime(x),
        _ => Options::RebindingTime(x),
    }
}

fn flag_option(tag: u8, b: bool) -> (r: Options)
    requires
        shape_of(tag) == Some(Shape::Flag),
    ensures
        r@ == ov(tag, Payload::Flag(b)),
{
    match tag {
        19 => Options::IpForwarding(b),
        20 => Options::NonLocalSourceRouting(b),
        27 => Options::AllSubnetsAreLocal(b),
        29 => Options::PerformMaskDiscovery(b),
        30 => Options::MaskSupplier(b),
        31 => Options::PerformRouterDiscovery(b),
        34 => Options::TrailerEncapsulation(b),
        36 => Options::EthernetEncapsulation(b),
        _ => Options::TCPKeepaliveGarbage(b),
    }
}

fn pairs_option(tag: u8, l: Vec<([u8; 4], [u8; 4])>) -> (r: Options)
    requires
        shape_of(tag) == Some(Shape::AddrPairs),
    ensures
        r@ == ov(tag, Payload::AddrPairs(l@)),
{
    if tag == 21 {
        Options::PolicyFilter(l)
    } else {
        Options::StaticRoute(l)
    }
}

/// The option of tag `tag` (registered with `shape`) whose value bytes are `v`,
/// or `None` where they do not fit the shape.
fn decode_value_bytes(tag: u8, shape: Shape, v: &[u8]) -> (r: Option<Options>)
    requires
        shape_of(tag) == Some(shape),
        tag != 0,
        tag != 255,
    ensures
        match decode_value(shape, v@) {
            Some(p) => r matches Some(o) && o@ == ov(tag, p),
            None => r is None,
        },
{
    let n = v.len();
    match shape {
        Shape::Marker => None,
        Shape::Addr => {
            if n == 4 {
                Some(addr_option(tag, read_quad(v, 0)))
            } else {
                None
            }
        },
        Shape::AddrList => {
            if n > 0 && n % 4 == 0 {
                Some(addr_list_option(tag, read_addrs(v)))
            } else {
                None
            }
        },
        Shape::Text => {
            match text_from_utf8(v) {
                Some(s) => Some(text_option(tag, s)),
                None => None,
            }
        },
        Shape::Byte => {
            if n == 1 {
                Some(byte_option(tag, v[0]))
            } else {
                None
            }
        },
        Shape::Word => {
            if n == 2 {
                Some(word_option(tag, read_word(v, 0)))
            } else {
                None
            }
        },
        Shape::Long => {
            if n == 4 {
                Some(long_option(tag, read_long(v, 0)))
            } else {
                None
            }
        },
        Shape::Flag => {
            if n == 1 {
                Some(flag_option(tag, v[0] != 0))
            } else {
                None
            }
        },
        Shape::AddrPairs => {
            if n % 8 == 0 {
                Some(pairs_option(tag, read_pairs(v)))
            } else {
                None
            }
        },
        Shape::WordList => {
            if n % 2 == 0 {
                Some(Options::PathMTUPalteauTable(read_words(v)))
            } else {
                None
            }
        },
        Shape::Bytes => Some(Options::ParameterRequestList(vstd::slice::slice_to_vec(v))),
        Shape::ClientId => {
            if n >= 1 {
                let rest = vstd::slice::slice_subrange(v, 1, n);
                Some(Options::ClientIdentifier(v[0], vstd::slice::slice_to_vec(rest)))
            } else {
                None
            }
        },
        Shape::Overload => {
            if n == 1 {
                match overload_from_byte(v[0]) {
                    Some(m) => Some(Options::OptionOverload(m)),
                    None => None,
                }
            } else {
                None
            }
        },
        Shape::MsgType => {
            if n == 1 {
                match msg_type_from_byte(v[0]) {
                    Some(m) => Some(Options::DHCPMessageType(m)),
                    None => None,
                }
            } else {
                None
            }
        },
    }
}

/// What reading one option gives, in executable form.
pub enum Parsed {
    Exhausted,
    Unknown,
    Fail(DhcpError),
    Item(Options, usize),
}

impl View for Parsed {
    type V = Step;

    open spec fn view(&self) -> Step {
        match self {
            Parsed::Exhausted => Step::Exhausted,
            Parsed::Unknown => Step::Unknown,
            Parsed::Fail(e) => Step::Fail(*e),
            Parsed::Item(o, n) => Step::Item(o@, *n as nat),
        }
    }
}

/// Reads the option that starts at `b[pos]`; never reads past `b`.
pub fn parse_option_at(b: &[u8], pos: usize) -> (r: Parsed)
    requires
        pos <= b@.len(),
    ensures
        r@ == parse_step(b@.subrange(pos as int, b@.len() as int)),
{
    let ghost s = b@.subrange(pos as int, b@.len() as int);
    let len = b.len();
    if pos == len {
        return Parsed::Exhausted;
    }
    let tag = b[pos];
    assert(s[0] == tag);
    if tag == 0 {
        return Parsed::Item(Options::Pad, 1);
    }
    if tag == 255 {
        return Parsed::Item(Options::End, 1);
    }
    let shape = match tag_shape(tag) {
        Some(sh) => sh,
        None => {
            return Parsed::Unknown;
        },
    };
    if len - pos < 2 {
        return Parsed::Fail(DhcpError::TruncatedOption);
    }
    let n = b[pos + 1] as usize;
    assert(s[1] == n);
    if len - pos - 2 < n {
        return Parsed::Fail(DhcpError::TruncatedOption);
    }
    let v = vstd::slice::slice_subrange(b, pos + 2, pos + 2 + n);
    assert(v@ =~= s.subrange(2, 2 + s[1]));
    match decode_value_bytes(tag, shape, v) {
        Some(o) => Parsed::Item(o, 2 + n),
        None => Parsed::Fail(DhcpError::MalformedOption),
    }
}

proof fn lemma_decode_seq_step(b: Seq<u8>, pos: int, o: OptionView, n: nat)
    requires
        0 <= pos <= b.len(),
        parse_step(b.subrange(pos, b.len() as int)) == Step::Item(o, n),
        o.tag != 255,
    ensures
        1 <= n,
        pos + n <= b.len(),
        decode_seq(b.subrange(pos, b.len() as int)) == (
            seq![o] + decode_seq(b.subrange(pos + n, b.len() as int)).0,
            decode_seq(b.subrange(pos + n, b.len() as int)).1,
        ),
{
    let s = b.subrange(pos, b.len() as int);
    assert(s.subrange(n as int, s.len() as int) =~= b.subrange(pos + n, b.len() as int));
}

/// Decodes an option area: `Err(BadMagicCookie)` where it does not start
/// with the magic cookie; else the options after the cookie, in wire order,
/// with the error that stopped the reading, if any. The options read before
/// an error are kept.
pub fn decode_options(area: &[u8]) -> (r: Result<(Vec<Options>, Option<DhcpError>), DhcpError>)
    ensures
        match decode_area(area@) {
            Ok((opts, err)) => r matches Ok((v, e)) && views(v@) == opts && e == err,
            Err(e) => r == Err::<(Vec<Options>, Option<DhcpError>), DhcpError>(e),
        },
{
    let len = area.len();
    if len < 4 || area[0] != 0x63 || area[1] != 0x82 || area[2] != 0x53 || area[3] != 0x63 {
        assert(len >= 4 ==> area@.subrange(0, 4)[0] == area@[0] && area@.subrange(0, 4)[1]
            == area@[1] && area@.subrange(0, 4)[2] == area@[2] && area@.subrange(0, 4)[3]
            == area@[3]);
        return Err(DhcpError::BadMagicCookie);
    }
    assert(area@.subrange(0, 4) =~= magic_cookie());
    let ghost target = decode_seq(area@.subrange(4, len as int));
    let mut out: Vec<Options> = Vec::new();
    let mut pos: usize = 4;
    loop
        invariant
            len == area@.len(),
            decode_area(area@) == Ok::<_, DhcpError>(target),
            4 <= pos <= len,
            views(out@) + decode_seq(area@.subrange(pos as int, len as int)).0 == target.0,
            decode_seq(area@.subrange(pos as int, len as int)).1 == target.1,
        decreases len - pos,
    {
        let ghost rest = decode_seq(area@.subrange(pos as int, len as int));
        match parse_option_at(area, pos) {
            Parsed::Item(o, n) => {
                let is_end = o.tag_number() == 255;
                if is_end {
                    proof {
                        assert(rest.0 =~= seq![o@]);
                        assert(rest.1 is None);
                        assert(views(out@.push(o)) =~= views(out@) + seq![o@]);
                    }
                    out.push(o);
                    return Ok((out, None));
                }
                proof {
                    lemma_decode_seq_step(area@, pos as int, o@, n as nat);
                    let next = decode_seq(area@.subrange(pos + n, len as int));
                    assert(views(out@.push(o)) + next.0 =~= views(out@) + (seq![o@] + next.0));
                }
                out.push(o);
                pos = pos + n;
            },
            Parsed::Fail(e) => {
                assert(views(out@) =~= target.0);
                return Ok((out, Some(e)));
            },
            _ => {
                assert(rest.0 =~= seq![]);
                assert(rest.1 is None);
                assert(views(out@) =~= target.0);
                return Ok((out, None));
            },
        }
    }
}

/// A cursor over an option area that yields one option per call, in wire
/// order, in a single pass.
pub struct OptionDecoder {
    pub bytes: Vec<u8>,
    pub next_pos: usize,
    pub finished: bool,
}

impl OptionDecoder {
    pub open spec fn wf(&self) -> bool {
        self.next_pos <= self.bytes@.len()
    }

    /// The bytes not read yet.
    pub open spec fn remaining(&self) -> Seq<u8> {
        self.bytes@.subrange(self.next_pos as int, self.bytes@.len() as int)
    }

    /// A cursor placed just after the magic cookie; `None` where the bytes
    /// do not start with it.
    pub fn from_bytes(bytes: &[u8]) -> (r: Option<Self>)
        ensures
            r is Some <==> decode_area(bytes@) is Ok,
            r matches Some(d) ==> d.wf() && d.bytes@ == bytes@ && d.next_pos == 4 && !d.finished,
    {
        if bytes.len() >= 4 && bytes[0] == 0x63 && bytes[1] == 0x82 && bytes[2] == 0x53 && bytes[3]
            == 0x63 {
            assert(bytes@.subrange(0, 4) =~= magic_cookie());
            Some(OptionDecoder { bytes: vstd::slice::slice_to_vec(bytes), next_pos: 4, finished: false })
        } else {
            assert(bytes@.len() >= 4 ==> bytes@.subrange(0, 4)[0] == bytes@[0] && bytes@.subrange(
                0,
                4,
            )[1] == bytes@[1] && bytes@.subrange(0, 4)[2] == bytes@[2] && bytes@.subrange(0, 4)[3]
                == bytes@[3]);
            None
        }
    }

    /// The next option, an error that ends the reading, or `None` once the
    /// reading has ended (after End, at an unknown tag, or out of bytes).
    pub fn next(&mut self) -> (r: Option<Result<Options, DhcpError>>)
        requires
            old(self).wf(),
        ensures
            final(self).wf(),
            final(self).bytes@ == old(self).bytes@,
            old(self).finished ==> r is None && final(self).finished,
            !old(self).finished ==> match parse_step(old(self).remaining()) {
                Step::Item(o, n) => r matches Some(Ok(x)) && x@ == o && final(self).next_pos
                    == old(self).next_pos + n && final(self).finished == (o.tag == 255),
                Step::Fail(e) => r == Some(Err::<Options, DhcpError>(e)) && final(self).finished,
                _ => r is None && final(self).finished,
            },
    {
        if self.finished {
            return None;
        }
        let len = self.bytes.len();
        match parse_option_at(self.bytes.as_slice(), self.next_pos) {
            Parsed::Item(o, n) => {
                proof {
                    lemma_step_len(old(self).remaining());
                    assert(n <= old(self).remaining().len());
                }
                self.finished = o.tag_number() == 255;
                self.next_pos = self.next_pos + n;
                Some(Ok(o))
            },
            Parsed::Fail(e) => {
                self.finished = true;
                Some(Err(e))
            },
            _ => {
                self.finished = true;
                None
            },
        }
    }
}

fn push_quad(out: &mut Vec<u8>, a: &[u8; 4])
    ensures
        final(out)@ == old(out)@ + a@,
{
    out.push(a[0]);
    out.push(a[1]);
    out.push(a[2]);
    out.push(a[3]);
    assert(out@ =~= old(out)@ + a@);
}

fn push_bytes(out: &mut Vec<u8>, b: &[u8])
    ensures
        final(out)@ == old(out)@ + b@,
{
    let mut i: usize = 0;
    while i < b.len()
        invariant
            i <= b@.len(),
            out@ =~= old(out)@ + b@.subrange(0, i as int),
        decreases b@.len() - i,
    {
        out.push(b[i]);
        i = i + 1;
    }
    assert(b@.subrange(0, b@.len() as int) =~= b@);
}

fn push_addrs(out: &mut Vec<u8>, l: &Vec<[u8; 4]>)
    ensures
        final(out)@ == old(out)@ + join_addrs(l@),
{
    let mut i: usize = 0;
    while i < l.len()
        invariant
            i <= l@.len(),
            out@ == old(out)@ + join_addrs(l@.take(i as int)),
        decreases l@.len() - i,
    {
        assert(l@.take(i + 1).drop_last() =~= l@.take(i as int));
        push_quad(out, &l[i]);
        assert(out@ =~= old(out)@ + join_addrs(l@.take(i + 1)));
        i = i + 1;
    }
    assert(l@.take(l@.len() as int) =~= l@);
}

fn push_pairs(out: &mut Vec<u8>, l: &Vec<([u8; 4], [u8; 4])>)
    ensures
        final(out)@ == old(out)@ + join_pairs(l@),
{
    let mut i: usize = 0;
    while i < l.len()
        invariant
            i <= l@.len(),
            out@ == old(out)@ + join_pairs(l@.take(i as int)),
        decreases l@.len() - i,
    {
        assert(l@.take(i + 1).drop_last() =~= l@.take(i as int));
        push_quad(out, &l[i].0);
        push_quad(out, &l[i].1);
        assert(out@ =~= old(out)@ + join_pairs(l@.take(i + 1)));
        i = i + 1;
    }
    assert(l@.take(l@.len() as int) =~= l@);
}

fn push_word(out: &mut Vec<u8>, w: u16)
    ensures
        final(out)@ == old(out)@ + be16(w),
{
    out.push((w >> 8u16) as u8);
    out.push(w as u8);
    assert(out@ =~= old(out)@ + be16(w));
}

fn push_long(out: &mut Vec<u8>, x: u32)
    ensures
        final(out)@ == old(out)@ + be32(x),
{
    out.push((x >> 24u32) as u8);
    out.push((x >> 16u32) as u8);
    out.push((x >> 8u32) as u8);
    out.push(x as u8);
    assert(out@ =~= old(out)@ + be32(x));
}

fn push_words(out: &mut Vec<u8>, l: &Vec<u16>)
    ensures
        final(out)@ == old(out)@ + join_words(l@),
{
    let mut i: usize = 0;
    while i < l.len()
        invariant
            i <= l@.len(),
            out@ == old(out)@ + join_words(l@.take(i as int)),
        decreases l@.len() - i,
    {
        assert(l@.take(i + 1).drop_last() =~= l@.take(i as int));
        push_word(out, l[i]);
        assert(out@ =~= old(out)@ + join_words(l@.take(i + 1)));
        i = i + 1;
    }
    assert(l@.take(l@.len() as int) =~= l@);
}

fn overload_byte(m: OverloadMode) -> (r: u8)
    ensures
        r == overload_code(m),
{
    match m {
        OverloadMode::File => 1,
        OverloadMode::SName => 2,
        OverloadMode::Both => 3,
    }
}

fn msg_type_byte(m: MessageTy) -> (r: u8)
    ensures
        r == msg_type_code(m),
{
    match m {
        MessageTy::Discover => 1,
        MessageTy::Offer => 2,
        MessageTy::Request => 3,
        MessageTy::Decline => 4,
        MessageTy::Ack => 5,
        MessageTy::Nak => 6,
        MessageTy::Release => 7,
        MessageTy::Inform => 8,
    }
}

/// Whether an option is an address list with no address, which has no
/// wire form.
pub fn is_empty_addr_list(o: &Options) -> (r: bool)
    ensures
        r == (o@.payload matches Payload::AddrList(l) && l.len() == 0),
{
    match o {
        Options::Router(x)
        | Options::TimeServer(x)
        | Options::NameServer(x)
        | Options::DNS(x)
        | Options::LogServer(x)
        | Options::CookieServer(x)
        | Options::LPRServer(x)
        | Options::ImpressServer(x)
        | Options::ResourceLocationServer(x)
        | Options::NetworkInformationServers(x)
        | Options::NTPServer(x)
        | Options::NetBIOSoverTCPIPNameServer(x)
        | Options::NetBIOSoverTCPIPDatagramDistributionServer(x)
        | Options::XWindowSystemFontServer(x)
        | Options::XWindowSystemDisplayManager(x)
        | Options::NetworkInformationServicePlusServers(x)
        | Options::MobileIPHomeAgent(x)
        | Options::SMTPServer(x)
        | Options::POPServer(x)
        | Options::NNTPServer(x)
        | Options::DefaultWWWServer(x)
        | Options::DefaultFingerServer(x)
        | Options::DefaultIRCServer(x)
        | Options::StreetTalkServer(x)
        | Options::StreetTalkDirectoryAssistanceServer(x) => x.len() == 0,
        _ => false,
    }
}

/// The number of value bytes of an option, or `None` where they do not fit
/// a length byte.
pub fn value_len(o: &Options) -> (r: Option<usize>)
    ensures
        r is Some <==> value_bytes(o@.payload).len() <= 255,
        r matches Some(n) ==> n == value_bytes(o@.payload).len(),
{
    match o {
        Options::Pad => Some(0),
        Options::End => Some(0),
        Options::SubNetMask(x)
        | Options::TimeOffset(x)
        | Options::SwapServer(x)
        | Options::BroadCastAddress(x)
        | Options::RouterSolicitationAddress(x)
        | Options::RequestedIPAddress(x)
        | Options::ServerIdentifer(x) => Some(4),
        Options::Router(x)
        | Options::TimeServer(x)
        | Options::NameServer(x)
        | Options::DNS(x)
        | Options::LogServer(x)
        | Options::CookieServer(x)
        | Options::LPRServer(x)
        | Options::ImpressServer(x)
        | Options::ResourceLocationServer(x)
        | Options::NetworkInformationServers(x)
        | Options::NTPServer(x)
        | Options::NetBIOSoverTCPIPNameServer(x)
        | Options::NetBIOSoverTCPIPDatagramDistributionServer(x)
        | Options::XWindowSystemFontServer(x)
        | Options::XWindowSystemDisplayManager(x)
        | Options::NetworkInformationServicePlusServers(x)
        | Options::MobileIPHomeAgent(x)
        | Options::SMTPServer(x)
        | Options::POPServer(x)
        | Options::NNTPServer(x)
        | Options::DefaultWWWServer(x)
        | Options::DefaultFingerServer(x)
        | Options::DefaultIRCServer(x)
        | Options::StreetTalkServer(x)
        | Options::StreetTalkDirectoryAssistanceServer(x) => {
            proof {
                lemma_join_addrs(x@);
            }
            if x.len() > 63 {
                None
            } else {
                Some(4 * x.len())
            }
        },
        Options::Hostname(x)
        | Options::MeritDumpFile(x)
        | Options::DomainName(x)
        | Options::RootPath(x)
        | Options::ExtensionPath(x)
        | Options::NetworkInformationServiceDomain(x)
        | Options::NetBIOSoverTCPIPScope(x)
        | Options::NetworkInformationServicePlusDomain(x)
        | Options::TFTPServerName(x)
        | Options::BootFileName(x)
        | Options::Message(x)
        | Options::VendorClassIdentifier(x) => {
            let n = x.as_str().as_bytes().len();
            if n > 255 {
                None
            } else {
                Some(n)
            }
        },
        Options::DefaultIpTTL(x)
        | Options::TCPDefaultTTL(x)
        | Options::NetBIOSoverTCPIPNodeType(x) => Some(1),
        Options::BootfileSize(x)
        | Options::MaximumDatagramReassemblySize(x)
        | Options::InterfaceMTU(x)
        | Options::MaximumDHCPMessageSize(x) => Some(2),
        Options::PathMTUAgingTimeout(x)
        | Options::ARPCacheTimeout(x)
        | Options::TCPKeepaliveInterval(x)
        | Options::IPAddressLeaseTime(x)
        | Options::RenewalTime(x)
        | Options::RebindingTime(x) => Some(4),
        Options::IpForwarding(x)
        | Options::NonLocalSourceRouting(x)
        | Options::AllSubnetsAreLocal(x)
        | Options::PerformMaskDiscovery(x)
        | Options::MaskSupplier(x)
        | Options::PerformRouterDiscovery(x)
        | Options::TrailerEncapsulation(x)
        | Options::EthernetEncapsulation(x)
        | Options::TCPKeepaliveGarbage(x) => Some(1),
        Options::PolicyFilter(x)
        | Options::StaticRoute(x) => {
            proof {
                lemma_join_pairs(x@);
            }
            if x.len() > 31 {
                None
            } else {
                Some(8 * x.len())
            }
        },
        Options::PathMTUPalteauTable(x) => {
            proof {
                lemma_join_words(x@);
            }
            if x.len() > 127 {
                None
            } else {
                Some(2 * x.len())
            }
        },
        Options::OptionOverload(_) | Options::DHCPMessageType(_) => Some(1),
        Options::ParameterRequestList(x) => {
            if x.len() > 255 {
                None
            } else {
                Some(x.len())
            }
        },
        Options::ClientIdentifier(_, x) => {
            if x.len() > 254 {
                None
            } else {
                Some(x.len() + 1)
            }
        },
    }
}

/// Appends the wire form of an encodable option.
fn write_option(out: &mut Vec<u8>, o: &Options, n: usize)
    requires
        encodable(o@),
        n == value_bytes(o@.payload).len(),
    ensures
        final(out)@ == old(out)@ + option_bytes(o@),
{
    let ghost start = old(out)@;
    let tag = o.tag_number();
    out.push(tag);
    if tag != 0 && tag != 255 {
        out.push(n as u8);
    }
    let ghost mid = out@;
    match o {
        Options::Pad | Options::End => {},
        Options::SubNetMask(x)
        | Options::TimeOffset(x)
        | Options::SwapServer(x)
        | Options::BroadCastAddress(x)
        | Options::RouterSolicitationAddress(x)
        | Options::RequestedIPAddress(x)
        | Options::ServerIdentifer(x) => push_quad(out, x),
        Options::Router(x)
        | Options::TimeServer(x)
        | Options::NameServer(x)
        | Options::DNS(x)
        | Options::LogServer(x)
        | Options::CookieServer(x)
        | Options::LPRServer(x)
        | Options::ImpressServer(x)
        | Options::ResourceLocationServer(x)
        | Options::NetworkInformationServers(x)
        | Options::NTPServer(x)
        | Options::NetBIOSoverTCPIPNameServer(x)
        | Options::NetBIOSoverTCPIPDatagramDistributionServer(x)
        | Options::XWindowSystemFontServer(x)
        | Options::XWindowSystemDisplayManager(x)
        | Options::NetworkInformationServicePlusServers(x)
        | Options::MobileIPHomeAgent(x)
        | Options::SMTPServer(x)
        | Options::POPServer(x)
        | Options::NNTPServer(x)
        | Options::DefaultWWWServer(x)
        | Options::DefaultFingerServer(x)
        | Options::DefaultIRCServer(x)
        | Options::StreetTalkServer(x)
        | Options::StreetTalkDirectoryAssistanceServer(x) => push_addrs(out, x),
        Options::Hostname(x)
        | Options::MeritDumpFile(x)
        | Options::DomainName(x)
        | Options::RootPath(x)
        | Options::ExtensionPath(x)
        | Options::NetworkInformationServiceDomain(x)
        | Options::NetBIOSoverTCPIPScope(x)
        | Options::NetworkInformationServicePlusDomain(x)
        | Options::TFTPServerName(x)
        | Options::BootFileName(x)
        | Options::Message(x)
        | Options::VendorClassIdentifier(x) => push_bytes(out, x.as_str().as_bytes()),
        Options::DefaultIpTTL(x)
        | Options::TCPDefaultTTL(x)
        | Options::NetBIOSoverTCPIPNodeType(x) => out.push(*x),
        Options::BootfileSize(x)
        | Options::MaximumDatagramReassemblySize(x)
        | Options::InterfaceMTU(x)
        | Options::MaximumDHCPMessageSize(x) => push_word(out, *x),
        Options::PathMTUAgingTimeout(x)
        | Options::ARPCacheTimeout(x)
        | Options::TCPKeepaliveInterval(x)
        | Options::IPAddressLeaseTime(x)
        | Options::RenewalTime(x)
        | Options::RebindingTime(x) => push_long(out, *x),
        Options::IpForwarding(x)
        | Options::NonLocalSourceRouting(x)
        | Options::AllSubnetsAreLocal(x)
        | Options::PerformMaskDiscovery(x)
        | Options::MaskSupplier(x)
        | Options::PerformRouterDiscovery(x)
        | Options::TrailerEncapsulation(x)
        | Options::EthernetEncapsulation(x)
        | Options::TCPKeepaliveGarbage(x) => out.push(if *x { 1 } else { 0 }),
        Options::PolicyFilter(x)
        | Options::StaticRoute(x) => push_pairs(out, x),
        Options::PathMTUPalteauTable(x) => push_words(out, x),
        Options::OptionOverload(m) => out.push(overload_byte(*m)),
        Options::DHCPMessageType(m) => out.push(msg_type_byte(*m)),
        Options::ParameterRequestList(x) => push_bytes(out, x.as_slice()),
        Options::ClientIdentifier(t, x) => {
            out.push(*t);
            push_bytes(out, x.as_slice());
        },
    }
    assert(out@ =~= mid + value_bytes(o@.payload));
    assert(out@ =~= start + option_bytes(o@));
}

/// Builds an option area: the magic cookie, then options in the order they
/// are given.
pub struct OptionEncoder {
    pub buffer: Vec<u8>,
}

impl OptionEncoder {
    /// An encoder with an empty buffer.
    pub fn new() -> (r: Self)
        ensures
            r.buffer@ == Seq::<u8>::empty(),
    {
        OptionEncoder { buffer: Vec::new() }
    }

    /// Starts the area over with the magic cookie.
    pub fn init(self) -> (r: Self)
        ensures
            r.buffer@ == magic_cookie(),
    {
        let mut buffer: Vec<u8> = Vec::new();
        buffer.push(0x63);
        buffer.push(0x82);
        buffer.push(0x53);
        buffer.push(0x63);
        assert(buffer@ =~= magic_cookie());
        OptionEncoder { buffer }
    }

    /// Appends one option; on an error the buffer is left as it was.
    pub fn encode(&mut self, option: &Options) -> (r: Result<(), DhcpError>)
        ensures
            match append_option(old(self).buffer@, option@) {
                Ok(b) => r is Ok && final(self).buffer@ == b,
                Err(e) => r == Err::<(), DhcpError>(e) && final(self).buffer@ == old(self).buffer@,
            },
    {
        if is_empty_addr_list(option) {
            return Err(DhcpError::MalformedOption);
        }
        let n = match value_len(option) {
            Some(n) => n,
            None => {
                return Err(DhcpError::OptionAreaOverflow);
            },
        };
        let total = if option.tag_number() == 0 || option.tag_number() == 255 {
            1
        } else {
            n + 2
        };
        if total > OPTION_AREA_CAPACITY || self.buffer.len() > OPTION_AREA_CAPACITY - total {
            return Err(DhcpError::OptionAreaOverflow);
        }
        write_option(&mut self.buffer, option, n);
        Ok(())
    }
}

/// Encodes options into an option area: the magic cookie, then each option
/// in order, with no End added. Fails at the first option that cannot be
/// appended: with `MalformedOption` for an empty address list, with
/// `OptionAreaOverflow` where the option's value passes 255 bytes or the
/// area would pass 312 bytes.
pub fn encode_options(options: &[Options]) -> (r: Result<Vec<u8>, DhcpError>)
    ensures
        match encode_area(views(options@)) {
            Ok(b) => r matches Ok(v) && v@ == b,
            Err(e) => r == Err::<Vec<u8>, DhcpError>(e),
        },
{
    let mut enc = OptionEncoder::new().init();
    let mut i: usize = 0;
    assert(views(options@.take(0)) =~= seq![]);
    while i < options.len()
        invariant
            i <= options@.len(),
            encode_area(views(options@.take(i as int))) == Ok::<Seq<u8>, DhcpError>(enc.buffer@),
        decreases options@.len() - i,
    {
        let ghost before = enc.buffer@;
        assert(views(options@.take(i + 1)) =~= views(options@.take(i as int)).push(options@[i as int]@));
        assert(views(options@.take(i + 1)).drop_last() =~= views(options@.take(i as int)));
        match enc.encode(&options[i]) {
            Ok(()) => {},
            Err(e) => {
                proof {
                    assert(views(options@).take(i + 1) =~= views(options@.take(i + 1)));
                    lemma_encode_area_err(views(options@), i + 1);
                }
                return Err(e);
            },
        }
        i = i + 1;
    }
    assert(options@.take(options@.len() as int) =~= options@);
    Ok(enc.buffer)
}

} // verus!
