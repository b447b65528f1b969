use vstd::prelude::*;
use vstd::utf8::{decode_utf8, encode_utf8, valid_utf8};
use crate::error::DhcpError;
use crate::options::{shape_of, MessageTy, OverloadMode, Payload, Shape, OptionView, ov, well_typed};

verus! {

/// The 4 bytes that open the option area.
pub open spec fn magic_cookie() -> Seq<u8> {
    seq![0x63u8, 0x82u8, 0x53u8, 0x63u8]
}

/// Size of the option area, magic cookie included.
pub const OPTION_AREA_CAPACITY: usize = 312;

/// A 16-bit integer in network byte order.
pub open spec fn be16(w: u16) -> Seq<u8> {
    seq![(w >> 8u16) as u8, w as u8]
}

/// A 32-bit integer in network byte order.
pub open spec fn be32(x: u32) -> Seq<u8> {
    seq![(x >> 24u32) as u8, (x >> 16u32) as u8, (x >> 8u32) as u8, x as u8]
}

/// The 16-bit integer stored in network byte order at `v[i..i + 2]`.
pub open spec fn word_at(v: Seq<u8>, i: int) -> u16 {
    ((v[i] as u16) << 8u16) | (v[i + 1] as u16)
}

/// The 32-bit integer stored in network byte order at `v[i..i + 4]`.
pub open spec fn long_at(v: Seq<u8>, i: int) -> u32 {
    ((v[i] as u32) << 24u32) | ((v[i + 1] as u32) << 16u32) | ((v[i + 2] as u32) << 8u32) | (
    v[i + 3] as u32)
}

/// The address stored at `v[i..i + 4]`.
pub open spec fn quad_at(v: Seq<u8>, i: int) -> [u8; 4] {
    [v[i], v[i + 1], v[i + 2], v[i + 3]]
}

pub open spec fn join_addrs(l: Seq<[u8; 4]>) -> Seq<u8>
    decreases l.len(),
{
    if l.len() == 0 {
        seq![]
    } else {
        join_addrs(l.drop_last()) + l.last()@
    }
}

pub open spec fn join_pairs(l: Seq<([u8; 4], [u8; 4])>) -> Seq<u8>
    decreases l.len(),
{
    if l.len() == 0 {
        seq![]
    } else {
        join_pairs(l.drop_last()) + l.last().0@ + l.last().1@
    }
}

pub open spec fn join_words(l: Seq<u16>) -> Seq<u8>
    decreases l.len(),
{
    if l.len() == 0 {
        seq![]
    } else {
        join_words(l.drop_last()) + be16(l.last())
    }
}

pub open spec fn overload_code(m: OverloadMode) -> u8 {
    match m {
        OverloadMode::File => 1,
        OverloadMode::SName => 2,
        OverloadMode::Both => 3,
    }
}

pub open spec fn overload_of(b: u8) -> Option<OverloadMode> {
    if b == 1 {
        Some(OverloadMode::File)
    } else if b == 2 {
        Some(OverloadMode::SName)
    } else if b == 3 {
        Some(OverloadMode::Both)
    } else {
        None
    }
}

pub open spec fn msg_type_code(m: MessageTy) -> u8 {
    match m {
        MessageTy::Discover => 1,
        MessageTy::Offer => 2,
        MessageTy::Request => 3,
        MessageTy::Decline => 4,
        MessageTy::Ack => 5,
        MessageTy::Nak => 6,
        MessageTy::Release => 7,
        MessageTy::Inform => 8,
    }
}

pub open spec fn msg_type_of(b: u8) -> Option<MessageTy> {
    if b == 1 {
        Some(MessageTy::Discover)
    } else if b == 2 {
        Some(MessageTy::Offer)
    } else if b == 3 {
        Some(MessageTy::Request)
    } else if b == 4 {
        Some(MessageTy::Decline)
    } else if b == 5 {
        Some(MessageTy::Ack)
    } else if b == 6 {
        Some(MessageTy::Nak)
    } else if b == 7 {
        Some(MessageTy::Release)
    } else if b == 8 {
        Some(MessageTy::Inform)
    } else {
        None
    }
}

/// The value bytes of a payload, without tag and length.
pub open spec fn value_bytes(p: Payload) -> Seq<u8> {
    match p {
        Payload::Empty => seq![],
        Payload::Addr(a) => a@,
        Payload::AddrList(l) => join_addrs(l),
        Payload::Text(t) => encode_utf8(t),
        Payload::Byte(b) => seq![b],
        Payload::Word(w) => be16(w),
        Payload::Long(x) => be32(x),
        Payload::Flag(b) => seq![if b { 1u8 } else { 0u8 }],
        Payload::AddrPairs(l) => join_pairs(l),
        Payload::WordList(l) => join_words(l),
        Payload::Bytes(b) => b,
        Payload::ClientId(t, b) => seq![t] + b,
        Payload::Overload(m) => seq![overload_code(m)],
        Payload::MsgType(m) => seq![msg_type_code(m)],
    }
}

/// The payload that value bytes `v` hold for an option of shape `shape`;
/// `None` where the length or the content does not fit the shape.
pub open spec fn decode_value(shape: Shape, v: Seq<u8>) -> Option<Payload> {
    match shape {
        Shape::Marker => None,
        Shape::Addr => if v.len() == 4 {
            Some(Payload::Addr(quad_at(v, 0)))
        } else {
            None
        },
        Shape::AddrList => if v.len() > 0 && v.len() % 4 == 0 {
            Some(Payload::AddrList(Seq::new(v.len() / 4, |i: int| quad_at(v, 4 * i))))
        } else {
            None
        },
        Shape::Text => if valid_utf8(v) {
            Some(Payload::Text(decode_utf8(v)))
        } else {
            None
        },
        Shape::Byte => if v.len() == 1 {
            Some(Payload::Byte(v[0]))
        } else {
            None
        },
        Shape::Word => if v.len() == 2 {
            Some(Payload::Word(word_at(v, 0)))
        } else {
            None
        },
        Shape::Long => if v.len() == 4 {
            Some(Payload::Long(long_at(v, 0)))
        } else {
            None
        },
        Shape::Flag => if v.len() == 1 {
            Some(Payload::Flag(v[0] != 0))
        } else {
            None
        },
        Shape::AddrPairs => if v.len() % 8 == 0 {
            Some(
                Payload::AddrPairs(
                    Seq::new(v.len() / 8, |i: int| (quad_at(v, 8 * i), quad_at(v, 8 * i + 4))),
                ),
            )
        } else {
            None
        },
        Shape::WordList => if v.len() % 2 == 0 {
            Some(Payload::WordList(Seq::new(v.len() / 2, |i: int| word_at(v, 2 * i))))
        } else {
            None
        },
        Shape::Bytes => Some(Payload::Bytes(v)),
        Shape::ClientId => if v.len() >= 1 {
            Some(Payload::ClientId(v[0], v.subrange(1, v.len() as int)))
        } else {
            None
        },
        Shape::Overload => if v.len() == 1 && overload_of(v[0]) is Some {
            Some(Payload::Overload(overload_of(v[0]).unwrap()))
        } else {
            None
        },
        Shape::MsgType => if v.len() == 1 && msg_type_of(v[0]) is Some {
            Some(Payload::MsgType(msg_type_of(v[0]).unwrap()))
        } else {
            None
        },
    }
}

/// Whether a well-typed option can be written: its value fits a length
/// byte, and an address list holds at least one address.
pub open spec fn encodable(o: OptionView) -> bool {
    &&& value_bytes(o.payload).len() <= 255
    &&& (o.payload matches Payload::AddrList(l) ==> l.len() > 0)
}

/// The wire form of one option: the tag alone for Pad and End, else tag,
/// length and value.
pub open spec fn option_bytes(o: OptionView) -> Seq<u8> {
    if o.tag == 0 || o.tag == 255 {
        seq![o.tag]
    } else {
        seq![o.tag, value_bytes(o.payload).len() as u8] + value_bytes(o.payload)
    }
}

/// The wire form of a sequence of options, in order.
pub open spec fn options_bytes(s: Seq<OptionView>) -> Seq<u8>
    decreases s.len(),
{
    if s.len() == 0 {
        seq![]
    } else {
        options_bytes(s.drop_last()) + option_bytes(s.last())
    }
}

/// What reading one option at the front of `s` gives.
pub enum Step {
    /// No bytes are left.
    Exhausted,
    /// The tag is not registered; reading stops there.
    Unknown,
    Fail(DhcpError),
    /// An option, and the number of bytes it took.
    Item(OptionView, nat),
}

pub open spec fn parse_step(s: Seq<u8>) -> Step {
    if s.len() == 0 {
        Step::Exhausted
    } else if s[0] == 0 || s[0] == 255 {
        Step::Item(ov(s[0], Payload::Empty), 1)
    } else if shape_of(s[0]) is None {
        Step::Unknown
    } else if s.len() < 2 || s.len() < 2 + s[1] {
        Step::Fail(DhcpError::TruncatedOption)
    } else {
        match decode_value(shape_of(s[0]).unwrap(), s.subrange(2, 2 + s[1])) {
            Some(p) => Step::Item(ov(s[0], p), (2 + s[1]) as nat),
            None => Step::Fail(DhcpError::MalformedOption),
        }
    }
}

/// The options read from the bytes that follow the magic cookie, in order,
/// and the error that stopped the reading, if one did. Reading stops after
/// End, at an unknown tag, at an error, or when the bytes run out.
pub open spec fn decode_seq(s: Seq<u8>) -> (Seq<OptionView>, Option<DhcpError>)
    decreases s.len(),
{
    match parse_step(s) {
        Step::Item(o, n) => if o.tag == 255 || n == 0 || n > s.len() {
            (seq![o], None)
        } else {
            let rest = decode_seq(s.subrange(n as int, s.len() as int));
            (seq![o] + rest.0, rest.1)
        },
        Step::Fail(e) => (seq![], Some(e)),
        _ => (seq![], None),
    }
}

/// The result of decoding an option area: `Err(BadMagicCookie)` where it does
/// not start with the magic cookie, else what `decode_seq` reads after it.
pub open spec fn decode_area(a: Seq<u8>) -> Result<
    (Seq<OptionView>, Option<DhcpError>),
    DhcpError,
> {
    if a.len() < 4 || a.subrange(0, 4) != magic_cookie() {
        Err(DhcpError::BadMagicCookie)
    } else {
        Ok(decode_seq(a.subrange(4, a.len() as int)))
    }
}

pub(crate) proof fn lemma_join_addrs(l: Seq<[u8; 4]>)
    ensures
        join_addrs(l).len() == 4 * l.len(),
        forall|i: int| 0 <= i < l.len() ==> quad_at(join_addrs(l), 4 * i) == l[i],
    decreases l.len(),
{
    if l.len() > 0 {
        let init = l.drop_last();
        lemma_join_addrs(init);
        let j = join_addrs(l);
        assert forall|i: int| 0 <= i < l.len() implies quad_at(j, 4 * i) == l[i] by {
            let p = join_addrs(init);
            if i < init.len() {
                assert(init[i] == l[i]);
                assert(j[4 * i] == p[4 * i] && j[4 * i + 1] == p[4 * i + 1] && j[4 * i + 2] == p[4
                    * i + 2] && j[4 * i + 3] == p[4 * i + 3]);
                assert(quad_at(j, 4 * i) =~= quad_at(p, 4 * i));
            } else {
                let a = l.last();
                assert(j[4 * i] == a[0] && j[4 * i + 1] == a[1] && j[4 * i + 2] == a[2] && j[4 * i
                    + 3] == a[3]);
                assert(quad_at(j, 4 * i) =~= a);
            }
        }
    }
}

pub(crate) proof fn lemma_join_pairs(l: Seq<([u8; 4], [u8; 4])>)
    ensures
        join_pairs(l).len() == 8 * l.len(),
        forall|i: int|
            0 <= i < l.len() ==> quad_at(join_pairs(l), 8 * i) == l[i].0 && quad_at(
                join_pairs(l),
                8 * i + 4,
            ) == l[i].1,
    decreases l.len(),
{
    if l.len() > 0 {
        let init = l.drop_last();
        lemma_join_pairs(init);
        let j = join_pairs(l);
        assert forall|i: int| 0 <= i < l.len() implies quad_at(j, 8 * i) == l[i].0 && quad_at(
            j,
            8 * i + 4,
        ) == l[i].1 by {
            let p = join_pairs(init);
            if i < init.len() {
                assert(init[i] == l[i]);
                assert forall|k: int| 0 <= k < 8 implies #[trigger] j[8 * i + k] == p[8 * i + k] by {}
                assert(quad_at(j, 8 * i) =~= quad_at(p, 8 * i));
                assert(quad_at(j, 8 * i + 4) =~= quad_at(p, 8 * i + 4));
            } else {
                let (a, b) = l.last();
                assert forall|k: int| 0 <= k < 4 implies #[trigger] j[8 * i + k] == a[k] && j[8 * i + 4
                    + k] == b[k] by {}
                assert(quad_at(j, 8 * i) =~= a);
                assert(quad_at(j, 8 * i + 4) =~= b);
            }
        }
    }
}

pub(crate) proof fn lemma_be16(w: u16)
    ensures
        word_at(be16(w), 0) == w,
{
    let hi = (w >> 8u16) as u8;
    let lo = w as u8;
    assert((((hi as u16) << 8u16) | (lo as u16)) == w) by (bit_vector)
        requires
            hi == (w >> 8u16) as u8,
            lo == w as u8,
    ;
}

pub(crate) proof fn lemma_be32(x: u32)
    ensures
        long_at(be32(x), 0) == x,
{
    let b0 = (x >> 24u32) as u8;
    let b1 = (x >> 16u32) as u8;
    let b2 = (x >> 8u32) as u8;
    let b3 = x as u8;
    assert((((b0 as u32) << 24u32) | ((b1 as u32) << 16u32) | ((b2 as u32) << 8u32) | (b3 as u32))
        == x) by (bit_vector)
        requires
            b0 == (x >> 24u32) as u8,
            b1 == (x >> 16u32) as u8,
            b2 == (x >> 8u32) as u8,
            b3 == x as u8,
    ;
}

pub(crate) proof fn lemma_join_words(l: Seq<u16>)
    ensures
        join_words(l).len() == 2 * l.len(),
        forall|i: int| 0 <= i < l.len() ==> word_at(join_words(l), 2 * i) == l[i],
    decreases l.len(),
{
    if l.len() > 0 {
        let init = l.drop_last();
        lemma_join_words(init);
        lemma_be16(l.last());
        let j = join_words(l);
        assert forall|i: int| 0 <= i < l.len() implies word_at(j, 2 * i) == l[i] by {
            if i < init.len() {
                assert(init[i] == l[i]);
                assert(j[2 * i] == join_words(init)[2 * i]);
                assert(j[2 * i + 1] == join_words(init)[2 * i + 1]);
            } else {
                assert(j[2 * i] == be16(l.last())[0]);
                assert(j[2 * i + 1] == be16(l.last())[1]);
            }
        }
    }
}

/// Decoding the value bytes of a well-typed, encodable option gives back its
/// payload.
pub proof fn lemma_value_round_trip(o: OptionView)
    requires
        well_typed(o),
        encodable(o),
        o.tag != 0,
        o.tag != 255,
    ensures
        decode_value(shape_of(o.tag).unwrap(), value_bytes(o.payload)) == Some(o.payload),
{
    broadcast use vstd::utf8::encode_utf8_valid_utf8, vstd::utf8::encode_utf8_decode_utf8;

    let v = value_bytes(o.payload);
    match o.payload {
        Payload::Addr(a) => {
            assert(quad_at(v, 0) =~= a);
        },
        Payload::AddrList(l) => {
            lemma_join_addrs(l);
            assert(Seq::new(v.len() / 4, |i: int| quad_at(v, 4 * i)) =~= l);
        },
        Payload::Word(w) => {
            lemma_be16(w);
        },
        Payload::Long(x) => {
            lemma_be32(x);
        },
        Payload::AddrPairs(l) => {
            lemma_join_pairs(l);
            assert(Seq::new(v.len() / 8, |i: int| (quad_at(v, 8 * i), quad_at(v, 8 * i + 4)))
                =~= l);
        },
        Payload::WordList(l) => {
            lemma_join_words(l);
            assert(Seq::new(v.len() / 2, |i: int| word_at(v, 2 * i)) =~= l);
        },
        Payload::ClientId(t, b) => {
            assert(v.subrange(1, v.len() as int) =~= b);
        },
        Payload::Overload(m) => {
            match m {
                OverloadMode::File => {},
                OverloadMode::SName => {},
                OverloadMode::Both => {},
            }
        },
        Payload::MsgType(m) => {
            match m {
                MessageTy::Discover => {},
                MessageTy::Offer => {},
                MessageTy::Request => {},
                MessageTy::Decline => {},
                MessageTy::Ack => {},
                MessageTy::Nak => {},
                MessageTy::Release => {},
                MessageTy::Inform => {},
            }
        },
        _ => {},
    }
}

/// Encode-then-decode of one option: reading the wire form of a
/// well-typed, encodable option, whatever bytes follow it, gives back
/// exactly that option and consumes exactly its wire form.
pub proof fn lemma_option_round_trip(o: OptionView, rest: Seq<u8>)
    requires
        well_typed(o),
        encodable(o),
    ensures
        parse_step(option_bytes(o) + rest) == Step::Item(o, option_bytes(o).len()),
{
    let s = option_bytes(o) + rest;
    if o.tag == 0 || o.tag == 255 {
        assert(o.payload == Payload::Empty);
    } else {
        lemma_value_round_trip(o);
        let v = value_bytes(o.payload);
        assert(s.subrange(2, 2 + s[1]) =~= v);
    }
}

/// A sequence of options that encodes and decodes faithfully: each is
/// well-typed and encodable, and End, if present, comes last.
pub open spec fn encodable_options(s: Seq<OptionView>) -> bool {
    &&& forall|i: int| 0 <= i < s.len() ==> well_typed(#[trigger] s[i]) && encodable(s[i])
    &&& forall|i: int| 0 <= i < s.len() - 1 ==> (#[trigger] s[i]).tag != 255
}

proof fn lemma_options_bytes_front(s: Seq<OptionView>)
    requires
        s.len() > 0,
    ensures
        options_bytes(s) == option_bytes(s[0]) + options_bytes(s.subrange(1, s.len() as int)),
    decreases s.len(),
{
    if s.len() > 1 {
        let init = s.drop_last();
        lemma_options_bytes_front(init);
        assert(init.subrange(1, init.len() as int) =~= s.subrange(1, s.len() as int).drop_last());
        assert(options_bytes(s.subrange(1, s.len() as int)) == options_bytes(
            init.subrange(1, init.len() as int),
        ) + option_bytes(s.last()));
        assert(options_bytes(s) =~= option_bytes(s[0]) + options_bytes(
            s.subrange(1, s.len() as int),
        ));
    } else {
        assert(s.drop_last() =~= seq![]);
        assert(s.subrange(1, s.len() as int) =~= seq![]);
        assert(options_bytes(s) =~= option_bytes(s[0]) + options_bytes(
            s.subrange(1, s.len() as int),
        ));
    }
}

/// Decoding the wire form of an encodable sequence of options gives back
/// the same options, in the same order, and no error.
pub proof fn lemma_options_round_trip(s: Seq<OptionView>)
    requires
        encodable_options(s),
    ensures
        decode_seq(options_bytes(s)) == (s, Option::<DhcpError>::None),
    decreases s.len(),
{
    if s.len() == 0 {
        assert(decode_seq(options_bytes(s)).0 =~= s);
    } else {
        let tail = s.subrange(1, s.len() as int);
        lemma_options_bytes_front(s);
        let b = options_bytes(s);
        lemma_option_round_trip(s[0], options_bytes(tail));
        let n = option_bytes(s[0]).len();
        if s[0].tag == 255 {
            assert(s =~= seq![s[0]]);
        } else {
            assert forall|i: int| 0 <= i < tail.len() implies well_typed(#[trigger] tail[i])
                && encodable(tail[i]) by {
                assert(tail[i] == s[i + 1]);
            }
            assert forall|i: int| 0 <= i < tail.len() - 1 implies (#[trigger] tail[i]).tag
                != 255 by {
                assert(tail[i] == s[i + 1]);
            }
            lemma_options_round_trip(tail);
            assert(b.subrange(n as int, b.len() as int) =~= options_bytes(tail));
            assert(seq![s[0]] + tail =~= s);
        }
    }
}

pub proof fn lemma_step_len(s: Seq<u8>)
    ensures
        parse_step(s) matches Step::Item(_, n) ==> 1 <= n <= s.len(),
{
}

/// Appending one option to an option area `b`: `MalformedOption` for an
/// empty address list; `OptionAreaOverflow` where the value does not fit a
/// length byte or the area would exceed its capacity.
pub open spec fn append_option(b: Seq<u8>, o: OptionView) -> Result<Seq<u8>, DhcpError> {
    if o.payload matches Payload::AddrList(l) && l.len() == 0 {
        Err(DhcpError::MalformedOption)
    } else if value_bytes(o.payload).len() > 255 || b.len() + option_bytes(o).len()
        > OPTION_AREA_CAPACITY {
        Err(DhcpError::OptionAreaOverflow)
    } else {
        Ok(b + option_bytes(o))
    }
}

/// The option area that encodes `s`, or the first error met on the way.
pub open spec fn encode_area(s: Seq<OptionView>) -> Result<Seq<u8>, DhcpError>
    decreases s.len(),
{
    if s.len() == 0 {
        Ok(magic_cookie())
    } else {
        match encode_area(s.drop_last()) {
            Ok(b) => append_option(b, s.last()),
            Err(e) => Err(e),
        }
    }
}

/// Once a prefix of the options fails to encode, so does the whole, with
/// the same error.
pub proof fn lemma_encode_area_err(s: Seq<OptionView>, i: int)
    requires
        0 <= i <= s.len(),
        encode_area(s.take(i)) is Err,
    ensures
        encode_area(s) == encode_area(s.take(i)),
    decreases s.len() - i,
{
    if i < s.len() {
        assert(s.take(i + 1).drop_last() =~= s.take(i));
        lemma_encode_area_err(s, i + 1);
    } else {
        assert(s.take(i) =~= s);
    }
}

/// An option area encodes without error exactly when every option is
/// encodable and the whole fits the capacity; it is then the magic cookie
/// followed by the options' wire forms.
pub proof fn lemma_encode_area(s: Seq<OptionView>)
    ensures
        encode_area(s) is Ok <==> (forall|i: int| 0 <= i < s.len() ==> encodable(#[trigger] s[i]))
            && magic_cookie().len() + options_bytes(s).len() <= OPTION_AREA_CAPACITY,
        encode_area(s) is Ok ==> encode_area(s) == Ok::<Seq<u8>, DhcpError>(
            magic_cookie() + options_bytes(s),
        ),
    decreases s.len(),
{
    if s.len() > 0 {
        let init = s.drop_last();
        lemma_encode_area(init);
        assert forall|i: int| 0 <= i < init.len() implies init[i] == s[i] by {}
        if encode_area(s) is Ok {
            assert(magic_cookie() + options_bytes(init) + option_bytes(s.last()) =~= magic_cookie()
                + options_bytes(s));
        }
        if (forall|i: int| 0 <= i < s.len() ==> encodable(#[trigger] s[i]))
            && magic_cookie().len() + options_bytes(s).len() <= OPTION_AREA_CAPACITY {
            assert(encodable(s[s.len() - 1]));
        }
    }
}

/// An option area that does not start with the magic cookie decodes to
/// `BadMagicCookie` and no options at all.
pub proof fn lemma_bad_cookie(a: Seq<u8>)
    requires
        a.len() < 4 || a.subrange(0, 4) != magic_cookie(),
    ensures
        decode_area(a) == Err::<(Seq<OptionView>, Option<DhcpError>), DhcpError>(
            DhcpError::BadMagicCookie,
        ),
{
}

/// An option whose tag is known but whose declared length runs past the
/// received bytes yields `TruncatedOption`; the options read before it are
/// kept, in order.
pub proof fn lemma_truncated_option(s: Seq<OptionView>, t: Seq<u8>)
    requires
        forall|i: int|
            0 <= i < s.len() ==> well_typed(#[trigger] s[i]) && encodable(s[i]) && s[i].tag
                != 255,
        t.len() >= 1,
        t[0] != 0,
        t[0] != 255,
        shape_of(t[0]) is Some,
        t.len() < 2 || t.len() < 2 + t[1],
    ensures
        decode_seq(options_bytes(s) + t) == (s, Some(DhcpError::TruncatedOption)),
    decreases s.len(),
{
    if s.len() == 0 {
        assert(options_bytes(s) + t =~= t);
        assert(s =~= seq![]);
    } else {
        let tail = s.subrange(1, s.len() as int);
        lemma_options_bytes_front(s);
        let rest = options_bytes(tail) + t;
        lemma_option_round_trip(s[0], rest);
        let b = options_bytes(s) + t;
        assert(b =~= option_bytes(s[0]) + rest);
        let n = option_bytes(s[0]).len();
        assert forall|i: int| 0 <= i < tail.len() implies well_typed(#[trigger] tail[i])
            && encodable(tail[i]) && tail[i].tag != 255 by {
            assert(tail[i] == s[i + 1]);
        }
        lemma_truncated_option(tail, t);
        assert(b.subrange(n as int, b.len() as int) =~= rest);
        assert(seq![s[0]] + tail =~= s);
    }
}

/// Encode-then-decode of an option area: where a sequence of options, with
/// End at most as its last element, encodes without error, decoding the
/// area gives back exactly that sequence and no error.
pub proof fn lemma_area_round_trip(s: Seq<OptionView>)
    requires
        forall|i: int| 0 <= i < s.len() ==> well_typed(#[trigger] s[i]),
        forall|i: int| 0 <= i < s.len() - 1 ==> (#[trigger] s[i]).tag != 255,
        encode_area(s) is Ok,
    ensures
        decode_area(encode_area(s).unwrap()) == Ok::<(Seq<OptionView>, Option<DhcpError>), DhcpError>(
            (s, None),
        ),
{
    lemma_encode_area(s);
    lemma_options_round_trip(s);
    let a = magic_cookie() + options_bytes(s);
    assert(a.subrange(0, 4) =~= magic_cookie());
    assert(a.subrange(4, a.len() as int) =~= options_bytes(s));
}

} // verus!
