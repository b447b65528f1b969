use embedded_dhcp_client::{
    decode_options, encode_options, DhcpError, MessageTy, OptionDecoder, OptionEncoder, Options,
    OverloadMode,
};

const COOKIE: [u8; 4] = [0x63, 0x82, 0x53, 0x63];

fn area(body: &[u8]) -> Vec<u8> {
    let mut v = COOKIE.to_vec();
    v.extend_from_slice(body);
    v
}

fn round_trip(o: Options) {
    let bytes = encode_options(&[o.clone()]).expect("encodes");
    let (decoded, err) = decode_options(&bytes).expect("decodes");
    assert_eq!(err, None);
    assert_eq!(decoded, vec![o]);
}

#[test]
fn single_option_round_trip_every_shape() {
    round_trip(Options::Pad);
    round_trip(Options::End);
    round_trip(Options::SubNetMask([255, 255, 255, 0]));
    round_trip(Options::Router(vec![[192, 168, 1, 1], [10, 0, 0, 1]]));
    round_trip(Options::Hostname("h\u{e9}llo".to_string()));
    round_trip(Options::BootfileSize(0x1234));
    round_trip(Options::PathMTUAgingTimeout(0xDEADBEEF));
    round_trip(Options::IpForwarding(true));
    round_trip(Options::IpForwarding(false));
    round_trip(Options::PolicyFilter(vec![([1, 2, 3, 4], [255, 255, 0, 0])]));
    round_trip(Options::StaticRoute(vec![]));
    round_trip(Options::PathMTUPalteauTable(vec![68, 1500, 0xFFFF]));
    round_trip(Options::DefaultIpTTL(64));
    round_trip(Options::OptionOverload(OverloadMode::Both));
    round_trip(Options::DHCPMessageType(MessageTy::Inform));
    round_trip(Options::ParameterRequestList(vec![1, 3, 6]));
    round_trip(Options::ClientIdentifier(1, vec![0xAA, 0xBB]));
    round_trip(Options::ClientIdentifier(0, vec![]));
}

#[test]
fn scalars_are_written_in_network_order() {
    let bytes = encode_options(&[
        Options::BootfileSize(0x1234),
        Options::IPAddressLeaseTime(86400),
    ])
    .unwrap();
    assert_eq!(bytes, area(&[13, 2, 0x12, 0x34, 51, 4, 0x00, 0x01, 0x51, 0x80]));
}

#[test]
fn booleans_are_canonical_on_encode_and_nonzero_is_true_on_decode() {
    let bytes = encode_options(&[Options::MaskSupplier(true), Options::MaskSupplier(false)]).unwrap();
    assert_eq!(bytes, area(&[30, 1, 1, 30, 1, 0]));
    let (opts, err) = decode_options(&area(&[30, 1, 5])).unwrap();
    assert_eq!(err, None);
    assert_eq!(opts, vec![Options::MaskSupplier(true)]);
}

#[test]
fn text_and_lists_are_written_exactly() {
    let bytes = encode_options(&[
        Options::DomainName("ab".to_string()),
        Options::DNS(vec![[8, 8, 8, 8], [1, 1, 1, 1]]),
        Options::PathMTUPalteauTable(vec![0x0102]),
        Options::ClientIdentifier(1, vec![9, 8]),
    ])
    .unwrap();
    assert_eq!(
        bytes,
        area(&[15, 2, b'a', b'b', 6, 8, 8, 8, 8, 8, 1, 1, 1, 1, 25, 2, 1, 2, 61, 3, 1, 9, 8])
    );
}

#[test]
fn no_end_is_added_and_order_is_kept() {
    let bytes = encode_options(&[Options::Pad, Options::DefaultIpTTL(7), Options::Pad]).unwrap();
    assert_eq!(bytes, area(&[0, 23, 1, 7, 0]));
}

#[test]
fn bad_magic_cookie_gives_no_options() {
    assert_eq!(decode_options(&[0x63, 0x82, 0x53, 0x64, 53, 1, 1, 255]), Err(DhcpError::BadMagicCookie));
    assert_eq!(decode_options(&[0x63, 0x82]), Err(DhcpError::BadMagicCookie));
    assert!(OptionDecoder::from_bytes(&[1, 2, 3, 4]).is_none());
}

#[test]
fn truncated_option_keeps_earlier_options() {
    let (opts, err) = decode_options(&area(&[53, 1, 1, 12, 10, b'a', b'b'])).unwrap();
    assert_eq!(opts, vec![Options::DHCPMessageType(MessageTy::Discover)]);
    assert_eq!(err, Some(DhcpError::TruncatedOption));
    let (opts, err) = decode_options(&area(&[53])).unwrap();
    assert_eq!(opts, vec![]);
    assert_eq!(err, Some(DhcpError::TruncatedOption));
}

#[test]
fn malformed_lengths_and_values() {
    let cases: [&[u8]; 6] = [
        &[3, 5, 1, 2, 3, 4, 5],
        &[3, 0],
        &[1, 3, 1, 2, 3],
        &[12, 2, 0xC3, 0x28],
        &[53, 1, 9],
        &[61, 0],
    ];
    for c in cases {
        let (opts, err) = decode_options(&area(c)).unwrap();
        assert_eq!(opts, vec![]);
        assert_eq!(err, Some(DhcpError::MalformedOption));
    }
}

#[test]
fn unknown_tag_ends_the_options() {
    let (opts, err) = decode_options(&area(&[23, 1, 64, 43, 2, 1, 2, 23, 1, 1])).unwrap();
    assert_eq!(opts, vec![Options::DefaultIpTTL(64)]);
    assert_eq!(err, None);
}

#[test]
fn bytes_after_end_are_ignored() {
    let (opts, err) = decode_options(&area(&[0, 255, 7, 7, 7])).unwrap();
    assert_eq!(opts, vec![Options::Pad, Options::End]);
    assert_eq!(err, None);
}

#[test]
fn twenty_one_options_are_all_kept() {
    let mut body = Vec::new();
    let mut expected = Vec::new();
    for i in 0..21u8 {
        body.extend_from_slice(&[23, 1, i]);
        expected.push(Options::DefaultIpTTL(i));
    }
    let (opts, err) = decode_options(&area(&body)).unwrap();
    assert_eq!(opts.len(), 21);
    assert_eq!(opts, expected);
    assert_eq!(err, None);
}

#[test]
fn decoder_yields_options_one_at_a_time() {
    let bytes = area(&[53, 1, 2, 0, 255, 1]);
    let mut d = OptionDecoder::from_bytes(&bytes).unwrap();
    assert_eq!(d.next(), Some(Ok(Options::DHCPMessageType(MessageTy::Offer))));
    assert_eq!(d.next(), Some(Ok(Options::Pad)));
    assert_eq!(d.next(), Some(Ok(Options::End)));
    assert_eq!(d.next(), None);
    assert_eq!(d.next(), None);
    let bytes = area(&[54, 4, 1]);
    let mut d = OptionDecoder::from_bytes(&bytes).unwrap();
    assert_eq!(d.next(), Some(Err(DhcpError::TruncatedOption)));
    assert_eq!(d.next(), None);
}

#[test]
fn encoder_rejects_unwritable_options() {
    assert_eq!(encode_options(&[Options::Router(vec![])]), Err(DhcpError::MalformedOption));
    assert_eq!(
        encode_options(&[Options::ParameterRequestList(vec![1; 256])]),
        Err(DhcpError::OptionAreaOverflow)
    );
    assert_eq!(
        encode_options(&[Options::ParameterRequestList(vec![1; 400])]),
        Err(DhcpError::OptionAreaOverflow)
    );
    assert_eq!(
        encode_options(&[Options::Router(vec![[1, 2, 3, 4]; 64])]),
        Err(DhcpError::OptionAreaOverflow)
    );
    let mut fresh = OptionEncoder::new();
    assert_eq!(
        fresh.encode(&Options::Hostname("z".repeat(300))),
        Err(DhcpError::OptionAreaOverflow)
    );
    assert_eq!(fresh.buffer.len(), 0);
    let mut enc = OptionEncoder::new().init();
    assert_eq!(enc.encode(&Options::Hostname("x".repeat(255))), Ok(()));
    assert_eq!(enc.buffer.len(), 4 + 257);
    assert_eq!(enc.encode(&Options::Hostname("y".repeat(50))), Err(DhcpError::OptionAreaOverflow));
    assert_eq!(enc.buffer.len(), 4 + 257);
    assert_eq!(enc.encode(&Options::Hostname("y".repeat(49))), Ok(()));
    assert_eq!(enc.buffer.len(), 312);
    assert_eq!(enc.encode(&Options::Pad), Err(DhcpError::OptionAreaOverflow));
}

#[test]
fn tag_numbers_follow_the_registry() {
    assert_eq!(Options::Pad.tag_number(), 0);
    assert_eq!(Options::End.tag_number(), 255);
    assert_eq!(Options::ServerIdentifer([0; 4]).tag_number(), 54);
    assert_eq!(Options::StreetTalkDirectoryAssistanceServer(vec![]).tag_number(), 76);
    assert_eq!(Options::ClientIdentifier(1, vec![]).tag_number(), 61);
}

#[test]
fn decoding_twice_gives_the_same_result() {
    let bytes = area(&[53, 1, 5, 3, 4, 10, 0, 0, 1, 12, 3, b'a', b'b']);
    let first = decode_options(&bytes);
    let second = decode_options(&bytes);
    assert_eq!(first, second);
}
