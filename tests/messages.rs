use embedded_dhcp_client::{
    decode_message, encode_message, DHCPMessage, DHCPMessageRaw, DhcpError, HType, HwAddress,
    MessageTy, Op, Options,
};

const MAC: [u8; 6] = [0xAA, 0xBB, 0xCC, 0xDD, 0xEE, 0xFF];

fn header(op: u8, htype: u8, flags: [u8; 2]) -> Vec<u8> {
    let mut b = vec![0u8; 236];
    b[0] = op;
    b[1] = htype;
    b[2] = 6;
    b[4..8].copy_from_slice(&[0x12, 0x34, 0x56, 0x78]);
    b[10] = flags[0];
    b[11] = flags[1];
    b
}

fn decode_err(bytes: &[u8], len: usize) -> DhcpError {
    match decode_message(bytes, len) {
        Err(e) => e,
        Ok(_) => panic!("expected an error"),
    }
}

#[test]
fn discover_scenario() {
    let m = DHCPMessage::new_discover(
        0x12345678,
        HwAddress::Ethernet(MAC),
        HType::Ethernet,
        &[1, 3, 6, 51, 58, 59],
    )
    .unwrap();
    assert_eq!(m.op, Op::BootRequest);
    assert_eq!(m.htype, HType::Ethernet);
    assert_eq!(m.hlen, 6);
    assert!(m.flags);
    assert_eq!(m.xid, 0x12345678);
    assert_eq!(&m.chaddr[0..6], &MAC);
    assert_eq!(&m.chaddr[6..], &[0u8; 10]);
    assert_eq!(
        m.options,
        vec![
            Options::DHCPMessageType(MessageTy::Discover),
            Options::ClientIdentifier(1, MAC.to_vec()),
            Options::VendorClassIdentifier("rust-embedded-dhcp-client".to_string()),
            Options::ParameterRequestList(vec![1, 3, 6, 51, 58, 59]),
            Options::End,
        ]
    );
    let wire = encode_message(&m).unwrap();
    assert_eq!(&wire[0..4], &[1, 1, 6, 0]);
    assert_eq!(&wire[4..8], &[0x12, 0x34, 0x56, 0x78]);
    assert_eq!(&wire[10..12], &[0x80, 0x00]);
    assert_eq!(&wire[28..34], &MAC);
    assert_eq!(&wire[236..240], &[0x63, 0x82, 0x53, 0x63]);
    assert_eq!(&wire[240..243], &[53, 1, 1]);
    assert_eq!(*wire.last().unwrap(), 255);
}

#[test]
fn request_has_its_options_in_order() {
    let m = DHCPMessage::new_request(
        7,
        HwAddress::Ethernet(MAC),
        HType::Ethernet,
        [192, 0, 2, 100],
        [192, 0, 2, 1],
    )
    .unwrap();
    assert_eq!(
        m.options,
        vec![
            Options::DHCPMessageType(MessageTy::Request),
            Options::RequestedIPAddress([192, 0, 2, 100]),
            Options::ServerIdentifer([192, 0, 2, 1]),
            Options::ClientIdentifier(1, MAC.to_vec()),
            Options::VendorClassIdentifier("rust-embedded-dhcp-client".to_string()),
            Options::End,
        ]
    );
}

#[test]
fn builders_reject_other_hardware_types() {
    let r = DHCPMessage::new_discover(1, HwAddress::Ethernet(MAC), HType::Atm, &[1]);
    assert!(matches!(r, Err(DhcpError::UnsupportedHardwareType)));
    let r = DHCPMessage::new_request(1, HwAddress::Ethernet(MAC), HType::Chaos, [0; 4], [0; 4]);
    assert!(matches!(r, Err(DhcpError::UnsupportedHardwareType)));
}

#[test]
fn offer_scenario() {
    let mut b = header(2, 1, [0, 0]);
    b[16..20].copy_from_slice(&[192, 0, 2, 100]);
    b.extend_from_slice(&[0x63, 0x82, 0x53, 0x63]);
    b.extend_from_slice(&[53, 1, 2]);
    b.extend_from_slice(&[54, 4, 192, 0, 2, 1]);
    b.extend_from_slice(&[51, 4, 0x00, 0x01, 0x51, 0x80]);
    b.push(255);
    let len = b.len();
    b.extend_from_slice(&[0u8; 20]);
    let (m, err) = decode_message(&b, len).unwrap();
    assert_eq!(err, None);
    assert_eq!(m.op, Op::BootReply);
    assert!(!m.flags);
    assert_eq!(m.xid, 0x12345678);
    assert_eq!(m.yiaddr, [192, 0, 2, 100]);
    assert_eq!(
        m.options,
        vec![
            Options::DHCPMessageType(MessageTy::Offer),
            Options::ServerIdentifer([192, 0, 2, 1]),
            Options::IPAddressLeaseTime(86400),
            Options::End,
        ]
    );
}

#[test]
fn message_round_trip() {
    let mut m = DHCPMessage::new_discover(
        0xCAFEBABE,
        HwAddress::Ethernet(MAC),
        HType::Ethernet,
        &[1, 3],
    )
    .unwrap();
    m.op = Op::BootReply;
    m.hops = 3;
    m.secs = 0x0102;
    m.flags = false;
    m.ciaddr = [1, 2, 3, 4];
    m.giaddr = [5, 6, 7, 8];
    m.sname[0] = b's';
    m.file[127] = b'f';
    m.options.insert(0, Options::PathMTUPalteauTable(vec![576, 1500]));
    m.options.insert(0, Options::StaticRoute(vec![([10, 0, 0, 0], [10, 0, 0, 1])]));
    let wire = encode_message(&m).unwrap();
    let (d, err) = decode_message(&wire, wire.len()).unwrap();
    assert_eq!(err, None);
    assert_eq!(d.op, m.op);
    assert_eq!(d.htype, m.htype);
    assert_eq!(d.hlen, m.hlen);
    assert_eq!(d.hops, m.hops);
    assert_eq!(d.xid, m.xid);
    assert_eq!(d.secs, m.secs);
    assert_eq!(d.flags, m.flags);
    assert_eq!(d.ciaddr, m.ciaddr);
    assert_eq!(d.yiaddr, m.yiaddr);
    assert_eq!(d.siaddr, m.siaddr);
    assert_eq!(d.giaddr, m.giaddr);
    assert_eq!(d.chaddr, m.chaddr);
    assert_eq!(d.sname, m.sname);
    assert_eq!(d.file, m.file);
    assert_eq!(d.options, m.options);
}

#[test]
fn header_errors() {
    let mut b = header(3, 1, [0, 0]);
    b.extend_from_slice(&[0x63, 0x82, 0x53, 0x63]);
    assert_eq!(decode_err(&b, b.len()), DhcpError::InvalidOpcode);
    b[0] = 1;
    b[1] = 6;
    assert_eq!(decode_err(&b, b.len()), DhcpError::UnsupportedHardwareType);
    b[1] = 1;
    b[10] = 0x80;
    b[11] = 0x01;
    assert_eq!(decode_err(&b, b.len()), DhcpError::InvalidFlagsValue);
    b[11] = 0;
    assert!(decode_message(&b, b.len()).is_ok());
    assert_eq!(decode_err(&b, 235), DhcpError::TruncatedMessage);
    assert_eq!(decode_err(&b, b.len() + 1), DhcpError::TruncatedMessage);
    let big = vec![0u8; 600];
    assert_eq!(decode_err(&big, 549), DhcpError::OptionAreaOverflow);
}

#[test]
fn bad_cookie_in_message() {
    let mut b = header(1, 1, [0x80, 0]);
    b.extend_from_slice(&[0x63, 0x82, 0x53, 0x00, 53, 1, 1]);
    assert_eq!(decode_err(&b, b.len()), DhcpError::BadMagicCookie);
    let b = header(1, 1, [0x80, 0]);
    assert_eq!(decode_err(&b, b.len()), DhcpError::BadMagicCookie);
}

#[test]
fn truncated_option_in_message() {
    let mut b = header(2, 1, [0, 0]);
    b.extend_from_slice(&[0x63, 0x82, 0x53, 0x63, 53, 1, 5, 51, 4, 0, 1]);
    let (m, err) = decode_message(&b, b.len()).unwrap();
    assert_eq!(m.options, vec![Options::DHCPMessageType(MessageTy::Ack)]);
    assert_eq!(err, Some(DhcpError::TruncatedOption));
}

#[test]
fn encode_errors() {
    let mut m = DHCPMessage::new_discover(1, HwAddress::Ethernet(MAC), HType::Ethernet, &[1]).unwrap();
    m.htype = HType::SerialLine;
    assert_eq!(encode_message(&m), Err(DhcpError::UnsupportedHardwareType));
    m.htype = HType::Ethernet;
    for _ in 0..2 {
        m.options.push(Options::ParameterRequestList(vec![0; 200]));
    }
    assert_eq!(encode_message(&m), Err(DhcpError::OptionAreaOverflow));
}

#[test]
fn raw_message_writes_into_a_buffer() {
    let m = DHCPMessage::new_discover(9, HwAddress::Ethernet(MAC), HType::Ethernet, &[1]).unwrap();
    let raw = m.to_raw().unwrap();
    let bytes = raw.to_bytes();
    let mut small = [0u8; 100];
    assert_eq!(raw.write_into(&mut small), Err(DhcpError::BufferTooSmall));
    assert_eq!(small, [0u8; 100]);
    let mut out = [0xEEu8; 600];
    assert_eq!(raw.write_into(&mut out), Ok(bytes.len()));
    assert_eq!(&out[..bytes.len()], &bytes[..]);
    assert_eq!(out[bytes.len()], 0xEE);
    let back = DHCPMessageRaw::decode_received_message(&out, bytes.len()).unwrap();
    assert_eq!(back.xid, 9);
    assert_eq!(back.flags, 0x8000);
    let (d, _) = back.decode_to_rustic_message().unwrap();
    assert_eq!(d.options, m.options);
}

#[test]
fn decoding_a_message_twice_gives_the_same_result() {
    let m = DHCPMessage::new_discover(5, HwAddress::Ethernet(MAC), HType::Ethernet, &[3]).unwrap();
    let wire = encode_message(&m).unwrap();
    let (a, ea) = decode_message(&wire, wire.len()).unwrap();
    let (b, eb) = decode_message(&wire, wire.len()).unwrap();
    assert_eq!(ea, eb);
    assert_eq!(a.options, b.options);
    assert_eq!(a.chaddr, b.chaddr);
    assert_eq!(a.xid, b.xid);
}

#[test]
fn hardware_address_and_type() {
    let hw = HwAddress::Ethernet(MAC);
    assert_eq!(hw.addr(), &MAC[..]);
    assert_eq!(hw.hw_type(), HType::Ethernet);
    assert_eq!(HType::Ethernet.code_and_len(), Some((1, 6)));
    assert_eq!(HType::FibreChannel.code_and_len(), None);
}

#[test]
fn server_identifier_is_the_first_one() {
    let mut m = DHCPMessage::new_request(1, HwAddress::Ethernet(MAC), HType::Ethernet, [1; 4], [2; 4])
        .unwrap();
    assert_eq!(m.server_identifier(), Some([2; 4]));
    m.options.push(Options::ServerIdentifer([3; 4]));
    assert_eq!(m.server_identifier(), Some([2; 4]));
    m.options.clear();
    assert_eq!(m.server_identifier(), None);
}

#[test]
fn chaddr_is_zero_padded_after_hlen() {
    let mut m = DHCPMessage::new_discover(1, HwAddress::Ethernet(MAC), HType::Ethernet, &[1]).unwrap();
    m.chaddr[6] = 1;
    m.chaddr[15] = 9;
    let wire = encode_message(&m).unwrap();
    assert_eq!(&wire[28..34], &MAC);
    assert_eq!(&wire[34..44], &[0u8; 10]);
    m.hlen = 16;
    let wire = encode_message(&m).unwrap();
    assert_eq!(wire[34], 1);
    assert_eq!(wire[43], 9);
}

#[test]
fn oversized_option_in_message_overflows() {
    let mut m = DHCPMessage::new_discover(1, HwAddress::Ethernet(MAC), HType::Ethernet, &[1]).unwrap();
    m.options.insert(0, Options::ParameterRequestList(vec![7; 400]));
    assert_eq!(encode_message(&m), Err(DhcpError::OptionAreaOverflow));
}
