use vstd::prelude::*;
use crate::codec::read_quad;
use crate::error::DhcpError;
use crate::wire::{be16, be32, long_at, quad_at, word_at};

verus! {

/// Size of the fixed header block that precedes the option area.
pub const HEADER_LEN: usize = 236;

/// Largest message: the fixed header and a full option area.
pub const MAX_MESSAGE_LEN: usize = 548;

/// A DHCP message in wire layout: the fixed header's fields as raw values
/// (integers already in host order), and the option area's bytes.
pub struct DHCPMessageRaw {
    pub op: u8,
    pub htype: u8,
    /// hardware address length
    pub hlen: u8,
    pub hops: u8,
    pub xid: u32,
    pub secs: u16,
    pub flags: u16,
    pub ciaddr: [u8; 4],
    /// your (client) IP address
    pub yiaddr: [u8; 4],
    /// IP address of the next server to use in bootstrap
    pub siaddr: [u8; 4],
    /// relay agent IP address
    pub giaddr: [u8; 4],
    /// client hardware address
    pub chaddr: [u8; 16],
    /// server host name
    pub sname: [u8; 64],
    /// boot file name
    pub file: [u8; 128],
    /// the option area, magic cookie included
    pub options: Vec<u8>,
}

/// The 236 bytes of a fixed header with these fields.
pub open spec fn header_seq(
    op: u8,
    htype: u8,
    hlen: u8,
    hops: u8,
    xid: u32,
    secs: u16,
    flags: u16,
    ciaddr: [u8; 4],
    yiaddr: [u8; 4],
    siaddr: [u8; 4],
    giaddr: [u8; 4],
    chaddr: Seq<u8>,
    sname: Seq<u8>,
    file: Seq<u8>,
) -> Seq<u8> {
    seq![op, htype, hlen, hops] + be32(xid) + be16(secs) + be16(flags) + ciaddr@ + yiaddr@
        + siaddr@ + giaddr@ + chaddr + sname + file
}

impl DHCPMessageRaw {
    /// The fixed header of this message in wire layout.
    pub open spec fn header_bytes(&self) -> Seq<u8> {
        header_seq(
            self.op,
            self.htype,
            self.hlen,
            self.hops,
            self.xid,
            self.secs,
            self.flags,
            self.ciaddr,
            self.yiaddr,
            self.siaddr,
            self.giaddr,
            self.chaddr@,
            self.sname@,
            self.file@,
        )
    }

    /// The whole message in wire layout.
    pub open spec fn wire_bytes(&self) -> Seq<u8> {
        self.header_bytes() + self.options@
    }

    /// Whether the fields are those that the fixed header `b[0..236]` holds.
    pub open spec fn reads(&self, b: Seq<u8>) -> bool {
        &&& b.len() >= HEADER_LEN
        &&& self.op == b[0]
        &&& self.htype == b[1]
        &&& self.hlen == b[2]
        &&& self.hops == b[3]
        &&& self.xid == long_at(b, 4)
        &&& self.secs == word_at(b, 8)
        &&& self.flags == word_at(b, 10)
        &&& self.ciaddr == quad_at(b, 12)
        &&& self.yiaddr == quad_at(b, 16)
        &&& self.siaddr == quad_at(b, 20)
        &&& self.giaddr == quad_at(b, 24)
        &&& self.chaddr@ == b.subrange(28, 44)
        &&& self.sname@ == b.subrange(44, 108)
        &&& self.file@ == b.subrange(108, 236)
    }

    /// Reads a received message of `received_bytes` bytes held at the start
    /// of `bytes`: its fixed header and its option area.
    pub fn decode_received_message(bytes: &[u8], received_bytes: usize) -> (r: Result<
        Self,
        DhcpError,
    >)
        ensures
            received_bytes > bytes@.len() || received_bytes < HEADER_LEN ==> r == Err::<
                Self,
                DhcpError,
            >(DhcpError::TruncatedMessage),
            HEADER_LEN <= received_bytes <= bytes@.len() && received_bytes > MAX_MESSAGE_LEN ==> r
                == Err::<Self, DhcpError>(DhcpError::OptionAreaOverflow),
            HEADER_LEN <= received_bytes <= bytes@.len() && received_bytes <= MAX_MESSAGE_LEN ==> (
            r matches Ok(m) && m.reads(bytes@) && m.options@ == bytes@.subrange(
                HEADER_LEN as int,
                received_bytes as int,
            )),
    {
        if received_bytes > bytes.len() || received_bytes < HEADER_LEN {
            return Err(DhcpError::TruncatedMessage);
        }
        if received_bytes > MAX_MESSAGE_LEN {
            return Err(DhcpError::OptionAreaOverflow);
        }
        let area = vstd::slice::slice_subrange(bytes, HEADER_LEN, received_bytes);
        Ok(DHCPMessageRaw {
            op: bytes[0],
            htype: bytes[1],
            hlen: bytes[2],
            hops: bytes[3],
            xid: read_be32(bytes, 4),
            secs: read_be16(bytes, 8),
            flags: read_be16(bytes, 10),
            ciaddr: read_quad(bytes, 12),
            yiaddr: read_quad(bytes, 16),
            siaddr: read_quad(bytes, 20),
            giaddr: read_quad(bytes, 24),
            chaddr: copy_bytes(bytes, 28),
            sname: copy_bytes(bytes, 44),
            file: copy_bytes(bytes, 108),
            options: vstd::slice::slice_to_vec(area),
        })
    }

    /// The message in wire layout: the fixed header, then the option area.
    pub fn to_bytes(&self) -> (r: Vec<u8>)
        ensures
            r@ == self.wire_bytes(),
    {
        let mut out: Vec<u8> = Vec::new();
        out.push(self.op);
        out.push(self.htype);
        out.push(self.hlen);
        out.push(self.hops);
        push_be32(&mut out, self.xid);
        push_be16(&mut out, self.secs);
        push_be16(&mut out, self.flags);
        push_all(&mut out, vstd::array::array_as_slice(&self.ciaddr));
        push_all(&mut out, vstd::array::array_as_slice(&self.yiaddr));
        push_all(&mut out, vstd::array::array_as_slice(&self.siaddr));
        push_all(&mut out, vstd::array::array_as_slice(&self.giaddr));
        push_all(&mut out, vstd::array::array_as_slice(&self.chaddr));
        push_all(&mut out, vstd::array::array_as_slice(&self.sname));
        push_all(&mut out, vstd::array::array_as_slice(&self.file));
        push_all(&mut out, self.options.as_slice());
        assert(out@ =~= self.wire_bytes());
        out
    }

    /// Writes the message in wire layout at the start of a caller-owned
    /// buffer and returns the number of bytes written, the only ones to
    /// send. Fails with `BufferTooSmall`, writing nothing, where the buffer
    /// cannot hold them.
    pub fn write_into(&self, out: &mut [u8]) -> (r: Result<usize, DhcpError>)
        ensures
            old(out)@.len() < self.wire_bytes().len() ==> r == Err::<usize, DhcpError>(
                DhcpError::BufferTooSmall,
            ) && final(out)@ == old(out)@,
            old(out)@.len() >= self.wire_bytes().len() ==> r == Ok::<usize, DhcpError>(
                self.wire_bytes().len() as usize,
            ) && final(out)@ == self.wire_bytes() + old(out)@.subrange(
                self.wire_bytes().len() as int,
                old(out)@.len() as int,
            ),
    {
        let bytes = self.to_bytes();
        let n = bytes.len();
        if out.len() < n {
            return Err(DhcpError::BufferTooSmall);
        }
        let mut i: usize = 0;
        while i < n
            invariant
                n == bytes@.len(),
                bytes@ == self.wire_bytes(),
                n <= out@.len(),
                out@.len() == old(out)@.len(),
                i <= n,
                forall|j: int| 0 <= j < i ==> out@[j] == bytes@[j],
                forall|j: int| n <= j < out@.len() ==> out@[j] == old(out)@[j],
            decreases n - i,
        {
            out[i] = bytes[i];
            i = i + 1;
        }
        assert(out@ =~= self.wire_bytes() + old(out)@.subrange(n as int, old(out)@.len() as int));
        Ok(n)
    }
}

fn read_be16(b: &[u8], i: usize) -> (r: u16)
    requires
        i + 2 <= b@.len(),
    ensures
        r == word_at(b@, i as int),
{
    ((b[i] as u16) << 8u16) | (b[i + 1] as u16)
}

fn read_be32(b: &[u8], i: usize) -> (r: u32)
    requires
        i + 4 <= b@.len(),
    ensures
        r == long_at(b@, i as int),
{
    ((b[i] as u32) << 24u32) | ((b[i + 1] as u32) << 16u32) | ((b[i + 2] as u32) << 8u32) | (b[i
        + 3] as u32)
}

/// The `N` bytes at `b[off..off + N]`.
fn copy_bytes<const N: usize>(b: &[u8], off: usize) -> (r: [u8; N])
    requires
        off + N <= b@.len(),
    ensures
        r@ == b@.subrange(off as int, off + N),
{
    let len = b.len();
    let mut r = [0u8; N];
    let mut k: usize = 0;
    while k < N
        invariant
            len == b@.len(),
            off + N <= len,
            k <= N,
            r@.len() == N,
            forall|j: int| 0 <= j < k ==> r@[j] == b@[off + j],
        decreases N - k,
    {
        r[k] = b[off + k];
        k = k + 1;
    }
    assert(r@ =~= b@.subrange(off as int, off + N));
    r
}

fn push_be16(out: &mut Vec<u8>, w: u16)
    ensures
        final(out)@ == old(out)@ + be16(w),
{
    out.push((w >> 8u16) as u8);
    out.push(w as u8);
    assert(out@ =~= old(out)@ + be16(w));
}

fn push_be32(out: &mut Vec<u8>, x: u32)
    ensures
        final(out)@ == old(out)@ + be32(x),
{
    out.push((x >> 24u32) as u8);
    out.push((x >> 16u32) as u8);
    out.push((x >> 8u32) as u8);
    out.push(x as u8);
    assert(out@ =~= old(out)@ + be32(x));
}

fn push_all(out: &mut Vec<u8>, b: &[u8])
    ensures
        final(out)@ == old(out)@ + b@,
{
    let mut i: usize = 0;
    while i < b.len()
        invariant
            i <= b@.len(),
            out@ =~= old(out)@ + b@.subrange(0, i as int),
        decreases b@.len() - i,
    {
        out.push(b[i]);
        i = i + 1;
    }
    assert(b@.subrange(0, b@.len() as int) =~= b@);
}

} // verus!
