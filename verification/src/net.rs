use vstd::prelude::*;

use std::time::Duration;

use crate::text::{decimal, decimal_text};

verus! {

/// Largest control-plane payload accepted, in bytes (16 MiB).
pub const MAX_CONTROL_MESSAGE_SIZE: usize = 16777216;

/// UDP socket buffer size requested from the kernel, in bytes (16 MiB).
pub const SOCKET_BUFFER_BYTES: usize = 16777216;

/// Bytes of application datagrams the transport may hold on each side (2 MiB).
pub const DATAGRAM_BUFFER_BYTES: usize = 2097152;

/// A connection is dead after this many milliseconds without a packet.
pub const IDLE_TIMEOUT_MS: u32 = 10000;

/// Keep-alive cadence while idle, in seconds.
pub const KEEP_ALIVE_SECS: u64 = 2;

/// Smallest initial MTU used (the QUIC minimum).
pub const MIN_INITIAL_MTU: u16 = 1200;

/// Largest initial MTU used.
pub const MAX_INITIAL_MTU: u16 = 1500;

/// Errors of the networking layer.
#[derive(Debug)]
pub enum NetError {
    /// TLS configuration or handshake error.
    Tls(String),
    /// QUIC connection error.
    Connection(String),
    /// Control-stream framing error.
    Framing(String),
    /// Datagram send or receive error.
    Datagram(String),
    /// A datagram exceeds what the path currently carries.
    DatagramTooLarge {
        /// Size of the refused datagram.
        size: usize,
        /// Largest datagram the path takes, zero when datagrams are unusable.
        max: usize,
    },
    /// Underlying I/O error.
    Io(std::io::Error),
}

impl NetError {
    /// Human-readable description of the error.
    pub fn message(&self) -> (s: String)
        ensures
            self matches NetError::Tls(d) ==> s@ == "TLS configuration error: "@ + d@,
            self matches NetError::Connection(d) ==> s@ == "QUIC connection error: "@ + d@,
            self matches NetError::Framing(d) ==> s@ == "Framing error: "@ + d@,
            self matches NetError::Datagram(d) ==> s@ == "Datagram I/O error: "@ + d@,
            self matches NetError::DatagramTooLarge { size, max } ==> s@ == "Datagram of "@
                + decimal(size as nat) + " bytes exceeds the path maximum of "@ + decimal(
                max as nat,
            ),
    {
        match self {
            NetError::Tls(d) => crate::error::join_text("TLS configuration error: ", d.as_str()),
            NetError::Connection(d) => crate::error::join_text("QUIC connection error: ", d.as_str()),
            NetError::Framing(d) => crate::error::join_text("Framing error: ", d.as_str()),
            NetError::Datagram(d) => crate::error::join_text("Datagram I/O error: ", d.as_str()),
            NetError::DatagramTooLarge { size, max } => {
                let mut s = String::from_str("Datagram of ");
                let a = decimal_text(*size as u64);
                s.append(a.as_str());
                s.append(" bytes exceeds the path maximum of ");
                let b = decimal_text(*max as u64);
                s.append(b.as_str());
                s
            },
            NetError::Io(e) => {
                let detail = e.to_string();
                crate::error::join_text("I/O error: ", detail.as_str())
            },
        }
    }
}

/// `r` failed with a framing error whose detail is `text`.
pub open spec fn framing_failure<T>(r: Result<T, NetError>, text: Seq<char>) -> bool {
    r matches Err(NetError::Framing(m)) && m@ == text
}

/// The big-endian bytes of a 32-bit length.
pub open spec fn be_bytes(n: u32) -> Seq<u8> {
    seq![
        (n / 0x100_0000) as u8,
        ((n / 0x1_0000) % 0x100) as u8,
        ((n / 0x100) % 0x100) as u8,
        (n % 0x100) as u8,
    ]
}

/// The length a big-endian prefix encodes.
pub open spec fn be_value(b: Seq<u8>) -> int {
    b[0] * 0x100_0000 + b[1] * 0x1_0000 + b[2] * 0x100 + b[3]
}

/// Frames an encoded envelope for the control stream: a 4-byte big-endian length, then
/// the bytes. Payloads over [`MAX_CONTROL_MESSAGE_SIZE`] are refused.
pub fn frame_control_payload(payload: &[u8]) -> (r: Result<Vec<u8>, NetError>)
    ensures
        payload@.len() > MAX_CONTROL_MESSAGE_SIZE ==> framing_failure(
            r,
            "Payload size "@ + decimal(payload@.len()) + " exceeds maximum threshold "@ + decimal(
                MAX_CONTROL_MESSAGE_SIZE as nat,
            ),
        ),
        payload@.len() <= MAX_CONTROL_MESSAGE_SIZE ==> (r matches Ok(framed) && framed@ == be_bytes(
            payload@.len() as u32,
        ) + payload@),
{
    if payload.len() > MAX_CONTROL_MESSAGE_SIZE {
        let mut m = String::from_str("Payload size ");
        let a = decimal_text(payload.len() as u64);
        m.append(a.as_str());
        m.append(" exceeds maximum threshold ");
        let b = decimal_text(MAX_CONTROL_MESSAGE_SIZE as u64);
        m.append(b.as_str());
        return Err(NetError::Framing(m));
    }
    let n = payload.len() as u32;
    let mut framed: Vec<u8> = Vec::new();
    framed.push((n / 0x100_0000) as u8);
    framed.push(((n / 0x1_0000) % 0x100) as u8);
    framed.push(((n / 0x100) % 0x100) as u8);
    framed.push((n % 0x100) as u8);
    let mut i: usize = 0;
    while i < payload.len()
        invariant
            i <= payload@.len(),
            framed@ == be_bytes(n) + payload@.subrange(0, i as int),
        decreases payload@.len() - i,
    {
        framed.push(payload[i]);
        assert(framed@ =~= be_bytes(n) + payload@.subrange(0, i + 1));
        i = i + 1;
    }
    assert(payload@.subrange(0, payload@.len() as int) =~= payload@);
    Ok(framed)
}

/// Reads the payload length from a control-stream length prefix, refusing lengths over
/// [`MAX_CONTROL_MESSAGE_SIZE`].
pub fn parse_length_prefix(prefix: [u8; 4]) -> (r: Result<usize, NetError>)
    ensures
        be_value(prefix@) > MAX_CONTROL_MESSAGE_SIZE ==> framing_failure(
            r,
            "Incoming payload size "@ + decimal(be_value(prefix@) as nat)
                + " exceeds maximum allowed size "@ + decimal(MAX_CONTROL_MESSAGE_SIZE as nat),
        ),
        be_value(prefix@) <= MAX_CONTROL_MESSAGE_SIZE ==> r == Ok::<usize, NetError>(
            be_value(prefix@) as usize,
        ),
{
    let len: u64 = (prefix[0] as u64) * 0x100_0000 + (prefix[1] as u64) * 0x1_0000 + (
    prefix[2] as u64) * 0x100 + (prefix[3] as u64);
    if len > MAX_CONTROL_MESSAGE_SIZE as u64 {
        let mut m = String::from_str("Incoming payload size ");
        let a = decimal_text(len);
        m.append(a.as_str());
        m.append(" exceeds maximum allowed size ");
        let b = decimal_text(MAX_CONTROL_MESSAGE_SIZE as u64);
        m.append(b.as_str());
        return Err(NetError::Framing(m));
    }
    Ok(len as usize)
}

/// Reading a framed payload's prefix back gives the payload's length.
pub proof fn lemma_length_prefix_roundtrip(n: u32)
    ensures
        be_value(be_bytes(n)) == n,
{
    let b = be_bytes(n);
    assert(b[0] == n / 0x100_0000);
    assert(b[1] == (n / 0x1_0000) % 0x100);
    assert(b[2] == (n / 0x100) % 0x100);
    assert(b[3] == n % 0x100);
    assert(be_value(b) == n) by (nonlinear_arith)
        requires
            b[0] == n / 0x100_0000,
            b[1] == (n / 0x1_0000) % 0x100,
            b[2] == (n / 0x100) % 0x100,
            b[3] == n % 0x100,
            0 <= n < 0x1_0000_0000,
            be_value(b) == b[0] * 0x100_0000 + b[1] * 0x1_0000 + b[2] * 0x100 + b[3],
    ;
}

/// What a short read on the control stream becomes: end of stream is a framing error
/// naming what was being read, anything else stays an I/O error.
pub fn read_failure(error: std::io::Error, at_end_of_stream: bool, reading_payload: bool) -> (e: NetError)
    ensures
        at_end_of_stream && !reading_payload ==> (e matches NetError::Framing(m) && m@
            == "Connection closed while reading length prefix"@),
        at_end_of_stream && reading_payload ==> (e matches NetError::Framing(m) && m@
            == "Connection closed while reading payload bytes"@),
        !at_end_of_stream ==> e is Io,
{
    if at_end_of_stream {
        if reading_payload {
            NetError::Framing(String::from_str("Connection closed while reading payload bytes"))
        } else {
            NetError::Framing(String::from_str("Connection closed while reading length prefix"))
        }
    } else {
        NetError::Io(error)
    }
}

/// The initial MTU used for a configured one: clamped to 1200..=1500 bytes.
pub fn initial_mtu_for(requested: u16) -> (mtu: u16)
    ensures
        mtu == if requested < MIN_INITIAL_MTU {
            MIN_INITIAL_MTU
        } else if requested > MAX_INITIAL_MTU {
            MAX_INITIAL_MTU
        } else {
            requested
        },
{
    if requested < MIN_INITIAL_MTU {
        MIN_INITIAL_MTU
    } else if requested > MAX_INITIAL_MTU {
        MAX_INITIAL_MTU
    } else {
        requested
    }
}

/// Whether a presented certificate is exactly the pinned one, byte for byte.
pub fn certificate_matches_pin(presented: &[u8], pinned: &[u8]) -> (ok: bool)
    ensures
        ok == (presented@ == pinned@),
{
    if presented.len() != pinned.len() {
        return false;
    }
    let mut i: usize = 0;
    while i < presented.len()
        invariant
            presented@.len() == pinned@.len(),
            i <= presented@.len(),
            forall|j: int| 0 <= j < i ==> presented@[j] == pinned@[j],
        decreases presented@.len() - i,
    {
        if presented[i] != pinned[i] {
            return false;
        }
        i = i + 1;
    }
    assert(presented@ =~= pinned@);
    true
}

/// The ALPN protocol id both ends negotiate.
pub fn alpn_protocol() -> (id: Vec<u8>)
    ensures
        id@ == seq![114u8, 101, 110, 100, 101, 114, 100, 45, 118, 49],
{
    vec![114u8, 101, 110, 100, 101, 114, 100, 45, 118, 49]
}

#[verifier::external_type_specification]
#[verifier::external_body]
pub struct ExConnection(quinn::Connection);

#[verifier::external_type_specification]
#[verifier::external_body]
pub struct ExBytes(bytes::Bytes);

/// Outcome of handing one datagram to the connection.
#[derive(Debug)]
pub enum DatagramSend {
    /// Queued for sending.
    Queued,
    /// Larger than the path currently carries.
    TooLarge,
    /// Refused for another reason, described.
    Failed(String),
}

/// Calls `quinn::Connection::send_datagram` with a copy of `fragment`; its outcome
/// depends on the connection, so nothing is stated of it.
#[verifier::external_body]
fn send_datagram(connection: &quinn::Connection, fragment: &bytes::Bytes) -> DatagramSend {
    match connection.send_datagram(fragment.clone()) {
        Ok(()) => DatagramSend::Queued,
        Err(quinn::SendDatagramError::TooLarge) => DatagramSend::TooLarge,
        Err(e) => DatagramSend::Failed(e.to_string()),
    }
}

/// Calls `quinn::Connection::max_datagram_size`; it follows path MTU discovery, so
/// nothing is stated of it.
#[verifier::external_body]
fn connection_max_datagram_size(connection: &quinn::Connection) -> Option<usize> {
    connection.max_datagram_size()
}

/// The bytes a `bytes::Bytes` buffer holds.
pub uninterp spec fn bytes_content(b: bytes::Bytes) -> Seq<u8>;

/// Calls `bytes::Bytes::len`: the number of bytes the buffer holds.
#[verifier::external_body]
fn fragment_len(fragment: &bytes::Bytes) -> (n: usize)
    ensures
        n == bytes_content(*fragment).len(),
{
    fragment.len()
}

/// Reads the smoothed round-trip time from `quinn::Connection::stats`; it is a
/// measurement, so nothing is stated of it.
#[verifier::external_body]
fn path_rtt(connection: &quinn::Connection) -> Duration {
    connection.stats().path.rtt
}

/// Sends frame fragments as datagrams without yielding.
pub struct FragmentBurst;

impl FragmentBurst {
    /// Largest datagram the connection currently accepts, if datagrams are usable.
    pub fn max_datagram_size(connection: &quinn::Connection) -> Option<usize> {
        connection_max_datagram_size(connection)
    }

    /// Queues every fragment in order and returns how many were queued. Stops at the
    /// first refusal: a fragment over the path MTU is reported with its size and the
    /// current maximum (zero when unknown), any other refusal as a datagram error.
    pub fn send_all(connection: &quinn::Connection, fragments: &[bytes::Bytes]) -> (r: Result<
        usize,
        NetError,
    >)
        ensures
            fragments@.len() == 0 ==> (r matches Ok(n) && n == 0),
            r matches Ok(n) ==> n == fragments@.len(),
            r matches Err(e) ==> e is DatagramTooLarge || (e matches NetError::Datagram(m)
                && exists|d: Seq<char>| m@ == "Datagram send error: "@ + d),
            r matches Err(NetError::DatagramTooLarge { size, .. }) ==> exists|k: int|
                0 <= k < fragments@.len() && size == bytes_content(#[trigger] fragments@[k]).len(),
    {
        let mut sent_count: usize = 0;
        let mut i: usize = 0;
        while i < fragments.len()
            invariant
                i <= fragments@.len(),
                sent_count == i,
            decreases fragments@.len() - i,
        {
            match send_datagram(connection, &fragments[i]) {
                DatagramSend::Queued => {
                    sent_count = sent_count + 1;
                },
                DatagramSend::TooLarge => {
                    let size = fragment_len(&fragments[i]);
                    let max = match connection_max_datagram_size(connection) {
                        Some(m) => m,
                        None => 0,
                    };
                    return Err(NetError::DatagramTooLarge { size, max });
                },
                DatagramSend::Failed(detail) => {
                    let m = crate::error::join_text("Datagram send error: ", detail.as_str());
                    return Err(NetError::Datagram(m));
                },
            }
            i = i + 1;
        }
        Ok(sent_count)
    }
}

/// Telemetry read from a live connection.
pub trait QuicConnectionExt {
    /// Smoothed round-trip time of the active path.
    fn rtt(&self) -> Duration;
}

impl QuicConnectionExt for quinn::Connection {
    fn rtt(&self) -> Duration {
        path_rtt(self)
    }
}

} // verus!
