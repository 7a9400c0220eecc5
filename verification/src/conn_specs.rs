//! What this library relies on of `rustls::Connection` and `std::io::Error`.
//!
//! A connection's fields are private. Three byte queues inside it are named
//! here: the TLS bytes it has queued for sending (`sendable_tls`), the TLS
//! bytes it has read but not yet processed (the deframer's buffer) and the
//! plaintext it holds for its reader. Two more names stand for whether it is
//! still handshaking and for the error it has kept, if any.

use vstd::prelude::*;

verus! {

#[verifier::external_type_specification]
#[verifier::external_body]
pub struct ExConnection(rustls::Connection);

#[verifier::external_type_specification]
#[verifier::external_body]
pub struct ExIoError(std::io::Error);

#[verifier::external_type_specification]
#[verifier::external_body]
pub struct ExTlsError(rustls::Error);

#[verifier::external_type_specification]
#[verifier::external_body]
pub struct ExIoState(rustls::IoState);

/// The TLS bytes that `conn` has queued for sending, oldest first
/// (its `sendable_tls` buffer).
pub uninterp spec fn tls_pending(conn: rustls::Connection) -> Seq<u8>;

/// The TLS bytes that `conn` has read and not yet processed, oldest first
/// (the used prefix of its message deframer's buffer).
pub uninterp spec fn tls_received(conn: rustls::Connection) -> Seq<u8>;

/// The decrypted bytes that `conn` holds for its reader, oldest first (its
/// `received_plaintext` buffer).
pub uninterp spec fn tls_plaintext(conn: rustls::Connection) -> Seq<u8>;

/// Whether `conn` is still performing the TLS handshake.
pub uninterp spec fn handshaking(conn: rustls::Connection) -> bool;

/// The error that `conn` has kept from a failed processing step, if any (its
/// state is then that error, and every later processing step returns it).
pub uninterp spec fn tls_failed(conn: rustls::Connection) -> Option<rustls::Error>;

/// Above this many bytes of unread plaintext, a connection refuses to read
/// more TLS input.
pub const RECEIVED_PLAINTEXT_LIMIT: usize = 16384;

/// The size of a connection's buffer of unprocessed TLS input: the largest
/// TLS record on the wire (a five-byte header and up to 16384 + 2048 bytes).
pub const MESSAGE_BUFFER_LEN: usize = 18437;

/// `bytes` begins with a whole TLS record: a five-byte header whose last two
/// bytes give the length of the payload (big-endian), and that payload.
pub open spec fn holds_whole_record(bytes: Seq<u8>) -> bool {
    &&& bytes.len() >= 5
    &&& bytes.len() >= 5 + (bytes[3] as int) * 256 + (bytes[4] as int)
}

/// How many bytes of TLS input `conn` accepts now: none while its unread
/// plaintext is over its limit or its input buffer is full, else the free
/// part of that buffer.
pub open spec fn tls_room(conn: rustls::Connection) -> int {
    if tls_plaintext(conn).len() > RECEIVED_PLAINTEXT_LIMIT {
        0
    } else if tls_received(conn).len() >= MESSAGE_BUFFER_LEN {
        0
    } else {
        MESSAGE_BUFFER_LEN - tls_received(conn).len()
    }
}

/// `Connection::wants_write`: rustls returns `!sendable_tls.is_empty()`, and
/// never stores an empty chunk there, so it is true exactly when bytes are
/// queued for sending.
#[verifier::external_body]
pub(crate) fn wants_write(conn: &rustls::Connection) -> (r: bool)
    ensures
        r == (tls_pending(*conn).len() > 0),
{
    conn.wants_write()
}

/// `Connection::is_handshaking`, named by `handshaking`.
#[verifier::external_body]
pub(crate) fn is_handshaking(conn: &rustls::Connection) -> (r: bool)
    ensures
        r == handshaking(*conn),
{
    conn.is_handshaking()
}

/// `Connection::write_tls` into the whole of `buf`, used as a byte slice.
///
/// rustls hands at most 64 queued chunks to `write_vectored` of the slice
/// and passes on only the slice's error, which a slice never returns; it then
/// drops from its queue exactly the bytes that were written, and a slice
/// takes a prefix of them that fits. So the call succeeds, the written bytes
/// are the first `n` queued bytes, they leave the queue, the rest of `buf` is
/// untouched, and `n` is positive when both the queue and `buf` are not
/// empty. Nothing else of the connection is touched. How many chunks fit
/// beyond that is not stated.
#[verifier::external_body]
pub(crate) fn write_tls_into(conn: &mut rustls::Connection, buf: &mut Vec<u8>) -> (r: Result<
    usize,
    std::io::Error,
>)
    ensures
        r is Ok,
        final(buf)@.len() == old(buf)@.len(),
        tls_received(*final(conn)) == tls_received(*old(conn)),
        tls_plaintext(*final(conn)) == tls_plaintext(*old(conn)),
        handshaking(*final(conn)) == handshaking(*old(conn)),
        tls_failed(*final(conn)) == tls_failed(*old(conn)),
        r matches Ok(n) ==> {
            &&& n <= old(buf)@.len()
            &&& n <= tls_pending(*old(conn)).len()
            &&& final(buf)@.take(n as int) == tls_pending(*old(conn)).take(n as int)
            &&& final(buf)@.skip(n as int) == old(buf)@.skip(n as int)
            &&& tls_pending(*final(conn)) == tls_pending(*old(conn)).skip(n as int)
            &&& (old(buf)@.len() > 0 && tls_pending(*old(conn)).len() > 0 ==> n > 0)
        },
{
    conn.write_tls(&mut buf.as_mut_slice())
}

/// `Connection::read_tls` from the bytes `data[start..end]`, which are not
/// empty.
///
/// rustls fails when its unread plaintext is over its limit or its input
/// buffer is full; otherwise it reads once from the slice into the free part
/// of that buffer, right after the bytes it already holds, and a slice gives
/// as many bytes as fit. So the call succeeds exactly when `tls_room` is
/// positive, and then the first `min(end - start, room)` bytes of the slice
/// are appended to the unprocessed input. On failure nothing changes. The
/// send queue, the plaintext, the handshake state and any kept error are not
/// touched.
#[verifier::external_body]
pub(crate) fn read_tls_from(conn: &mut rustls::Connection, data: &Vec<u8>, start: usize, end: usize) -> (r:
    Result<usize, std::io::Error>)
    requires
        start < end <= data@.len(),
    ensures
        tls_pending(*final(conn)) == tls_pending(*old(conn)),
        tls_plaintext(*final(conn)) == tls_plaintext(*old(conn)),
        handshaking(*final(conn)) == handshaking(*old(conn)),
        tls_failed(*final(conn)) == tls_failed(*old(conn)),
        r is Ok <==> tls_room(*old(conn)) > 0,
        match r {
            Ok(n) => {
                &&& n <= end - start
                &&& n <= tls_room(*old(conn))
                &&& (n == end - start || n == tls_room(*old(conn)))
                &&& tls_received(*final(conn)) == tls_received(*old(conn)) + data@.subrange(
                    start as int,
                    start + n,
                )
            },
            Err(_) => tls_received(*final(conn)) == tls_received(*old(conn)),
        },
{
    conn.read_tls(&mut &data[start..end])
}

/// `Connection::process_new_packets`. It takes whole records from the front
/// of the unprocessed input, one after another, and handles each; what it
/// does with them depends on the connection's keys and state and on fresh
/// random values, and is not stated. What holds of every outcome: it only
/// appends to the send queue and to the unread plaintext; a connection that
/// has finished its handshake stays finished; what is left unprocessed is a
/// suffix of what was there; after a success that
/// suffix does not begin with a whole record (rustls takes records until
/// none is left, and fails on a header it refuses); a connection that kept an
/// error returns that error again and stays as it was; after an error the
/// connection keeps one (the one returned, or another when its input could
/// not be split into records); after a success it keeps none.
#[verifier::external_body]
pub(crate) fn process_new_packets(conn: &mut rustls::Connection) -> (r: Result<
    rustls::IoState,
    rustls::Error,
>)
    ensures
        tls_received(*final(conn)).len() <= tls_received(*old(conn)).len(),
        tls_received(*final(conn)) == tls_received(*old(conn)).skip(
            tls_received(*old(conn)).len() - tls_received(*final(conn)).len(),
        ),
        r is Ok ==> !holds_whole_record(tls_received(*final(conn))),
        tls_pending(*old(conn)).len() <= tls_pending(*final(conn)).len(),
        tls_pending(*final(conn)).take(tls_pending(*old(conn)).len() as int) == tls_pending(
            *old(conn),
        ),
        tls_plaintext(*old(conn)).len() <= tls_plaintext(*final(conn)).len(),
        tls_plaintext(*final(conn)).take(tls_plaintext(*old(conn)).len() as int)
            == tls_plaintext(*old(conn)),
        !handshaking(*old(conn)) ==> !handshaking(*final(conn)),
        r is Ok <==> tls_failed(*final(conn)) is None,
        tls_failed(*old(conn)) is Some ==> {
            &&& r == Err::<rustls::IoState, rustls::Error>(tls_failed(*old(conn))->Some_0)
            &&& *final(conn) == *old(conn)
        },
{
    conn.process_new_packets()
}

} // verus!
