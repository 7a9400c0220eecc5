//! Moving TLS bytes between two in-memory connections.

use vstd::prelude::*;

use crate::conn_specs::{
    handshaking, read_tls_from, tls_failed, tls_pending, tls_plaintext, tls_received, tls_room,
    wants_write, write_tls_into, MESSAGE_BUFFER_LEN,
};

verus! {

/// Size of the buffer that carries bytes from one connection to the other.
pub const TRANSFER_BUFFER_LEN: usize = 262144;

/// Why `transfer` stopped before all queued bytes were moved.
#[derive(Debug)]
pub enum TransferError {
    /// The receiver had no room left for the rest of the bytes.
    ReadTls(std::io::Error),
}

/// `written` bytes left the send queue of `left` (from `l0` to `l1`), and the
/// first `delivered` of them were appended to the unprocessed input of
/// `right` (from `r0` to `r1`); nothing else that is named changed.
pub open spec fn transfer_state(
    l0: rustls::Connection,
    r0: rustls::Connection,
    l1: rustls::Connection,
    r1: rustls::Connection,
    written: int,
    delivered: int,
) -> bool {
    &&& 0 <= delivered <= written <= tls_pending(l0).len()
    &&& tls_pending(l1) == tls_pending(l0).skip(written)
    &&& tls_received(r1) == tls_received(r0) + tls_pending(l0).take(delivered)
    &&& tls_received(l1) == tls_received(l0)
    &&& tls_pending(r1) == tls_pending(r0)
    &&& tls_plaintext(l1) == tls_plaintext(l0)
    &&& tls_plaintext(r1) == tls_plaintext(r0)
    &&& handshaking(l1) == handshaking(l0)
    &&& handshaking(r1) == handshaking(r0)
    &&& tls_failed(l1) == tls_failed(l0)
    &&& tls_failed(r1) == tls_failed(r0)
}

/// Law: moving bytes from `left` to `right` in two successive steps leaves the
/// same named state as moving them in one step; no byte is lost, repeated or
/// reordered between the steps.
pub proof fn transfers_compose(
    l0: rustls::Connection,
    r0: rustls::Connection,
    l1: rustls::Connection,
    r1: rustls::Connection,
    l2: rustls::Connection,
    r2: rustls::Connection,
    first: int,
    second: int,
)
    requires
        transfer_state(l0, r0, l1, r1, first, first),
        transfer_state(l1, r1, l2, r2, second, second),
    ensures
        transfer_state(l0, r0, l2, r2, first + second, first + second),
{
    assert(tls_pending(l0).skip(first).skip(second) =~= tls_pending(l0).skip(first + second));
    assert(tls_pending(l0).take(first) + tls_pending(l0).skip(first).take(second)
        =~= tls_pending(l0).take(first + second));
    assert(tls_received(r0) + tls_pending(l0).take(first) + tls_pending(l0).skip(first).take(
        second,
    ) =~= tls_received(r0) + tls_pending(l0).take(first + second));
}

/// Law: once every queued byte of `left` has been moved, `left` has nothing
/// left to send and `right` holds exactly what it held before followed by
/// what `left` had queued.
pub proof fn completed_transfer_delivers_all(
    l0: rustls::Connection,
    r0: rustls::Connection,
    l1: rustls::Connection,
    r1: rustls::Connection,
    total: int,
)
    requires
        transfer_state(l0, r0, l1, r1, total, total),
        total == tls_pending(l0).len(),
    ensures
        tls_pending(l1).len() == 0,
        tls_received(r1) == tls_received(r0) + tls_pending(l0),
{
    assert(tls_pending(l0).take(total) =~= tls_pending(l0));
}

/// Writes every TLS byte that `left` has queued and feeds it to `right`,
/// returning how many bytes were moved. It fails exactly when `right` has no
/// room for all of them; it has then fed `right` as many as fitted.
pub fn transfer(left: &mut rustls::Connection, right: &mut rustls::Connection) -> (res: Result<
    usize,
    TransferError,
>)
    ensures
        res is Ok <==> tls_pending(*old(left)).len() <= tls_room(*old(right)),
        res matches Ok(total) ==> {
            &&& total == tls_pending(*old(left)).len()
            &&& transfer_state(
                *old(left),
                *old(right),
                *final(left),
                *final(right),
                total as int,
                total as int,
            )
        },
        tls_pending(*old(left)).len() == 0 ==> {
            &&& res matches Ok(0usize)
            &&& *final(left) == *old(left)
            &&& *final(right) == *old(right)
        },
        res is Err ==> exists|written: int|
            #[trigger] transfer_state(
                *old(left),
                *old(right),
                *final(left),
                *final(right),
                written,
                tls_room(*old(right)),
            ),
{
    let ghost l0 = *left;
    let ghost r0 = *right;
    let mut buf: Vec<u8> = vec![0u8; TRANSFER_BUFFER_LEN];
    let mut total: usize = 0;
    assert(tls_pending(l0).skip(0) == tls_pending(l0));
    assert(tls_received(r0) + tls_pending(l0).take(0) == tls_received(r0));
    while wants_write(left)
        invariant
            l0 == *old(left),
            r0 == *old(right),
            buf@.len() == TRANSFER_BUFFER_LEN,
            transfer_state(l0, r0, *left, *right, total as int, total as int),
            total <= tls_room(r0),
            tls_room(*right) == tls_room(r0) - total,
            total == 0 ==> *left == l0 && *right == r0,
        decreases tls_pending(*left).len(),
    {
        let sz: usize = write_tls_into(left, &mut buf).unwrap();
        if sz == 0 {
            return Ok(total);
        }
        proof {
            assert(tls_pending(l0).skip(total as int).skip(sz as int) =~= tls_pending(l0).skip(
                total + sz,
            ));
            assert(buf@.take(sz as int) =~= tls_pending(l0).subrange(
                total as int,
                total + sz,
            ));
        }
        let mut offs: usize = 0;
        while offs < sz
            invariant
                l0 == *old(left),
                r0 == *old(right),
                0 < sz <= buf@.len(),
                offs <= sz,
                total + sz <= tls_pending(l0).len(),
                buf@.take(sz as int) == tls_pending(l0).subrange(total as int, total + sz),
                transfer_state(l0, r0, *left, *right, total + sz, total + offs),
                total + offs <= tls_room(r0),
                tls_room(*right) == tls_room(r0) - (total + offs),
            decreases sz - offs,
        {
            match read_tls_from(right, &buf, offs, sz) {
                Ok(n) => {
                    proof {
                        assert(buf@.subrange(offs as int, offs + n) =~= buf@.take(
                            sz as int,
                        ).subrange(offs as int, offs + n));
                        assert(tls_pending(l0).subrange(total as int, total + sz).subrange(
                            offs as int,
                            offs + n,
                        ) =~= tls_pending(l0).subrange(total + offs, total + offs + n));
                        assert(tls_pending(l0).take(total + offs) + tls_pending(l0).subrange(
                            total + offs,
                            total + offs + n,
                        ) =~= tls_pending(l0).take(total + offs + n));
                        assert(tls_received(r0) + tls_pending(l0).take(total + offs + n)
                            =~= tls_received(r0) + tls_pending(l0).take(total + offs)
                            + tls_pending(l0).subrange(total + offs, total + offs + n));
                    }
                    offs = offs + n;
                },
                Err(e) => {
                    assert(transfer_state(l0, r0, *left, *right, total + sz, tls_room(r0)));
                    return Err(TransferError::ReadTls(e));
                },
            }
        }
        assert(tls_room(r0) <= MESSAGE_BUFFER_LEN);
        total = total + sz;
    }
    Ok(total)
}

} // verus!
