//! Driving a client and a server connection through the TLS handshake.

use vstd::prelude::*;

use crate::conn_specs::{
    handshaking, holds_whole_record, is_handshaking, process_new_packets, tls_failed, tls_pending,
    tls_plaintext, tls_received, tls_room,
};
use crate::transfer::{transfer, transfer_state, TransferError};

verus! {

/// Every byte that `l0` had queued was moved into `r0`; `l1` and `r1` are
/// the two connections afterwards.
pub open spec fn transferred_all(
    l0: rustls::Connection,
    r0: rustls::Connection,
    l1: rustls::Connection,
    r1: rustls::Connection,
) -> bool {
    &&& tls_pending(l0).len() <= tls_room(r0)
    &&& transfer_state(
        l0,
        r0,
        l1,
        r1,
        tls_pending(l0).len() as int,
        tls_pending(l0).len() as int,
    )
}

/// `r0` had no room for all the bytes that `l0` had queued, and as many as
/// fitted were moved; `l1` and `r1` are the two connections afterwards.
pub open spec fn transfer_refused(
    l0: rustls::Connection,
    r0: rustls::Connection,
    l1: rustls::Connection,
    r1: rustls::Connection,
) -> bool {
    &&& tls_pending(l0).len() > tls_room(r0)
    &&& exists|written: int| #[trigger] transfer_state(l0, r0, l1, r1, written, tls_room(r0))
}

/// One processing step took a connection from `before` to `after`, failing
/// with `outcome` when that is `Some`: it only appended to the send queue and
/// the unread plaintext, a finished handshake stayed finished, what is left
/// unprocessed is a suffix of what was there, and after a success it does not begin with a whole
/// record; a kept error comes back again and changes nothing; afterwards an
/// error is kept exactly when the step failed.
pub open spec fn processed(
    before: rustls::Connection,
    after: rustls::Connection,
    outcome: Option<rustls::Error>,
) -> bool {
    &&& tls_received(after).len() <= tls_received(before).len()
    &&& tls_received(after) == tls_received(before).skip(
        tls_received(before).len() - tls_received(after).len(),
    )
    &&& (outcome is None ==> !holds_whole_record(tls_received(after)))
    &&& tls_pending(before).len() <= tls_pending(after).len()
    &&& tls_pending(after).take(tls_pending(before).len() as int) == tls_pending(before)
    &&& tls_plaintext(before).len() <= tls_plaintext(after).len()
    &&& tls_plaintext(after).take(tls_plaintext(before).len() as int) == tls_plaintext(before)
    &&& (!handshaking(before) ==> !handshaking(after))
    &&& (outcome is None <==> tls_failed(after) is None)
    &&& (tls_failed(before) is Some ==> outcome == tls_failed(before) && after == before)
}

/// One whole round, from client `c0` and server `s0` to client `c3` and
/// server `s3`: the client's queued bytes go to the server, the server
/// processes them, the server's queued bytes go to the client, the client
/// processes them, and every step succeeds.
pub open spec fn round_completed(
    c0: rustls::Connection,
    s0: rustls::Connection,
    c3: rustls::Connection,
    s3: rustls::Connection,
) -> bool {
    exists|c1: rustls::Connection, s1: rustls::Connection, s2: rustls::Connection, c2: rustls::Connection|
        #![trigger transferred_all(c0, s0, c1, s1), transferred_all(s2, c1, s3, c2)]
        {
            &&& transferred_all(c0, s0, c1, s1)
            &&& processed(s1, s2, None)
            &&& transferred_all(s2, c1, s3, c2)
            &&& processed(c2, c3, None)
        }
}

/// A round from `c0` and `s0` stopped at its first failing step, with
/// client `cf` and server `sf` as that step left them and `err` as what the
/// round returned.
pub open spec fn round_failed(
    c0: rustls::Connection,
    s0: rustls::Connection,
    cf: rustls::Connection,
    sf: rustls::Connection,
    err: HandshakeError,
) -> bool {
    match err {
        HandshakeError::Transfer(_) => {
            ||| transfer_refused(c0, s0, cf, sf)
            ||| exists|c1: rustls::Connection, s1: rustls::Connection, s2: rustls::Connection|
                #![trigger transferred_all(c0, s0, c1, s1), transfer_refused(s2, c1, sf, cf)]
                {
                    &&& transferred_all(c0, s0, c1, s1)
                    &&& processed(s1, s2, None)
                    &&& transfer_refused(s2, c1, sf, cf)
                }
        },
        HandshakeError::Tls(e) => {
            ||| exists|s1: rustls::Connection|
                #![trigger transferred_all(c0, s0, cf, s1)]
                {
                    &&& transferred_all(c0, s0, cf, s1)
                    &&& processed(s1, sf, Some(e))
                }
            ||| exists|
                c1: rustls::Connection,
                s1: rustls::Connection,
                s2: rustls::Connection,
                c2: rustls::Connection,
            |
                #![trigger transferred_all(c0, s0, c1, s1), transferred_all(s2, c1, sf, c2)]
                {
                    &&& transferred_all(c0, s0, c1, s1)
                    &&& processed(s1, s2, None)
                    &&& transferred_all(s2, c1, sf, c2)
                    &&& processed(c2, cf, Some(e))
                }
        },
        HandshakeError::RoundLimit => false,
    }
}

/// Round `i` of the trace `cs`, `ss` (clients and servers, state by state)
/// was a whole round begun while a side was still handshaking.
pub open spec fn round_at(cs: Seq<rustls::Connection>, ss: Seq<rustls::Connection>, i: int) -> bool {
    &&& handshaking(cs[i]) || handshaking(ss[i])
    &&& round_completed(cs[i], ss[i], cs[i + 1], ss[i + 1])
}

/// `cs` and `ss` are the client and server states before and after each of
/// a run of whole rounds.
pub open spec fn is_round_trace(cs: Seq<rustls::Connection>, ss: Seq<rustls::Connection>) -> bool {
    &&& cs.len() == ss.len()
    &&& cs.len() >= 1
    &&& forall|i: int| 0 <= i < cs.len() - 1 ==> #[trigger] round_at(cs, ss, i)
}

/// `n` whole rounds, each begun while a side was still handshaking, took
/// client `c0` and server `s0` to client `c1` and server `s1`.
pub open spec fn ran_rounds(
    c0: rustls::Connection,
    s0: rustls::Connection,
    c1: rustls::Connection,
    s1: rustls::Connection,
    n: nat,
) -> bool {
    exists|cs: Seq<rustls::Connection>, ss: Seq<rustls::Connection>|
        {
            &&& #[trigger] is_round_trace(cs, ss)
            &&& cs.len() == n + 1
            &&& cs[0] == c0
            &&& ss[0] == s0
            &&& cs[n as int] == c1
            &&& ss[n as int] == s1
        }
}

/// Why a round or a handshake stopped before both sides finished.
#[derive(Debug)]
pub enum HandshakeError {
    /// A receiver had no room for the bytes sent to it.
    Transfer(TransferError),
    /// A connection failed to process what it received.
    Tls(rustls::Error),
    /// Both sides were still handshaking after `usize::MAX` whole rounds.
    RoundLimit,
}

/// The error of a processing step's outcome, if it failed.
pub fn processing_error(outcome: Result<rustls::IoState, rustls::Error>) -> (e: Option<
    rustls::Error,
>)
    ensures
        match outcome {
            Ok(_) => e is None,
            Err(x) => e == Some(x),
        },
{
    match outcome {
        Ok(_) => None,
        Err(x) => Some(x),
    }
}

/// One round: client to server, the server processes, server to client, the
/// client processes; it stops at the first step that fails.
pub fn handshake_round(client: &mut rustls::Connection, server: &mut rustls::Connection) -> (res:
    Result<(), HandshakeError>)
    ensures
        res is Ok ==> round_completed(*old(client), *old(server), *final(client), *final(server)),
        res matches Err(e) ==> round_failed(
            *old(client),
            *old(server),
            *final(client),
            *final(server),
            e,
        ),
{
    let ghost c0 = *client;
    let ghost s0 = *server;
    if let Err(e) = transfer(client, server) {
        return Err(HandshakeError::Transfer(e));
    }
    let ghost c1 = *client;
    let ghost s1 = *server;
    assert(transferred_all(c0, s0, c1, s1));
    let outcome = process_new_packets(server);
    if let Some(e) = processing_error(outcome) {
        assert(processed(s1, *server, Some(e)));
        return Err(HandshakeError::Tls(e));
    }
    let ghost s2 = *server;
    assert(processed(s1, s2, None));
    if let Err(e) = transfer(server, client) {
        assert(transfer_refused(s2, c1, *server, *client));
        return Err(HandshakeError::Transfer(e));
    }
    let ghost s3 = *server;
    let ghost c2 = *client;
    assert(transferred_all(s2, c1, s3, c2));
    let outcome = process_new_packets(client);
    if let Some(e) = processing_error(outcome) {
        assert(processed(c2, *client, Some(e)));
        return Err(HandshakeError::Tls(e));
    }
    assert(processed(c2, *client, None));
    Ok(())
}

/// Runs rounds until neither connection is handshaking, or until a round
/// fails.
pub fn do_handshake_until_error(
    client: &mut rustls::Connection,
    server: &mut rustls::Connection,
) -> (res: Result<(), HandshakeError>)
    ensures
        res is Ok ==> {
            &&& !handshaking(*final(client))
            &&& !handshaking(*final(server))
            &&& exists|n: nat|
                #[trigger] ran_rounds(*old(client), *old(server), *final(client), *final(server), n)
        },
        !handshaking(*old(client)) && !handshaking(*old(server)) ==> {
            &&& res is Ok
            &&& *final(client) == *old(client)
            &&& *final(server) == *old(server)
        },
        res matches Err(HandshakeError::RoundLimit) ==> {
            &&& ran_rounds(
                *old(client),
                *old(server),
                *final(client),
                *final(server),
                usize::MAX as nat,
            )
            &&& handshaking(*final(client)) || handshaking(*final(server))
        },
        res matches Err(e) ==> e is RoundLimit || exists|
            n: nat,
            cm: rustls::Connection,
            sm: rustls::Connection,
        |
            {
                &&& #[trigger] ran_rounds(*old(client), *old(server), cm, sm, n)
                &&& handshaking(cm) || handshaking(sm)
                &&& round_failed(cm, sm, *final(client), *final(server), e)
            },
{
    let ghost c0 = *client;
    let ghost s0 = *server;
    let ghost mut cs: Seq<rustls::Connection> = seq![c0];
    let ghost mut ss: Seq<rustls::Connection> = seq![s0];
    let mut rounds: usize = 0;
    while is_handshaking(server) || is_handshaking(client)
        invariant
            c0 == *old(client),
            s0 == *old(server),
            is_round_trace(cs, ss),
            cs.len() == rounds + 1,
            cs[0] == c0,
            ss[0] == s0,
            cs[rounds as int] == *client,
            ss[rounds as int] == *server,
            !handshaking(c0) && !handshaking(s0) ==> rounds == 0,
        decreases usize::MAX - rounds,
    {
        if rounds == usize::MAX {
            assert(ran_rounds(c0, s0, *client, *server, rounds as nat));
            return Err(HandshakeError::RoundLimit);
        }
        let ghost cm = *client;
        let ghost sm = *server;
        match handshake_round(client, server) {
            Ok(()) => {},
            Err(e) => {
                assert(ran_rounds(c0, s0, cm, sm, rounds as nat));
                return Err(e);
            },
        }
        proof {
            let cs2 = cs.push(*client);
            let ss2 = ss.push(*server);
            assert forall|i: int| 0 <= i < cs2.len() - 1 implies #[trigger] round_at(cs2, ss2, i) by {
                if i < cs.len() - 1 {
                    assert(round_at(cs, ss, i));
                    assert(cs2[i] == cs[i] && cs2[i + 1] == cs[i + 1]);
                    assert(ss2[i] == ss[i] && ss2[i + 1] == ss[i + 1]);
                } else {
                    assert(cs2[i] == cm && ss2[i] == sm);
                }
            }
            cs = cs2;
            ss = ss2;
        }
        rounds = rounds + 1;
    }
    assert(ran_rounds(c0, s0, *client, *server, rounds as nat));
    Ok(())
}

} // verus!
