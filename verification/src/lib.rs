//! Driving in-memory TLS connections of `rustls` through the handshake,
//! checking a server's certificate chain, and building root stores.

mod conn_specs;
pub mod handshake;
pub mod roots;
pub mod server_name;
pub mod transfer;
pub mod verify;

pub use roots::{
    all_parse, anchors_of, build_root_store, trust_anchor_of_der, trust_anchors, AnchorView,
    RootStoreError,
};
pub use conn_specs::{
    handshaking, holds_whole_record, tls_failed, tls_pending, tls_plaintext, tls_received, tls_room,
    MESSAGE_BUFFER_LEN, RECEIVED_PLAINTEXT_LIMIT,
};
pub use server_name::{dns_name, server_name_of, try_dns_name};
pub use handshake::{
    do_handshake_until_error, handshake_round, is_round_trace, processed, processing_error,
    ran_rounds, round_at, round_completed, round_failed, transfer_refused, transferred_all, HandshakeError,
};
pub use transfer::{
    completed_transfer_delivers_all, transfer, transfer_state, transfers_compose, TransferError,
    TRANSFER_BUFFER_LEN,
};
pub use verify::{verify_server, webpki_accepts, VerifyError, MAX_NOW_SECS};
