//! Root certificate stores built from DER-encoded certificates.

use vstd::prelude::*;

verus! {

#[verifier::external_type_specification]
#[verifier::external_body]
pub struct ExRootCertStore(rustls::RootCertStore);

#[verifier::external_type_specification]
#[verifier::external_body]
pub struct ExWebpkiError(webpki::Error);

/// A trust anchor as plain bytes: the subject (DER, without its outer
/// SEQUENCE), the SubjectPublicKeyInfo (DER), and the name constraints
/// extension (DER) when the certificate has one.
pub type AnchorView = (Seq<u8>, Seq<u8>, Option<Seq<u8>>);

/// The trust anchors that `store` holds (its `roots` field), in order.
pub uninterp spec fn trust_anchors(store: rustls::RootCertStore) -> Seq<AnchorView>;

/// The trust anchor that `RootCertStore::add` extracts from the certificate
/// `der` (through `webpki::TrustAnchor::try_from_cert_der`), or `None` when
/// that parse fails.
pub uninterp spec fn trust_anchor_of_der(der: Seq<u8>) -> Option<AnchorView>;

/// Every certificate in `ders` yields a trust anchor.
pub open spec fn all_parse(ders: Seq<Seq<u8>>) -> bool {
    forall|i: int| 0 <= i < ders.len() ==> (#[trigger] trust_anchor_of_der(ders[i])) is Some
}

/// The trust anchors of the certificates `ders`, in order.
pub open spec fn anchors_of(ders: Seq<Seq<u8>>) -> Seq<AnchorView> {
    ders.map_values(|der: Seq<u8>| trust_anchor_of_der(der)->Some_0)
}

/// `RootCertStore::empty`: a store with no roots.
#[verifier::external_body]
pub(crate) fn empty_root_store() -> (store: rustls::RootCertStore)
    ensures
        trust_anchors(store) == Seq::<AnchorView>::empty(),
{
    rustls::RootCertStore::empty()
}

/// `RootCertStore::add` of the certificate `der`: when a trust anchor can be
/// extracted from it, rustls appends that anchor to `roots` and succeeds;
/// otherwise it fails and leaves the store as it was.
#[verifier::external_body]
pub(crate) fn add_root(store: &mut rustls::RootCertStore, der: &Vec<u8>) -> (r: Result<
    (),
    webpki::Error,
>)
    ensures
        match trust_anchor_of_der(der@) {
            Some(anchor) => r is Ok && trust_anchors(*final(store)) == trust_anchors(
                *old(store),
            ).push(anchor),
            None => r is Err && trust_anchors(*final(store)) == trust_anchors(*old(store)),
        },
{
    store.add(&rustls::Certificate(der.clone()))
}

/// The certificate at `index` could not be added to the store.
#[derive(Debug)]
pub struct RootStoreError {
    pub index: usize,
    pub error: webpki::Error,
}

/// Adds the certificates `certs`, in order, to an empty root store, and stops
/// at the first one that does not yield a trust anchor.
pub fn build_root_store(certs: &Vec<Vec<u8>>) -> (res: Result<
    rustls::RootCertStore,
    RootStoreError,
>)
    ensures
        res is Ok <==> all_parse(certs.deep_view()),
        match res {
            Ok(store) => {
                &&& all_parse(certs.deep_view())
                &&& trust_anchors(store) == anchors_of(certs.deep_view())
            },
            Err(e) => {
                &&& e.index < certs.len()
                &&& trust_anchor_of_der(certs.deep_view()[e.index as int]) is None
                &&& all_parse(certs.deep_view().take(e.index as int))
            },
        },
{
    let mut store = empty_root_store();
    let mut i: usize = 0;
    while i < certs.len()
        invariant
            i <= certs.len(),
            all_parse(certs.deep_view().take(i as int)),
            trust_anchors(store) == anchors_of(certs.deep_view().take(i as int)),
        decreases certs.len() - i,
    {
        let ghost ders = certs.deep_view();
        assert(ders[i as int] == certs@[i as int]@);
        match add_root(&mut store, &certs[i]) {
            Ok(()) => {},
            Err(error) => {
                return Err(RootStoreError { index: i, error });
            },
        }
        proof {
            assert(ders.take(i + 1).drop_last() =~= ders.take(i as int));
            assert(anchors_of(ders.take(i + 1)) =~= anchors_of(ders.take(i as int)).push(
                trust_anchor_of_der(ders[i as int])->Some_0,
            ));
            assert forall|j: int| 0 <= j < i + 1 implies (#[trigger] trust_anchor_of_der(
                ders.take(i + 1)[j],
            )) is Some by {
                if j < i {
                    assert(ders.take(i + 1)[j] == ders.take(i as int)[j]);
                }
            }
        }
        i = i + 1;
    }
    assert(certs.deep_view().take(i as int) =~= certs.deep_view());
    Ok(store)
}

} // verus!
