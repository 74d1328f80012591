//! Signing material: immutable snapshots of a private key with its
//! certificate chain and revocation material, and the slot through which the
//! current snapshot is published to concurrent readers.

use vstd::prelude::*;
use std::sync::Arc;
use crossbeam_skiplist::SkipMap;
use crate::oid::copy_oid;

verus! {

/// Revocation material of one certificate of a chain, as the chain monitor
/// last observed it.
#[derive(Debug)]
pub enum MonitoredRevocationInfo {
    /// An encoded CRL covering the certificate.
    Crl { encoded: Vec<u8> },
    /// An encoded OCSP response for the certificate.
    OcspResponse { encoded: Vec<u8> },
    /// The certificate names no revocation service.
    NotDefinedInCertificate,
    /// The certificate names a revocation service but nothing was obtained.
    Missing,
}

/// Revocation material that goes into a time-stamp token.
#[derive(Debug)]
pub enum RevocationInfoVariant {
    /// An encoded CRL.
    Crl { encoded: Vec<u8> },
    /// An encoded OCSP response.
    OcspResponse { encoded: Vec<u8> },
}

/// Revocation material as mathematical values.
pub enum RevocationView {
    Crl(Seq<u8>),
    Ocsp(Seq<u8>),
    NotDefined,
    Missing,
}

impl View for MonitoredRevocationInfo {
    type V = RevocationView;

    open spec fn view(&self) -> RevocationView {
        match self {
            MonitoredRevocationInfo::Crl { encoded } => RevocationView::Crl(encoded@),
            MonitoredRevocationInfo::OcspResponse { encoded } => RevocationView::Ocsp(encoded@),
            MonitoredRevocationInfo::NotDefinedInCertificate => RevocationView::NotDefined,
            MonitoredRevocationInfo::Missing => RevocationView::Missing,
        }
    }
}

impl View for RevocationInfoVariant {
    type V = RevocationView;

    open spec fn view(&self) -> RevocationView {
        match self {
            RevocationInfoVariant::Crl { encoded } => RevocationView::Crl(encoded@),
            RevocationInfoVariant::OcspResponse { encoded } => RevocationView::Ocsp(encoded@),
        }
    }
}

/// The revocation material that a token carries for a chain's monitored
/// material: CRLs and OCSP responses in chain order, certificates without a
/// revocation service skipped; `None` when any certificate's material is
/// missing.
pub open spec fn token_revocation_of(s: Seq<RevocationView>) -> Option<Seq<RevocationView>>
    decreases s.len(),
{
    if s.len() == 0 {
        Some(Seq::empty())
    } else {
        match token_revocation_of(s.drop_last()) {
            None => None,
            Some(acc) => match s.last() {
                RevocationView::Missing => None,
                RevocationView::NotDefined => Some(acc),
                other => Some(acc.push(other)),
            },
        }
    }
}

/// Encoded certificates as byte sequences.
pub open spec fn chain_view(v: Seq<Vec<u8>>) -> Seq<Seq<u8>> {
    v.map_values(|c: Vec<u8>| c@)
}

pub open spec fn revocation_views(v: Seq<MonitoredRevocationInfo>) -> Seq<RevocationView> {
    v.map_values(|r: MonitoredRevocationInfo| r@)
}

pub open spec fn variant_views(v: Seq<RevocationInfoVariant>) -> Seq<RevocationView> {
    v.map_values(|r: RevocationInfoVariant| r@)
}

/// An immutable signing snapshot: digest and signature algorithm, private
/// key, certificate chain (leaf first) with the leaf's validity period, and
/// one piece of revocation material per certificate of the chain.
pub struct SigningInfoSnapshot {
    digest_algorithm_oid: Vec<u32>,
    signing_algorithm_oid: Vec<u32>,
    private_key: Vec<u8>,
    certificate_chain: Vec<Vec<u8>>,
    revocation_info: Vec<MonitoredRevocationInfo>,
    leaf_not_before: u64,
    leaf_not_after: u64,
}

impl SigningInfoSnapshot {
    #[verifier::type_invariant]
    spec fn well_formed(self) -> bool {
        &&& self.certificate_chain.len() >= 1
        &&& self.revocation_info.len() == self.certificate_chain.len()
    }

    pub closed spec fn spec_digest_algorithm_oid(&self) -> Seq<u32> {
        self.digest_algorithm_oid@
    }

    pub closed spec fn spec_signing_algorithm_oid(&self) -> Seq<u32> {
        self.signing_algorithm_oid@
    }

    pub closed spec fn spec_private_key(&self) -> Seq<u8> {
        self.private_key@
    }

    pub closed spec fn spec_certificate_chain(&self) -> Seq<Seq<u8>> {
        chain_view(self.certificate_chain@)
    }

    pub closed spec fn spec_revocation_info(&self) -> Seq<RevocationView> {
        revocation_views(self.revocation_info@)
    }

    pub closed spec fn spec_leaf_not_before(&self) -> u64 {
        self.leaf_not_before
    }

    pub closed spec fn spec_leaf_not_after(&self) -> u64 {
        self.leaf_not_after
    }

    /// A snapshot of the given material, or `None` when the chain is empty or
    /// the revocation material does not come one per certificate.
    pub fn new(
        digest_algorithm_oid: Vec<u32>,
        signing_algorithm_oid: Vec<u32>,
        private_key: Vec<u8>,
        certificate_chain: Vec<Vec<u8>>,
        revocation_info: Vec<MonitoredRevocationInfo>,
        leaf_not_before: u64,
        leaf_not_after: u64,
    ) -> (r: Option<Self>)
        ensures
            r is Some <==> (certificate_chain.len() >= 1 && revocation_info.len()
                == certificate_chain.len()),
            r matches Some(s) ==> {
                &&& s.spec_digest_algorithm_oid() == digest_algorithm_oid@
                &&& s.spec_signing_algorithm_oid() == signing_algorithm_oid@
                &&& s.spec_private_key() == private_key@
                &&& s.spec_certificate_chain() == chain_view(certificate_chain@)
                &&& s.spec_revocation_info() == revocation_views(revocation_info@)
                &&& s.spec_leaf_not_before() == leaf_not_before
                &&& s.spec_leaf_not_after() == leaf_not_after
            },
    {
        if certificate_chain.len() >= 1 && revocation_info.len() == certificate_chain.len() {
            Some(
                SigningInfoSnapshot {
                    digest_algorithm_oid,
                    signing_algorithm_oid,
                    private_key,
                    certificate_chain,
                    revocation_info,
                    leaf_not_before,
                    leaf_not_after,
                },
            )
        } else {
            None
        }
    }

    /// Whether the leaf certificate is within its validity period at the
    /// given time (seconds since the Unix epoch, bounds included).
    pub fn is_valid_at(&self, epoch_seconds: u64) -> (r: bool)
        ensures
            r == (self.spec_leaf_not_before() <= epoch_seconds <= self.spec_leaf_not_after()),
    {
        self.leaf_not_before <= epoch_seconds && epoch_seconds <= self.leaf_not_after
    }

    /// The number of certificates in the chain. Whatever snapshot a reader
    /// holds, its chain has at least one certificate and exactly one piece of
    /// revocation material per certificate.
    pub fn chain_len(&self) -> (r: usize)
        ensures
            r == self.spec_certificate_chain().len(),
            r >= 1,
            r == self.spec_revocation_info().len(),
    {
        proof {
            use_type_invariant(self);
        }
        self.certificate_chain.len()
    }

    /// A signer made of this snapshot alone, or `None` when the revocation
    /// material of any certificate is missing.
    pub fn signer(&self) -> (r: Option<TimeStampTokenSigner>)
        ensures
            r is Some <==> token_revocation_of(self.spec_revocation_info()) is Some,
            r matches Some(t) ==> signer_matches_snapshot(t, *self),
    {
        proof {
            use_type_invariant(self);
        }
        let mut revocation_infos: Vec<RevocationInfoVariant> = Vec::new();
        let n = self.revocation_info.len();
        let mut i: usize = 0;
        while i < n
            invariant
                0 <= i <= n,
                n == self.revocation_info.len(),
                token_revocation_of(revocation_views(self.revocation_info@.take(i as int)))
                    == Some(variant_views(revocation_infos@)),
            decreases n - i,
        {
            let ghost before = revocation_views(self.revocation_info@.take(i as int));
            proof {
                assert(revocation_views(self.revocation_info@.take(i + 1)).drop_last() =~= before);
                assert(revocation_views(self.revocation_info@.take(i + 1)).last()
                    == self.revocation_info@[i as int]@);
            }
            match &self.revocation_info[i] {
                MonitoredRevocationInfo::Crl { encoded } => {
                    revocation_infos.push(RevocationInfoVariant::Crl { encoded: copy_bytes(encoded) });
                    proof {
                        assert(variant_views(revocation_infos@) =~= variant_views(
                            revocation_infos@.drop_last(),
                        ).push(self.revocation_info@[i as int]@));
                    }
                },
                MonitoredRevocationInfo::OcspResponse { encoded } => {
                    revocation_infos.push(
                        RevocationInfoVariant::OcspResponse { encoded: copy_bytes(encoded) },
                    );
                    proof {
                        assert(variant_views(revocation_infos@) =~= variant_views(
                            revocation_infos@.drop_last(),
                        ).push(self.revocation_info@[i as int]@));
                    }
                },
                MonitoredRevocationInfo::NotDefinedInCertificate => {},
                MonitoredRevocationInfo::Missing => {
                    proof {
                        lemma_missing_stays_missing(
                            revocation_views(self.revocation_info@),
                            (i + 1) as nat,
                        );
                        assert(revocation_views(self.revocation_info@).take(i + 1)
                            =~= revocation_views(self.revocation_info@.take(i + 1)));
                        assert(revocation_views(self.revocation_info@).take(n as int)
                            =~= revocation_views(self.revocation_info@));
                    }
                    return None;
                },
            }
            i = i + 1;
        }
        proof {
            assert(self.revocation_info@.take(n as int) =~= self.revocation_info@);
        }
        Some(
            TimeStampTokenSigner {
                digest_algorithm_oid: copy_oid(&self.digest_algorithm_oid),
                signature_algorithm_oid: copy_oid(&self.signing_algorithm_oid),
                private_key: copy_bytes(&self.private_key),
                certificate_chain: copy_chain(&self.certificate_chain),
                revocation_infos,
            },
        )
    }
}

/// Once a prefix has missing material, every longer prefix has too.
proof fn lemma_missing_stays_missing(s: Seq<RevocationView>, k: nat)
    requires
        k <= s.len(),
        token_revocation_of(s.take(k as int)) is None,
    ensures
        token_revocation_of(s) is None,
    decreases s.len() - k,
{
    if k < s.len() {
        assert(s.take((k + 1) as int).drop_last() =~= s.take(k as int));
        lemma_missing_stays_missing(s, k + 1);
    } else {
        assert(s.take(k as int) =~= s);
    }
}

/// Everything a time-stamp token is signed with, taken from one snapshot.
pub struct TimeStampTokenSigner {
    pub digest_algorithm_oid: Vec<u32>,
    pub signature_algorithm_oid: Vec<u32>,
    pub private_key: Vec<u8>,
    /// Encoded certificates, leaf first.
    pub certificate_chain: Vec<Vec<u8>>,
    pub revocation_infos: Vec<RevocationInfoVariant>,
}

/// Every part of the signer comes from the one snapshot: algorithms, key,
/// chain, and the revocation material of that same chain.
pub open spec fn signer_matches_snapshot(t: TimeStampTokenSigner, s: SigningInfoSnapshot) -> bool {
    &&& t.digest_algorithm_oid@ == s.spec_digest_algorithm_oid()
    &&& t.signature_algorithm_oid@ == s.spec_signing_algorithm_oid()
    &&& t.private_key@ == s.spec_private_key()
    &&& chain_view(t.certificate_chain@) == s.spec_certificate_chain()
    &&& token_revocation_of(s.spec_revocation_info()) == Some(variant_views(t.revocation_infos@))
}

/// A copy of a byte string.
pub(crate) fn copy_bytes(v: &Vec<u8>) -> (r: Vec<u8>)
    ensures
        r@ == v@,
{
    let mut r: Vec<u8> = Vec::new();
    let mut i: usize = 0;
    while i < v.len()
        invariant
            0 <= i <= v.len(),
            r@ == v@.take(i as int),
        decreases v.len() - i,
    {
        r.push(v[i]);
        i = i + 1;
        proof {
            assert(r@ =~= v@.take(i as int));
        }
    }
    proof {
        assert(v@.take(v.len() as int) =~= v@);
    }
    r
}

fn copy_chain(v: &Vec<Vec<u8>>) -> (r: Vec<Vec<u8>>)
    ensures
        chain_view(r@) == chain_view(v@),
{
    let mut r: Vec<Vec<u8>> = Vec::new();
    let mut i: usize = 0;
    while i < v.len()
        invariant
            0 <= i <= v.len(),
            chain_view(r@) == chain_view(v@).take(i as int),
        decreases v.len() - i,
    {
        let ghost prev = r@;
        let c = copy_bytes(&v[i]);
        r.push(c);
        proof {
            assert(r@ == prev.push(c));
            assert(chain_view(r@) =~= chain_view(prev).push(c@));
            assert(chain_view(v@).take(i + 1) =~= chain_view(v@).take(i as int).push(v@[i as int]@));
        }
        i = i + 1;
    }
    proof {
        assert(chain_view(v@).take(v.len() as int) =~= chain_view(v@));
    }
    r
}


#[verifier::external_type_specification]
#[verifier::external_body]
#[verifier::reject_recursive_types(K)]
#[verifier::reject_recursive_types(V)]
pub struct ExSkipMap<K, V>(SkipMap<K, V>);

/// Relies on crossbeam_skiplist::SkipMap::new: an empty map.
///
/// The map is written through shared references by concurrent tasks, so no
/// contract here names its contents: a reader learns only what every
/// snapshot satisfies.
#[verifier::external_body]
fn slot_new() -> SkipMap<(), Arc<SigningInfoSnapshot>> {
    SkipMap::new()
}

/// Relies on crossbeam_skiplist::SkipMap::front: the entry of the single key,
/// if any, whose value is shared with the caller.
#[verifier::external_body]
fn slot_front(slot: &SkipMap<(), Arc<SigningInfoSnapshot>>) -> Option<Arc<SigningInfoSnapshot>> {
    slot.front().map(|entry| Arc::clone(entry.value()))
}

/// Relies on crossbeam_skiplist::SkipMap::insert: replaces the entry of the
/// single key in one step, so readers see the old or the new value whole.
#[verifier::external_body]
fn slot_insert(slot: &SkipMap<(), Arc<SigningInfoSnapshot>>, value: Arc<SigningInfoSnapshot>) {
    slot.insert((), value);
}

/// Maintains the current signing snapshot for concurrent readers.
///
/// The rotation task publishes a new snapshot whenever the leaf certificate
/// expires or a certificate of the chain is revoked; each request reads the
/// snapshot once and keeps it for its whole duration.
pub struct TimeStampTokenSigningInfo {
    current_signing_info: SkipMap<(), Arc<SigningInfoSnapshot>>,
    certificate_signature_algo_oid: Vec<u32>,
    supported_digest_algorithm_oid: Vec<u32>,
}

impl TimeStampTokenSigningInfo {
    pub closed spec fn spec_signature_algorithm_oid(&self) -> Seq<u32> {
        self.certificate_signature_algo_oid@
    }

    pub closed spec fn spec_digest_algorithm_oid(&self) -> Seq<u32> {
        self.supported_digest_algorithm_oid@
    }

    /// A manager for the given signature and digest algorithms, with no
    /// snapshot published yet.
    pub fn new(signature_algorithm_oid: Vec<u32>, digest_algorithm_oid: Vec<u32>) -> (r: Self)
        ensures
            r.spec_signature_algorithm_oid() == signature_algorithm_oid@,
            r.spec_digest_algorithm_oid() == digest_algorithm_oid@,
    {
        TimeStampTokenSigningInfo {
            current_signing_info: slot_new(),
            certificate_signature_algo_oid: signature_algorithm_oid,
            supported_digest_algorithm_oid: digest_algorithm_oid,
        }
    }

    /// The signature algorithm that enrolled keys must have.
    pub fn signature_algorithm_oid(&self) -> (r: &Vec<u32>)
        ensures
            r@ == self.spec_signature_algorithm_oid(),
    {
        &self.certificate_signature_algo_oid
    }

    /// A snapshot of freshly enrolled material under this manager's
    /// algorithms, or `None` when the chain is empty or the revocation
    /// material does not come one per certificate.
    pub fn snapshot_of(
        &self,
        private_key: Vec<u8>,
        certificate_chain: Vec<Vec<u8>>,
        revocation_info: Vec<MonitoredRevocationInfo>,
        leaf_not_before: u64,
        leaf_not_after: u64,
    ) -> (r: Option<SigningInfoSnapshot>)
        ensures
            r is Some <==> (certificate_chain.len() >= 1 && revocation_info.len()
                == certificate_chain.len()),
            r matches Some(s) ==> {
                &&& s.spec_digest_algorithm_oid() == self.spec_digest_algorithm_oid()
                &&& s.spec_signing_algorithm_oid() == self.spec_signature_algorithm_oid()
                &&& s.spec_private_key() == private_key@
                &&& s.spec_certificate_chain() == chain_view(certificate_chain@)
                &&& s.spec_revocation_info() == revocation_views(revocation_info@)
                &&& s.spec_leaf_not_before() == leaf_not_before
                &&& s.spec_leaf_not_after() == leaf_not_after
            },
    {
        SigningInfoSnapshot::new(
            copy_oid(&self.supported_digest_algorithm_oid),
            copy_oid(&self.certificate_signature_algo_oid),
            private_key,
            certificate_chain,
            revocation_info,
            leaf_not_before,
            leaf_not_after,
        )
    }

    /// The current snapshot, if one was published. The reader keeps it for
    /// as long as it needs it, whatever is published meanwhile.
    pub fn get_current_signing_info(&self) -> (r: Option<Arc<SigningInfoSnapshot>>) {
        slot_front(&self.current_signing_info)
    }

    /// Publishes a snapshot in place of the current one, and returns the one
    /// it replaced, as far as this call saw it, so that the caller can stop
    /// monitoring its chain after the new one is published.
    pub fn set_current_signing_info(&self, csi: Arc<SigningInfoSnapshot>) -> (r: Option<
        Arc<SigningInfoSnapshot>,
    >) {
        let previous = slot_front(&self.current_signing_info);
        slot_insert(&self.current_signing_info, csi);
        previous
    }

    /// Whether a snapshot is published whose leaf certificate is valid at the
    /// given time (seconds since the Unix epoch).
    pub fn valid_signing_info_available(&self, now_epoch_seconds: u64) -> (r: bool) {
        match slot_front(&self.current_signing_info) {
            Some(csi) => csi.is_valid_at(now_epoch_seconds),
            None => false,
        }
    }

    /// A signer made of the current snapshot alone, or `None` when none is
    /// published or its revocation material is missing for any certificate.
    pub fn get_dynamic_singing_info(&self) -> (r: Option<TimeStampTokenSigner>)
        ensures
            r matches Some(t) ==> t.certificate_chain@.len() >= 1 && exists|s: SigningInfoSnapshot|
                signer_matches_snapshot(t, s),
    {
        match slot_front(&self.current_signing_info) {
            Some(csi) => {
                let s: &SigningInfoSnapshot = &*csi;
                let _n = s.chain_len();
                let r = s.signer();
                proof {
                    if r is Some {
                        assert(signer_matches_snapshot(r->0, *s));
                        assert(chain_view(r->0.certificate_chain@).len()
                            == r->0.certificate_chain@.len());
                    }
                }
                r
            },
            None => None,
        }
    }
}

} // verus!
