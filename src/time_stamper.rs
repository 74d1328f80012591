//! The time-stamp response engine: admission of parsed requests, time
//! sourcing, and the content of the token that answers them.

use vstd::prelude::*;
use std::sync::Arc;
use crate::oid::copy_oid;
use crate::oid::oid_in;
use crate::oid::oids_view;
use crate::ntp_sample::NtpSample;
use crate::signing_info::SigningInfoSnapshot;
use crate::signing_info::TimeStampTokenSigner;
use crate::signing_info::copy_bytes;
use crate::signing_info::TimeStampTokenSigningInfo;
use crate::signing_info::signer_matches_snapshot;
use crate::signing_info::token_revocation_of;
use crate::time_keeper::TimeKeeper;
use crate::time_keeper::keeper_time_of;
use crate::conf::AppConfig;
use crate::conf::default_policy_oid;

verus! {

/// Why a request was rejected.
#[derive(Clone, Copy, Debug, PartialEq, Eq, Structural)]
pub enum PkiFailureInfo {
    /// Unrecognized or unsupported algorithm.
    BadAlg,
    /// Transaction not permitted or supported.
    BadRequest,
    /// The data submitted has the wrong format.
    BadDataFormat,
    /// The time source is not available.
    TimeNotAvailable,
    /// The requested policy is not supported.
    UnacceptedPolicy,
    /// The requested extension is not supported.
    UnacceptedExtension,
    /// The additional information requested could not be understood.
    AddInfoNotAvailable,
    /// The request cannot be handled due to system failure.
    SystemFailure,
}

/// The status of a time-stamp response.
#[derive(Clone, Copy, Debug, PartialEq, Eq, Structural)]
pub enum PkiStatus {
    Granted,
    GrantedWithMods,
    Rejection,
    Waiting,
    RevocationWarning,
    RevocationNotification,
}

/// The hash of the data to be time-stamped, with its algorithm.
pub struct MessageImprint {
    /// Object identifier of the digest algorithm.
    pub hash_algorithm: Vec<u32>,
    /// The digest.
    pub hashed_message: Vec<u8>,
}

/// A parsed time-stamp request.
pub struct TimeStampReq {
    pub version: u32,
    pub message_imprint: MessageImprint,
    /// Requested policy, if any.
    pub req_policy: Option<Vec<u32>>,
    /// Nonce as the content octets of its integer encoding, if any.
    pub nonce: Option<Vec<u8>>,
    /// Whether the signer's certificates are asked for.
    pub cert_req: bool,
    /// Object identifiers of the request's critical extensions.
    pub critical_extension_oids: Vec<Vec<u32>>,
}

/// The content of a time-stamp token.
pub struct TstInfo {
    pub version: u32,
    pub policy: Vec<u32>,
    pub message_imprint: MessageImprint,
    /// Unique per token issued by one engine.
    pub serial_number: u128,
    /// Time of generation, microseconds since the Unix epoch.
    pub gen_time_micros: u64,
    pub accuracy_micros: u64,
    pub ordering: bool,
    pub nonce: Option<Vec<u8>>,
    /// Whether the signer's identity and certificates go with the token.
    pub with_signer_identity: bool,
}

/// A token: its content and what it is to be signed with.
pub struct TimeStampToken {
    pub tst_info: TstInfo,
    pub signer: TimeStampTokenSigner,
}

/// A time-stamp response: a status, why it failed, or the token.
pub struct TimeStampResp {
    pub status: PkiStatus,
    pub failure_info: Option<PkiFailureInfo>,
    pub time_stamp_token: Option<TimeStampToken>,
}

/// A request as mathematical values.
pub struct TimeStampReqView {
    pub hash_algorithm: Seq<u32>,
    pub hashed_message: Seq<u8>,
    pub req_policy: Option<Seq<u32>>,
    pub nonce: Option<Seq<u8>>,
    pub cert_req: bool,
    pub critical_extension_oids: Seq<Seq<u32>>,
}

pub open spec fn opt_oid_view(o: Option<Vec<u32>>) -> Option<Seq<u32>> {
    match o {
        Some(v) => Some(v@),
        None => None,
    }
}

pub open spec fn opt_bytes_view(o: Option<Vec<u8>>) -> Option<Seq<u8>> {
    match o {
        Some(v) => Some(v@),
        None => None,
    }
}

impl View for TimeStampReq {
    type V = TimeStampReqView;

    open spec fn view(&self) -> TimeStampReqView {
        TimeStampReqView {
            hash_algorithm: self.message_imprint.hash_algorithm@,
            hashed_message: self.message_imprint.hashed_message@,
            req_policy: opt_oid_view(self.req_policy),
            nonce: opt_bytes_view(self.nonce),
            cert_req: self.cert_req,
            critical_extension_oids: oids_view(self.critical_extension_oids@),
        }
    }
}

/// The policy `anyPolicy`, 2.5.29.32.0.
pub open spec fn any_policy() -> Seq<u32> {
    seq![2u32, 5, 29, 32, 0]
}

/// The policy a token gets: the requested one when the allow-list is empty
/// or holds it, else a rejection; without a requested policy the first
/// allowed one, or `anyPolicy` when none is configured.
pub open spec fn policy_of(req: TimeStampReqView, allowed_policies: Seq<Seq<u32>>) -> Result<
    Seq<u32>,
    PkiFailureInfo,
> {
    match req.req_policy {
        Some(p) => if allowed_policies.len() == 0 || allowed_policies.contains(p) {
            Ok(p)
        } else {
            Err(PkiFailureInfo::UnacceptedPolicy)
        },
        None => if allowed_policies.len() > 0 {
            Ok(allowed_policies[0])
        } else {
            Ok(any_policy())
        },
    }
}

/// The admission pipeline, in order: a known digest algorithm
/// (`digest_size_bits` is its output size, `None` when unknown), an imprint
/// of that size, a digest algorithm the allow-list admits (an empty list
/// admits any), an acceptable policy, and no critical extension. Gives the
/// policy of the token.
pub open spec fn admission_of(
    req: TimeStampReqView,
    allowed_digests: Seq<Seq<u32>>,
    allowed_policies: Seq<Seq<u32>>,
    digest_size_bits: Option<u32>,
) -> Result<Seq<u32>, PkiFailureInfo> {
    match digest_size_bits {
        None => Err(PkiFailureInfo::BadAlg),
        Some(bits) => if req.hashed_message.len() * 8 != bits {
            Err(PkiFailureInfo::BadDataFormat)
        } else if allowed_digests.len() > 0 && !allowed_digests.contains(req.hash_algorithm) {
            Err(PkiFailureInfo::BadAlg)
        } else {
            match policy_of(req, allowed_policies) {
                Err(e) => Err(e),
                Ok(p) => if req.critical_extension_oids.len() > 0 {
                    Err(PkiFailureInfo::UnacceptedExtension)
                } else {
                    Ok(p)
                },
            }
        },
    }
}

/// The serial number of the `issued`-th token of an engine seeded with
/// `seed`.
pub open spec fn serial_of(seed: u64, issued: u64) -> u128 {
    (seed as nat * 0x1_0000_0000_0000_0000 + issued as nat) as u128
}

/// The content of a granted token for a request.
pub open spec fn tst_info_matches(
    t: TstInfo,
    req: TimeStampReqView,
    policy: Seq<u32>,
    serial: u128,
    time: (u64, u64),
) -> bool {
    &&& t.version == 1
    &&& t.policy@ == policy
    &&& t.message_imprint.hash_algorithm@ == req.hash_algorithm
    &&& t.message_imprint.hashed_message@ == req.hashed_message
    &&& t.serial_number == serial
    &&& t.gen_time_micros == time.0
    &&& t.accuracy_micros == time.1
    &&& !t.ordering
    &&& opt_bytes_view(t.nonce) == req.nonce
    &&& t.with_signer_identity == req.cert_req
}

/// A rejection response.
pub open spec fn is_rejection(r: TimeStampResp, e: PkiFailureInfo) -> bool {
    &&& r.status == PkiStatus::Rejection
    &&& r.failure_info == Some(e)
    &&& r.time_stamp_token is None
}

/// An admitted request's token carries the requested policy when the request
/// names one (which the allow-list then admits, or the list is empty), and
/// otherwise the first configured policy, or `anyPolicy` when none is
/// configured.
pub proof fn lemma_admitted_policy(
    req: TimeStampReqView,
    allowed_digests: Seq<Seq<u32>>,
    allowed_policies: Seq<Seq<u32>>,
    digest_size_bits: Option<u32>,
)
    requires
        admission_of(req, allowed_digests, allowed_policies, digest_size_bits) is Ok,
    ensures
        ({
            let p = admission_of(req, allowed_digests, allowed_policies, digest_size_bits)->Ok_0;
            match req.req_policy {
                Some(q) => p == q && (allowed_policies.len() == 0 || allowed_policies.contains(q)),
                None => if allowed_policies.len() > 0 {
                    p == allowed_policies[0]
                } else {
                    p == any_policy()
                },
            }
        }),
{
}

impl TimeStampResp {
    /// A rejection with the given reason.
    pub fn with_rejection(failure_info: PkiFailureInfo) -> (r: Self)
        ensures
            is_rejection(r, failure_info),
    {
        TimeStampResp {
            status: PkiStatus::Rejection,
            failure_info: Some(failure_info),
            time_stamp_token: None,
        }
    }

    /// A granted response carrying the token.
    pub fn with_success(time_stamp_token: TimeStampToken) -> (r: Self)
        ensures
            r.status == PkiStatus::Granted,
            r.failure_info is None,
            r.time_stamp_token == Some(time_stamp_token),
    {
        TimeStampResp {
            status: PkiStatus::Granted,
            failure_info: None,
            time_stamp_token: Some(time_stamp_token),
        }
    }
}

/// Time-stamp engine: admission rules, time keeper, signing material and the
/// serial number counter.
pub struct TimeStamper {
    allowed_digest_oids: Vec<Vec<u32>>,
    allowed_policy_oids: Vec<Vec<u32>>,
    tst_signing_info: Arc<TimeStampTokenSigningInfo>,
    time_keeper: TimeKeeper,
    serial_seed: u64,
    issued: u64,
}

impl TimeStamper {
    pub closed spec fn spec_allowed_digest_oids(&self) -> Seq<Seq<u32>> {
        oids_view(self.allowed_digest_oids@)
    }

    pub closed spec fn spec_allowed_policy_oids(&self) -> Seq<Seq<u32>> {
        oids_view(self.allowed_policy_oids@)
    }

    pub closed spec fn spec_time_keeper(&self) -> TimeKeeper {
        self.time_keeper
    }

    pub closed spec fn spec_serial_seed(&self) -> u64 {
        self.serial_seed
    }

    pub closed spec fn spec_issued(&self) -> u64 {
        self.issued
    }

    /// An engine with the given allow-lists (empty: any), signing material
    /// manager and time keeper. Serial numbers start at `serial_seed * 2^64`.
    pub fn new(
        allowed_digest_oids: Vec<Vec<u32>>,
        allowed_policy_oids: Vec<Vec<u32>>,
        tst_signing_info: Arc<TimeStampTokenSigningInfo>,
        time_keeper: TimeKeeper,
        serial_seed: u64,
    ) -> (r: Self)
        ensures
            r.spec_allowed_digest_oids() == oids_view(allowed_digest_oids@),
            r.spec_allowed_policy_oids() == oids_view(allowed_policy_oids@),
            r.spec_time_keeper() == time_keeper,
            r.spec_serial_seed() == serial_seed,
            r.spec_issued() == 0,
    {
        TimeStamper {
            allowed_digest_oids,
            allowed_policy_oids,
            tst_signing_info,
            time_keeper,
            serial_seed,
            issued: 0,
        }
    }

    /// An engine set up from the application's configuration: any known
    /// digest algorithm, the configured policy as the only allowed one, and a
    /// time keeper with the configured time source.
    pub fn from_config(
        app_config: &AppConfig,
        tst_signing_info: Arc<TimeStampTokenSigningInfo>,
        serial_seed: u64,
    ) -> (r: Self)
        ensures
            r.spec_allowed_digest_oids().len() == 0,
            r.spec_allowed_policy_oids() == seq![
                match app_config.sign.spec_policy() {
                    Some(p) => p,
                    None => default_policy_oid(),
                },
            ],
            r.spec_time_keeper().spec_tolerable_accuracy_micros()
                == app_config.time.spec_tolerance(),
            r.spec_time_keeper().spec_clock().declared_accuracy_micros
                == app_config.time.spec_accuracy(),
            r.spec_time_keeper().spec_clock().worst_measured_accuracy_micros == 0,
            r.spec_time_keeper().spec_clock().max_drift_between_checks_micros == 0,
            r.spec_time_keeper().spec_clock().last_offset == 0,
            r.spec_time_keeper().spec_per_request() == (app_config.time.spec_always()
                && (app_config.time.spec_ntphost() is Some
                && app_config.time.spec_ntphost()->0@.len() > 0)),
            !r.spec_time_keeper().spec_within_tolerance(),
            r.spec_serial_seed() == serial_seed,
            r.spec_issued() == 0,
    {
        let time_keeper = TimeKeeper::new(
            app_config.time.ntp_host(),
            app_config.time.system_time_accuracy_micros(),
            app_config.time.tolerable_accuracy_micros(),
            app_config.time.ntp_query_for_every_request(),
        );
        let mut allowed_policy_oids: Vec<Vec<u32>> = Vec::new();
        allowed_policy_oids.push(app_config.sign.policy_oid());
        let allowed_digest_oids = app_config.sign.allowed_digest_oids();
        proof {
            assert(oids_view(allowed_policy_oids@) =~= seq![
                match app_config.sign.spec_policy() {
                    Some(p) => p,
                    None => default_policy_oid(),
                },
            ]);
            assert(oids_view(allowed_digest_oids@).len() == 0);
        }
        TimeStamper::new(
            allowed_digest_oids,
            allowed_policy_oids,
            tst_signing_info,
            time_keeper,
            serial_seed,
        )
    }

    /// The time keeper.
    pub fn time_keeper(&self) -> (r: &TimeKeeper)
        ensures
            *r == self.spec_time_keeper(),
    {
        &self.time_keeper
    }

    /// The time keeper, for the periodic NTP synchronization.
    pub fn time_keeper_mut(&mut self) -> (r: &mut TimeKeeper)
        ensures
            *r == old(self).spec_time_keeper(),
            final(self).spec_time_keeper() == *final(r),
            final(self).spec_allowed_digest_oids() == old(self).spec_allowed_digest_oids(),
            final(self).spec_allowed_policy_oids() == old(self).spec_allowed_policy_oids(),
            final(self).spec_serial_seed() == old(self).spec_serial_seed(),
            final(self).spec_issued() == old(self).spec_issued(),
    {
        &mut self.time_keeper
    }

    /// The signing material manager.
    pub fn signing_info(&self) -> (r: &Arc<TimeStampTokenSigningInfo>) {
        &self.tst_signing_info
    }

    /// Whether a signing snapshot with a valid leaf is published and the last
    /// time handed out was within tolerance.
    pub fn is_ready(&self, now_epoch_seconds: u64) -> (r: bool)
        ensures
            r ==> self.spec_time_keeper().spec_within_tolerance(),
    {
        let current = self.tst_signing_info.get_current_signing_info();
        match &current {
            Some(csi) => self.is_ready_with(Some(&**csi), now_epoch_seconds),
            None => self.is_ready_with(None, now_epoch_seconds),
        }
    }

    /// Readiness given the snapshot that is published: one whose leaf is
    /// valid now, and a last time handed out within tolerance.
    pub fn is_ready_with(&self, snapshot: Option<&SigningInfoSnapshot>, now_epoch_seconds: u64) -> (r: bool)
        ensures
            r == (self.spec_time_keeper().spec_within_tolerance() && match snapshot {
                Some(s) => s.spec_leaf_not_before() <= now_epoch_seconds
                    <= s.spec_leaf_not_after(),
                None => false,
            }),
    {
        let valid = match snapshot {
            Some(s) => s.is_valid_at(now_epoch_seconds),
            None => false,
        };
        valid && self.time_keeper.is_within_tolerance()
    }

    /// Runs the admission pipeline on a parsed request; `digest_size_bits`
    /// is the output size of the request's digest algorithm, `None` when the
    /// algorithm is unknown. Gives the policy the token will carry.
    pub fn admission(&self, req: &TimeStampReq, digest_size_bits: Option<u32>) -> (r: Result<
        Vec<u32>,
        PkiFailureInfo,
    >)
        ensures
            match (r, admission_of(
                req@,
                self.spec_allowed_digest_oids(),
                self.spec_allowed_policy_oids(),
                digest_size_bits,
            )) {
                (Ok(p), Ok(q)) => p@ == q,
                (Err(e), Err(f)) => e == f,
                _ => false,
            },
    {
        let bits = match digest_size_bits {
            None => {
                return Err(PkiFailureInfo::BadAlg);
            },
            Some(bits) => bits,
        };
        let imprint = &req.message_imprint;
        if imprint.hashed_message.len() as u128 * 8 != bits as u128 {
            return Err(PkiFailureInfo::BadDataFormat);
        }
        if self.allowed_digest_oids.len() > 0 && !oid_in(
            &self.allowed_digest_oids,
            &imprint.hash_algorithm,
        ) {
            return Err(PkiFailureInfo::BadAlg);
        }
        let policy = match &req.req_policy {
            Some(p) => {
                if self.allowed_policy_oids.len() == 0 || oid_in(&self.allowed_policy_oids, p) {
                    copy_oid(p)
                } else {
                    return Err(PkiFailureInfo::UnacceptedPolicy);
                }
            },
            None => {
                if self.allowed_policy_oids.len() > 0 {
                    copy_oid(&self.allowed_policy_oids[0])
                } else {
                    let any = vec![2u32, 5, 29, 32, 0];
                    proof {
                        assert(any@ =~= any_policy());
                    }
                    any
                }
            },
        };
        if req.critical_extension_oids.len() > 0 {
            return Err(PkiFailureInfo::UnacceptedExtension);
        }
        Ok(policy)
    }

    /// Answers a parsed request with the outcomes of the outside work handed
    /// in: `ntp_time`, a fresh NTP exchange (used only when the
    /// time keeper asks NTP for every request), `system_epoch_micros`, the
    /// local system time, and `snapshot`, the signing snapshot this request
    /// holds. Failing admission leaves the engine as it was; otherwise the
    /// time keeper is asked for the time, and a token is granted when a time
    /// within tolerance and a signer came out, which takes the next serial
    /// number.
    pub fn time_stamp_request_with(
        &mut self,
        req: &TimeStampReq,
        digest_size_bits: Option<u32>,
        ntp_time: Option<NtpSample>,
        system_epoch_micros: u64,
        snapshot: Option<&SigningInfoSnapshot>,
    ) -> (r: TimeStampResp)
        ensures
            ({
                let tk = old(self).spec_time_keeper();
                let time = keeper_time_of(
                    tk.spec_per_request(),
                    tk.spec_tolerable_accuracy_micros(),
                    tk.spec_clock(),
                    ntp_time,
                    system_epoch_micros,
                );
                let serial = serial_of(old(self).spec_serial_seed(), old(self).spec_issued());
                match admission_of(
                    req@,
                    old(self).spec_allowed_digest_oids(),
                    old(self).spec_allowed_policy_oids(),
                    digest_size_bits,
                ) {
                    Err(e) => is_rejection(r, e) && *final(self) == *old(self),
                    Ok(policy) => {
                        &&& final(self).spec_time_keeper().spec_within_tolerance() == time is Some
                        &&& final(self).spec_time_keeper().spec_clock() == tk.spec_clock()
                        &&& final(self).spec_time_keeper().spec_tolerable_accuracy_micros()
                            == tk.spec_tolerable_accuracy_micros()
                        &&& final(self).spec_time_keeper().spec_per_request()
                            == tk.spec_per_request()
                        &&& final(self).spec_time_keeper().spec_ntp_host() == tk.spec_ntp_host()
                        &&& final(self).spec_allowed_digest_oids()
                            == old(self).spec_allowed_digest_oids()
                        &&& final(self).spec_allowed_policy_oids()
                            == old(self).spec_allowed_policy_oids()
                        &&& final(self).spec_serial_seed() == old(self).spec_serial_seed()
                        &&& match time {
                            None => is_rejection(r, PkiFailureInfo::TimeNotAvailable)
                                && final(self).spec_issued() == old(self).spec_issued(),
                            Some(t) => match snapshot {
                                None => is_rejection(r, PkiFailureInfo::SystemFailure)
                                    && final(self).spec_issued() == old(self).spec_issued(),
                                Some(s) => if token_revocation_of(s.spec_revocation_info()) is None
                                    || old(self).spec_issued() == u64::MAX {
                                    is_rejection(r, PkiFailureInfo::SystemFailure)
                                        && final(self).spec_issued() == old(self).spec_issued()
                                } else {
                                    &&& r.status == PkiStatus::Granted
                                    &&& r.failure_info is None
                                    &&& r.time_stamp_token matches Some(tok) && tst_info_matches(
                                        tok.tst_info,
                                        req@,
                                        policy,
                                        serial,
                                        t,
                                    ) && signer_matches_snapshot(tok.signer, *s)
                                    &&& final(self).spec_issued() == old(self).spec_issued() + 1
                                },
                            },
                        }
                    },
                }
            }),
    {
        let policy = match self.admission(req, digest_size_bits) {
            Err(e) => {
                return TimeStampResp::with_rejection(e);
            },
            Ok(p) => p,
        };
        let time = self.time_keeper.get_epoch_time_with_accuracy_micros(
            ntp_time,
            system_epoch_micros,
        );
        let (gen_time_micros, accuracy_micros) = match time {
            None => {
                return TimeStampResp::with_rejection(PkiFailureInfo::TimeNotAvailable);
            },
            Some(t) => t,
        };
        self.answer_with_snapshot(req, policy, gen_time_micros, accuracy_micros, snapshot)
    }

    /// The answer to an admitted request that got a time within tolerance:
    /// a token signed with the snapshot, when there is one whose revocation
    /// material is complete and a serial number is left; otherwise a
    /// systemFailure rejection. Only the serial number counter changes.
    fn answer_with_snapshot(
        &mut self,
        req: &TimeStampReq,
        policy: Vec<u32>,
        gen_time_micros: u64,
        accuracy_micros: u64,
        snapshot: Option<&SigningInfoSnapshot>,
    ) -> (r: TimeStampResp)
        ensures
            final(self).spec_time_keeper() == old(self).spec_time_keeper(),
            final(self).spec_allowed_digest_oids() == old(self).spec_allowed_digest_oids(),
            final(self).spec_allowed_policy_oids() == old(self).spec_allowed_policy_oids(),
            final(self).spec_serial_seed() == old(self).spec_serial_seed(),
            match snapshot {
                None => is_rejection(r, PkiFailureInfo::SystemFailure)
                    && final(self).spec_issued() == old(self).spec_issued(),
                Some(s) => if token_revocation_of(s.spec_revocation_info()) is None
                    || old(self).spec_issued() == u64::MAX {
                    is_rejection(r, PkiFailureInfo::SystemFailure)
                        && final(self).spec_issued() == old(self).spec_issued()
                } else {
                    &&& r.status == PkiStatus::Granted
                    &&& r.failure_info is None
                    &&& r.time_stamp_token matches Some(tok) && tst_info_matches(
                        tok.tst_info,
                        req@,
                        policy@,
                        serial_of(old(self).spec_serial_seed(), old(self).spec_issued()),
                        (gen_time_micros, accuracy_micros),
                    ) && signer_matches_snapshot(tok.signer, *s)
                    &&& final(self).spec_issued() == old(self).spec_issued() + 1
                },
            },
    {
        let signer = match snapshot {
            None => {
                return TimeStampResp::with_rejection(PkiFailureInfo::SystemFailure);
            },
            Some(s) => match s.signer() {
                None => {
                    return TimeStampResp::with_rejection(PkiFailureInfo::SystemFailure);
                },
                Some(signer) => signer,
            },
        };
        if self.issued == u64::MAX {
            return TimeStampResp::with_rejection(PkiFailureInfo::SystemFailure);
        }
        let serial_number: u128 = self.serial_seed as u128 * 0x1_0000_0000_0000_0000u128
            + self.issued as u128;
        self.issued = self.issued + 1;
        let nonce = match &req.nonce {
            Some(n) => Some(copy_bytes(n)),
            None => None,
        };
        let tst_info = TstInfo {
            version: 1,
            policy,
            message_imprint: MessageImprint {
                hash_algorithm: copy_oid(&req.message_imprint.hash_algorithm),
                hashed_message: copy_bytes(&req.message_imprint.hashed_message),
            },
            serial_number,
            gen_time_micros,
            accuracy_micros,
            ordering: false,
            nonce,
            with_signer_identity: req.cert_req,
        };
        TimeStampResp::with_success(TimeStampToken { tst_info, signer })
    }

    /// Answers a parsed request: admission, then the time from the time
    /// keeper, then the signing snapshot that is current once the time is
    /// taken. Admission failures leave the engine as it was. An admitted
    /// request gets timeNotAvailable when no time within tolerance is at
    /// hand, and otherwise either a token with that time, the admitted
    /// policy, the request's imprint and nonce and the next serial number, or
    /// a systemFailure rejection when no complete snapshot was published.
    pub fn time_stamp_request(
        &mut self,
        req: &TimeStampReq,
        digest_size_bits: Option<u32>,
        ntp_time: Option<NtpSample>,
        system_epoch_micros: u64,
    ) -> (r: TimeStampResp)
        ensures
            ({
                let tk = old(self).spec_time_keeper();
                let time = keeper_time_of(
                    tk.spec_per_request(),
                    tk.spec_tolerable_accuracy_micros(),
                    tk.spec_clock(),
                    ntp_time,
                    system_epoch_micros,
                );
                let serial = serial_of(old(self).spec_serial_seed(), old(self).spec_issued());
                let adm = admission_of(
                    req@,
                    old(self).spec_allowed_digest_oids(),
                    old(self).spec_allowed_policy_oids(),
                    digest_size_bits,
                );
                &&& adm is Err ==> is_rejection(r, adm->Err_0) && *final(self) == *old(self)
                &&& adm is Ok ==> {
                    &&& final(self).spec_time_keeper().spec_within_tolerance() == time is Some
                    &&& final(self).spec_time_keeper().spec_clock() == tk.spec_clock()
                    &&& final(self).spec_time_keeper().spec_tolerable_accuracy_micros()
                        == tk.spec_tolerable_accuracy_micros()
                    &&& final(self).spec_time_keeper().spec_per_request() == tk.spec_per_request()
                    &&& final(self).spec_time_keeper().spec_ntp_host() == tk.spec_ntp_host()
                    &&& final(self).spec_allowed_digest_oids() == old(self).spec_allowed_digest_oids()
                    &&& final(self).spec_allowed_policy_oids() == old(self).spec_allowed_policy_oids()
                    &&& final(self).spec_serial_seed() == old(self).spec_serial_seed()
                    &&& time is None ==> is_rejection(r, PkiFailureInfo::TimeNotAvailable)
                        && final(self).spec_issued() == old(self).spec_issued()
                    &&& time is Some ==> ({
                        ||| (is_rejection(r, PkiFailureInfo::SystemFailure)
                            && final(self).spec_issued() == old(self).spec_issued())
                        ||| (r.status == PkiStatus::Granted && r.failure_info is None
                            && (r.time_stamp_token matches Some(tok) && tst_info_matches(
                            tok.tst_info,
                            req@,
                            adm->Ok_0,
                            serial,
                            time->0,
                        )) && old(self).spec_issued() < u64::MAX && final(self).spec_issued()
                            == old(self).spec_issued() + 1)
                    })
                }
                &&& r.status == PkiStatus::Granted ==> (r.time_stamp_token matches Some(tok)
                    && tok.tst_info.accuracy_micros <= tk.spec_tolerable_accuracy_micros())
            }),
    {
        let policy = match self.admission(req, digest_size_bits) {
            Err(e) => {
                return TimeStampResp::with_rejection(e);
            },
            Ok(p) => p,
        };
        let time = self.time_keeper.get_epoch_time_with_accuracy_micros(
            ntp_time,
            system_epoch_micros,
        );
        let (gen_time_micros, accuracy_micros) = match time {
            None => {
                return TimeStampResp::with_rejection(PkiFailureInfo::TimeNotAvailable);
            },
            Some(t) => t,
        };
        let current = self.tst_signing_info.get_current_signing_info();
        match &current {
            Some(csi) => {
                let snapshot: &SigningInfoSnapshot = &**csi;
                self.answer_with_snapshot(
                    req,
                    policy,
                    gen_time_micros,
                    accuracy_micros,
                    Some(snapshot),
                )
            },
            None => self.answer_with_snapshot(req, policy, gen_time_micros, accuracy_micros, None),
        }
    }
}

} // verus!
