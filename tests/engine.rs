use pitsa::conf::AppConfig;
use pitsa::conf::SignerConfig;
use pitsa::conf::TimeSourceConfig;
use pitsa::signing_info::MonitoredRevocationInfo;
use pitsa::signing_info::RevocationInfoVariant;
use pitsa::signing_info::SigningInfoSnapshot;
use pitsa::signing_info::TimeStampTokenSigningInfo;
use pitsa::time_keeper::TimeKeeper;
use pitsa::time_stamper::MessageImprint;
use pitsa::time_stamper::PkiFailureInfo;
use pitsa::time_stamper::PkiStatus;
use pitsa::time_stamper::TimeStampReq;
use pitsa::time_stamper::TimeStampResp;
use pitsa::time_stamper::TimeStamper;
use std::sync::Arc;

const SHA3_512: [u32; 9] = [2, 16, 840, 1, 101, 3, 4, 2, 10];
const ED25519: [u32; 4] = [1, 3, 101, 112];
const NOW_MICROS: u64 = 1_760_000_000_000_000;

fn request(imprint_len: usize, policy: Option<Vec<u32>>, nonce: Option<Vec<u8>>) -> TimeStampReq {
    TimeStampReq {
        version: 1,
        message_imprint: MessageImprint {
            hash_algorithm: SHA3_512.to_vec(),
            hashed_message: (0..imprint_len).map(|i| i as u8).collect(),
        },
        req_policy: policy,
        nonce,
        cert_req: true,
        critical_extension_oids: vec![],
    }
}

fn snapshot(revocation: Vec<MonitoredRevocationInfo>) -> SigningInfoSnapshot {
    let chain: Vec<Vec<u8>> = (0..revocation.len()).map(|i| vec![0x30, i as u8]).collect();
    SigningInfoSnapshot::new(
        SHA3_512.to_vec(),
        ED25519.to_vec(),
        vec![7, 7, 7],
        chain,
        revocation,
        0,
        u64::MAX,
    )
    .unwrap()
}

fn engine(tolerance: u64, allowed_policy: Option<Vec<u32>>, publish: bool) -> TimeStamper {
    let time = TimeSourceConfig::new(None, 250_000, 30_000_000, 15_000_000, tolerance, false);
    let mut sign = SignerConfig::default();
    if let Some(p) = allowed_policy {
        sign = SignerConfig::new(Some(p), ED25519.to_vec(), SHA3_512.to_vec(), None);
    }
    let config = AppConfig::new(None, time, sign, "pitsa".to_string());
    let signing = Arc::new(TimeStampTokenSigningInfo::new(
        config.sign.signature_algorithm_oid(),
        config.sign.digest_algorithm_oid(),
    ));
    if publish {
        signing.set_current_signing_info(Arc::new(snapshot(vec![
            MonitoredRevocationInfo::NotDefinedInCertificate,
        ])));
    }
    TimeStamper::from_config(&config, signing, 5)
}

fn rejection_of(r: &TimeStampResp) -> Option<PkiFailureInfo> {
    assert!(r.time_stamp_token.is_none() || r.status == PkiStatus::Granted);
    if r.status == PkiStatus::Rejection {
        r.failure_info
    } else {
        None
    }
}

#[test]
fn happy_path_with_strict_tolerance_has_no_time() {
    let mut ts = engine(500_000, None, true);
    let req = request(64, None, None);
    assert_eq!(ts.admission(&req, Some(512)), Ok(vec![2, 5, 29, 32, 0]));
    let r = ts.time_stamp_request(&req, Some(512), None, NOW_MICROS);
    assert_eq!(rejection_of(&r), Some(PkiFailureInfo::TimeNotAvailable));
    assert!(!ts.is_ready(1_760_000_000));
    assert!(ts.signing_info().get_current_signing_info().unwrap().chain_len() >= 1);
}

#[test]
fn tolerant_config_grants() {
    let mut ts = engine(30_000_000, None, true);
    let req = request(64, None, None);
    let r = ts.time_stamp_request(&req, Some(512), None, NOW_MICROS);
    assert_eq!(r.status, PkiStatus::Granted);
    assert_eq!(r.failure_info, None);
    let tok = r.time_stamp_token.unwrap();
    let info = &tok.tst_info;
    assert_eq!(info.version, 1);
    assert_eq!(info.policy, vec![2, 5, 29, 32, 0]);
    assert_eq!(info.message_imprint.hash_algorithm, req.message_imprint.hash_algorithm);
    assert_eq!(info.message_imprint.hashed_message, req.message_imprint.hashed_message);
    assert_eq!(info.gen_time_micros, NOW_MICROS);
    assert!(info.accuracy_micros <= 30_000_000);
    assert_eq!(info.accuracy_micros, 30_000_000);
    assert_eq!(info.nonce, None);
    assert!(!info.ordering);
    assert!(info.with_signer_identity);
    assert_eq!(info.serial_number, 5u128 << 64);
    assert!(!tok.signer.certificate_chain.is_empty());
    assert!(ts.is_ready(1_760_000_000));
}

#[test]
fn unknown_digest_is_bad_alg() {
    let mut ts = engine(30_000_000, None, true);
    let mut req = request(64, None, None);
    req.message_imprint.hash_algorithm = vec![1, 2, 3, 4, 5, 6];
    let r = ts.time_stamp_request(&req, None, None, NOW_MICROS);
    assert_eq!(rejection_of(&r), Some(PkiFailureInfo::BadAlg));
}

#[test]
fn short_imprint_is_bad_data_format() {
    let mut ts = engine(30_000_000, None, true);
    let r = ts.time_stamp_request(&request(63, None, None), Some(512), None, NOW_MICROS);
    assert_eq!(rejection_of(&r), Some(PkiFailureInfo::BadDataFormat));
}

#[test]
fn imprint_off_by_one_either_way_is_bad_data_format() {
    let mut ts = engine(30_000_000, None, true);
    for len in [63usize, 65] {
        let r = ts.time_stamp_request(&request(len, None, None), Some(512), None, NOW_MICROS);
        assert_eq!(rejection_of(&r), Some(PkiFailureInfo::BadDataFormat));
    }
    let r = ts.time_stamp_request(&request(64, None, None), Some(512), None, NOW_MICROS);
    assert_eq!(r.status, PkiStatus::Granted);
}

#[test]
fn disallowed_policy_is_unaccepted() {
    let mut ts = engine(30_000_000, Some(vec![2, 5, 29, 32, 1]), true);
    let req = request(64, Some(vec![2, 5, 29, 32, 2]), None);
    let r = ts.time_stamp_request(&req, Some(512), None, NOW_MICROS);
    assert_eq!(rejection_of(&r), Some(PkiFailureInfo::UnacceptedPolicy));
}

#[test]
fn allowed_policy_is_echoed() {
    let mut ts = engine(30_000_000, Some(vec![2, 5, 29, 32, 1]), true);
    let req = request(64, Some(vec![2, 5, 29, 32, 1]), None);
    let r = ts.time_stamp_request(&req, Some(512), None, NOW_MICROS);
    assert_eq!(r.time_stamp_token.unwrap().tst_info.policy, vec![2, 5, 29, 32, 1]);
}

#[test]
fn missing_policy_takes_first_allowed() {
    let mut ts = engine(30_000_000, Some(vec![1, 2, 3]), true);
    let r = ts.time_stamp_request(&request(64, None, None), Some(512), None, NOW_MICROS);
    assert_eq!(r.time_stamp_token.unwrap().tst_info.policy, vec![1, 2, 3]);
}

#[test]
fn nonce_is_echoed() {
    let mut ts = engine(30_000_000, None, true);
    let req = request(64, None, Some(vec![0x01, 0xFF, 0x00, 0x42]));
    let r = ts.time_stamp_request(&req, Some(512), None, NOW_MICROS);
    assert_eq!(
        r.time_stamp_token.unwrap().tst_info.nonce,
        Some(vec![0x01, 0xFF, 0x00, 0x42])
    );
}

#[test]
fn critical_extension_is_unaccepted() {
    let mut ts = engine(30_000_000, None, true);
    let mut req = request(64, None, None);
    req.critical_extension_oids = vec![vec![1, 2, 3]];
    let r = ts.time_stamp_request(&req, Some(512), None, NOW_MICROS);
    assert_eq!(rejection_of(&r), Some(PkiFailureInfo::UnacceptedExtension));
}

#[test]
fn bad_format_comes_before_policy() {
    let mut ts = engine(30_000_000, Some(vec![2, 5, 29, 32, 1]), true);
    let req = request(10, Some(vec![9, 9]), None);
    let r = ts.time_stamp_request(&req, Some(512), None, NOW_MICROS);
    assert_eq!(rejection_of(&r), Some(PkiFailureInfo::BadDataFormat));
}

#[test]
fn no_snapshot_is_system_failure() {
    let mut ts = engine(30_000_000, None, false);
    let r = ts.time_stamp_request(&request(64, None, None), Some(512), None, NOW_MICROS);
    assert_eq!(rejection_of(&r), Some(PkiFailureInfo::SystemFailure));
    assert!(!ts.is_ready(1_760_000_000));
}

#[test]
fn missing_revocation_is_system_failure() {
    let mut ts = engine(30_000_000, None, false);
    let s = snapshot(vec![
        MonitoredRevocationInfo::Crl { encoded: vec![1] },
        MonitoredRevocationInfo::Missing,
    ]);
    let r = ts.time_stamp_request_with(&request(64, None, None), Some(512), None, NOW_MICROS, Some(&s));
    assert_eq!(rejection_of(&r), Some(PkiFailureInfo::SystemFailure));
}

#[test]
fn granted_token_carries_snapshot_revocation_material() {
    let mut ts = engine(30_000_000, None, false);
    let s = snapshot(vec![
        MonitoredRevocationInfo::OcspResponse { encoded: vec![4, 5] },
        MonitoredRevocationInfo::NotDefinedInCertificate,
        MonitoredRevocationInfo::Crl { encoded: vec![6] },
    ]);
    let r = ts.time_stamp_request_with(&request(64, None, None), Some(512), None, NOW_MICROS, Some(&s));
    let signer = r.time_stamp_token.unwrap().signer;
    assert_eq!(signer.certificate_chain, vec![vec![0x30, 0], vec![0x30, 1], vec![0x30, 2]]);
    assert_eq!(signer.private_key, vec![7, 7, 7]);
    assert_eq!(signer.digest_algorithm_oid, SHA3_512.to_vec());
    assert_eq!(signer.signature_algorithm_oid, ED25519.to_vec());
    assert_eq!(signer.revocation_infos.len(), 2);
    assert!(matches!(&signer.revocation_infos[0], RevocationInfoVariant::OcspResponse { encoded } if encoded == &vec![4, 5]));
    assert!(matches!(&signer.revocation_infos[1], RevocationInfoVariant::Crl { encoded } if encoded == &vec![6]));
}

#[test]
fn serial_numbers_increase_per_granted_token() {
    let mut ts = engine(30_000_000, None, true);
    let mut serials = vec![];
    for _ in 0..3 {
        let r = ts.time_stamp_request(&request(64, None, None), Some(512), None, NOW_MICROS);
        serials.push(r.time_stamp_token.unwrap().tst_info.serial_number);
        let r = ts.time_stamp_request(&request(1, None, None), Some(512), None, NOW_MICROS);
        assert_eq!(r.status, PkiStatus::Rejection);
    }
    let base = 5u128 << 64;
    assert_eq!(serials, vec![base, base + 1, base + 2]);
}

#[test]
fn allowed_digest_list_empty_by_default() {
    assert!(SignerConfig::default().allowed_digest_oids().is_empty());
}

#[test]
fn rejected_admission_leaves_tolerance_flag() {
    let mut ts = engine(30_000_000, None, true);
    assert!(!ts.time_keeper().is_within_tolerance());
    let r = ts.time_stamp_request(&request(1, None, None), Some(512), None, NOW_MICROS);
    assert_eq!(rejection_of(&r), Some(PkiFailureInfo::BadDataFormat));
    assert!(!ts.time_keeper().is_within_tolerance());
}

#[test]
fn rotation_keeps_readers_on_one_snapshot() {
    let signing = TimeStampTokenSigningInfo::new(ED25519.to_vec(), SHA3_512.to_vec());
    assert!(signing.set_current_signing_info(Arc::new(snapshot(vec![
        MonitoredRevocationInfo::NotDefinedInCertificate,
    ])))
    .is_none());
    let held = signing.get_current_signing_info().unwrap();
    let second = signing
        .snapshot_of(
            vec![9, 9],
            vec![vec![0x31], vec![0x32]],
            vec![
                MonitoredRevocationInfo::Crl { encoded: vec![1] },
                MonitoredRevocationInfo::Crl { encoded: vec![2] },
            ],
            0,
            u64::MAX,
        )
        .unwrap();
    let old = signing.set_current_signing_info(Arc::new(second)).unwrap();
    assert_eq!(old.chain_len(), 1);
    // the reader keeps its snapshot whole
    let a = held.signer().unwrap();
    assert_eq!(a.private_key, vec![7, 7, 7]);
    assert_eq!(a.certificate_chain, vec![vec![0x30, 0]]);
    assert!(a.revocation_infos.is_empty());
    // a new reader sees the new snapshot whole
    let b = signing.get_dynamic_singing_info().unwrap();
    assert_eq!(b.private_key, vec![9, 9]);
    assert_eq!(b.certificate_chain, vec![vec![0x31], vec![0x32]]);
    assert_eq!(b.revocation_infos.len(), 2);
}

#[test]
fn rotation_under_load_gives_whole_snapshots() {
    let signing = Arc::new(TimeStampTokenSigningInfo::new(ED25519.to_vec(), SHA3_512.to_vec()));
    let make = |key: u8| {
        SigningInfoSnapshot::new(
            SHA3_512.to_vec(),
            ED25519.to_vec(),
            vec![key],
            vec![vec![key, key]],
            vec![MonitoredRevocationInfo::Crl { encoded: vec![key, key, key] }],
            0,
            u64::MAX,
        )
        .unwrap()
    };
    signing.set_current_signing_info(Arc::new(make(1)));
    // 100 requests: half take their snapshot before the rotation, half after,
    // and all of them sign only after the rotation happened.
    let mut held = vec![];
    for i in 0..100 {
        if i == 50 {
            let old = signing.set_current_signing_info(Arc::new(make(2))).unwrap();
            assert_eq!(old.signer().unwrap().private_key, vec![1]);
        }
        held.push(signing.get_current_signing_info().unwrap());
    }
    for (i, snapshot) in held.iter().enumerate() {
        let signer = snapshot.signer().unwrap();
        let k = signer.private_key[0];
        assert_eq!(k, if i < 50 { 1 } else { 2 });
        assert_eq!(signer.certificate_chain, vec![vec![k, k]]);
        assert!(matches!(&signer.revocation_infos[0], RevocationInfoVariant::Crl { encoded } if encoded == &vec![k, k, k]));
    }
}

#[test]
fn snapshot_shape_is_enforced() {
    assert!(SigningInfoSnapshot::new(vec![1], vec![1], vec![], vec![], vec![], 0, 1).is_none());
    assert!(SigningInfoSnapshot::new(
        vec![1],
        vec![1],
        vec![],
        vec![vec![1]],
        vec![],
        0,
        1
    )
    .is_none());
    let s = SigningInfoSnapshot::new(
        vec![1],
        vec![1],
        vec![],
        vec![vec![1]],
        vec![MonitoredRevocationInfo::Missing],
        10,
        20,
    )
    .unwrap();
    assert_eq!(s.chain_len(), 1);
    assert!(s.signer().is_none());
    assert!(!s.is_valid_at(9));
    assert!(s.is_valid_at(10));
    assert!(s.is_valid_at(20));
    assert!(!s.is_valid_at(21));
}

#[test]
fn readiness_follows_leaf_validity() {
    let signing = TimeStampTokenSigningInfo::new(ED25519.to_vec(), SHA3_512.to_vec());
    assert!(!signing.valid_signing_info_available(100));
    let s = signing
        .snapshot_of(vec![1], vec![vec![1]], vec![MonitoredRevocationInfo::NotDefinedInCertificate], 50, 150)
        .unwrap();
    signing.set_current_signing_info(Arc::new(s));
    assert!(signing.valid_signing_info_available(100));
    assert!(!signing.valid_signing_info_available(151));
}

#[test]
fn per_request_ntp_keeper_in_engine() {
    let signing = Arc::new(TimeStampTokenSigningInfo::new(ED25519.to_vec(), SHA3_512.to_vec()));
    signing.set_current_signing_info(Arc::new(snapshot(vec![
        MonitoredRevocationInfo::NotDefinedInCertificate,
    ])));
    let tk = TimeKeeper::new(Some("ntp".to_string()), 30_000_000, 500_000, true);
    let mut ts = TimeStamper::new(vec![SHA3_512.to_vec()], vec![], signing, tk, 0);
    let sample = pitsa::ntp_sample::NtpSample {
        stratum: 1,
        offset_micros: 0,
        roundtrip_micros: 3,
        precision: -20,
        seconds: 10,
        seconds_fraction: 0,
    };
    let r = ts.time_stamp_request(&request(64, None, None), Some(512), Some(sample), NOW_MICROS);
    let info = r.time_stamp_token.unwrap().tst_info;
    assert_eq!(info.gen_time_micros, 10_000_000);
    assert_eq!(info.accuracy_micros, 4);
    let mut req = request(64, None, None);
    req.message_imprint.hash_algorithm = vec![2, 16, 840, 1, 101, 3, 4, 2, 3];
    let r = ts.time_stamp_request(&req, Some(512), Some(sample), NOW_MICROS);
    assert_eq!(rejection_of(&r), Some(PkiFailureInfo::BadAlg));
}

#[test]
fn readiness_needs_valid_leaf_and_time_within_tolerance() {
    let mut ts = engine(30_000_000, None, false);
    let s = SigningInfoSnapshot::new(
        SHA3_512.to_vec(),
        ED25519.to_vec(),
        vec![1],
        vec![vec![1]],
        vec![MonitoredRevocationInfo::NotDefinedInCertificate],
        100,
        200,
    )
    .unwrap();
    assert!(!ts.is_ready_with(Some(&s), 150));
    let r = ts.time_stamp_request_with(&request(64, None, None), Some(512), None, NOW_MICROS, Some(&s));
    assert_eq!(r.status, PkiStatus::Granted);
    assert!(ts.is_ready_with(Some(&s), 150));
    assert!(!ts.is_ready_with(Some(&s), 201));
    assert!(!ts.is_ready_with(None, 150));
}

#[test]
fn strict_tolerance_keeps_engine_not_ready_after_requests() {
    let mut ts = engine(500_000, None, true);
    for _ in 0..3 {
        let r = ts.time_stamp_request(&request(64, None, None), Some(512), None, NOW_MICROS);
        assert_eq!(rejection_of(&r), Some(PkiFailureInfo::TimeNotAvailable));
        assert!(!ts.time_keeper().is_within_tolerance());
        assert!(!ts.is_ready(1_760_000_000));
    }
}

#[test]
fn dynamic_signer_comes_from_current_snapshot() {
    let signing = TimeStampTokenSigningInfo::new(ED25519.to_vec(), SHA3_512.to_vec());
    assert!(signing.get_dynamic_singing_info().is_none());
    signing.set_current_signing_info(Arc::new(snapshot(vec![
        MonitoredRevocationInfo::Crl { encoded: vec![1] },
        MonitoredRevocationInfo::Missing,
    ])));
    assert!(signing.get_dynamic_singing_info().is_none());
    signing.set_current_signing_info(Arc::new(snapshot(vec![
        MonitoredRevocationInfo::Crl { encoded: vec![1] },
        MonitoredRevocationInfo::NotDefinedInCertificate,
    ])));
    let t = signing.get_dynamic_singing_info().unwrap();
    assert_eq!(t.certificate_chain, vec![vec![0x30, 0], vec![0x30, 1]]);
    assert_eq!(t.revocation_infos.len(), 1);
}
