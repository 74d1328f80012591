//! Application configuration, as read by the configuration loader.

use vstd::prelude::*;
use crate::oid::copy_oid;
use vstd::string::StringExecFns;

verus! {

/// The version of this library.
pub const APP_VERSION: &'static str = "0.1.0";

/// The text of an optional string, or `"?"`.
pub open spec fn part_or_unknown(o: Option<String>) -> Seq<char> {
    match o {
        Some(s) => s@,
        None => seq!['?'],
    }
}

/// The Kubernetes DNS name of a pod: the three names joined by dots,
/// followed by `.svc`.
fn kubernetes_dns_name(pod: &str, service: &str, namespace: &str) -> (r: String)
    ensures
        r@ == pod@ + seq!['.'] + service@ + seq!['.'] + namespace@ + seq!['.', 's', 'v', 'c'],
{
    proof {
        reveal_strlit(".");
        reveal_strlit(".svc");
    }
    let mut r = pod.to_owned();
    r.append(".");
    r.append(service);
    r.append(".");
    r.append(namespace);
    r.append(".svc");
    proof {
        assert(r@ =~= pod@ + seq!['.'] + service@ + seq!['.'] + namespace@ + seq!['.', 's', 'v', 'c']);
    }
    r
}

/// The environment context of the app.
pub struct ContextConfig {
    /// `metadata.name` of the Pod.
    pod: Option<String>,
    /// Name of the service fronting the Pod.
    service: Option<String>,
    /// `metadata.namespace` of the Pod.
    namespace: Option<String>,
}

impl ContextConfig {
    pub closed spec fn spec_pod(&self) -> Option<String> {
        self.pod
    }

    pub closed spec fn spec_service(&self) -> Option<String> {
        self.service
    }

    pub closed spec fn spec_namespace(&self) -> Option<String> {
        self.namespace
    }

    /// A context of the given names.
    pub fn new(pod: Option<String>, service: Option<String>, namespace: Option<String>) -> (r: Self)
        ensures
            r.spec_pod() == pod,
            r.spec_service() == service,
            r.spec_namespace() == namespace,
    {
        ContextConfig { pod, service, namespace }
    }

    /// The Kubernetes DNS name `pod.service.namespace.svc`, with `?` for
    /// each name that is not known.
    pub fn get_kubernetes_context(&self) -> (r: String)
        ensures
            r@ == part_or_unknown(self.spec_pod()) + seq!['.'] + part_or_unknown(
                self.spec_service(),
            ) + seq!['.'] + part_or_unknown(self.spec_namespace()) + seq!['.', 's', 'v', 'c'],
    {
        proof {
            reveal_strlit("?");
        }
        let pod: &str = match &self.pod {
            Some(p) => p.as_str(),
            None => "?",
        };
        let service: &str = match &self.service {
            Some(s) => s.as_str(),
            None => "?",
        };
        let namespace: &str = match &self.namespace {
            Some(n) => n.as_str(),
            None => "?",
        };
        kubernetes_dns_name(pod, service, namespace)
    }
}

/// Configuration of the time source.
pub struct TimeSourceConfig {
    ntphost: Option<String>,
    timeout: u64,
    accuracy: u64,
    interval: u64,
    tolerance: u64,
    always: bool,
}

impl TimeSourceConfig {
    pub closed spec fn spec_ntphost(&self) -> Option<String> {
        self.ntphost
    }

    pub closed spec fn spec_timeout(&self) -> u64 {
        self.timeout
    }

    pub closed spec fn spec_accuracy(&self) -> u64 {
        self.accuracy
    }

    pub closed spec fn spec_interval(&self) -> u64 {
        self.interval
    }

    pub closed spec fn spec_tolerance(&self) -> u64 {
        self.tolerance
    }

    pub closed spec fn spec_always(&self) -> bool {
        self.always
    }

    /// A configuration of the given values.
    pub fn new(
        ntphost: Option<String>,
        timeout: u64,
        accuracy: u64,
        interval: u64,
        tolerance: u64,
        always: bool,
    ) -> (r: Self)
        ensures
            r.spec_ntphost() == ntphost,
            r.spec_timeout() == timeout,
            r.spec_accuracy() == accuracy,
            r.spec_interval() == interval,
            r.spec_tolerance() == tolerance,
            r.spec_always() == always,
    {
        TimeSourceConfig { ntphost, timeout, accuracy, interval, tolerance, always }
    }

    /// NTP host in the form `hostname:port`; none when unset or empty, which
    /// disables NTP.
    pub fn ntp_host(&self) -> (r: Option<String>)
        ensures
            match self.spec_ntphost() {
                Some(h) => if h@.len() == 0 {
                    r is None
                } else {
                    r matches Some(s) && s@ == h@
                },
                None => r is None,
            },
    {
        match &self.ntphost {
            Some(h) => {
                if h.as_str().is_empty() {
                    None
                } else {
                    Some(h.clone())
                }
            },
            None => None,
        }
    }

    /// How long to wait for an NTP response before considering it lost.
    pub fn ntp_timeout_micros(&self) -> (r: u64)
        ensures
            r == self.spec_timeout(),
    {
        self.timeout
    }

    /// Estimated worst case accuracy of the local system time.
    pub fn system_time_accuracy_micros(&self) -> (r: u64)
        ensures
            r == self.spec_accuracy(),
    {
        self.accuracy
    }

    /// How often to compare the local time with the NTP time source.
    pub fn ntp_sync_interval_micros(&self) -> (r: u64)
        ensures
            r == self.spec_interval(),
    {
        self.interval
    }

    /// The worst time source accuracy that can be tolerated.
    pub fn tolerable_accuracy_micros(&self) -> (r: u64)
        ensures
            r == self.spec_tolerance(),
    {
        self.tolerance
    }

    /// Whether the NTP server is asked for every time-stamp request.
    pub fn ntp_query_for_every_request(&self) -> (r: bool)
        ensures
            r == self.spec_always(),
    {
        self.always
    }
}

impl Default for TimeSourceConfig {
    /// No NTP host, 250 ms NTP timeout, 30 s declared local accuracy, 15 s
    /// sync interval, 0.5 s tolerable accuracy, no NTP per request.
    fn default() -> (r: Self)
        ensures
            r.spec_ntphost() is None,
            r.spec_timeout() == 250_000,
            r.spec_accuracy() == 30_000_000,
            r.spec_interval() == 15_000_000,
            r.spec_tolerance() == 500_000,
            !r.spec_always(),
    {
        TimeSourceConfig {
            ntphost: None,
            timeout: 250_000,
            accuracy: 30_000_000,
            interval: 15_000_000,
            tolerance: 500_000,
            always: false,
        }
    }
}

/// `anyPolicy`, the policy used when none is configured.
pub open spec fn default_policy_oid() -> Seq<u32> {
    seq![2u32, 5, 29, 32, 0]
}

/// Configuration of the signer. Object identifiers are held as arcs; a
/// configured policy that is not an object identifier is held as `None`.
pub struct SignerConfig {
    policy: Option<Vec<u32>>,
    signature: Vec<u32>,
    digest: Vec<u32>,
    enprov: Option<String>,
}

impl SignerConfig {
    pub closed spec fn spec_policy(&self) -> Option<Seq<u32>> {
        match self.policy {
            Some(p) => Some(p@),
            None => None,
        }
    }

    pub closed spec fn spec_signature(&self) -> Seq<u32> {
        self.signature@
    }

    pub closed spec fn spec_digest(&self) -> Seq<u32> {
        self.digest@
    }

    pub closed spec fn spec_enprov(&self) -> Option<String> {
        self.enprov
    }

    /// A configuration of the given values.
    pub fn new(
        policy: Option<Vec<u32>>,
        signature: Vec<u32>,
        digest: Vec<u32>,
        enprov: Option<String>,
    ) -> (r: Self)
        ensures
            r.spec_policy() == (match policy {
                Some(p) => Some(p@),
                None => None,
            }),
            r.spec_signature() == signature@,
            r.spec_digest() == digest@,
            r.spec_enprov() == enprov,
    {
        SignerConfig { policy, signature, digest, enprov }
    }

    /// The TSA policy: the configured one, or `anyPolicy` when the
    /// configured text was not an object identifier.
    pub fn policy_oid(&self) -> (r: Vec<u32>)
        ensures
            r@ == (match self.spec_policy() {
                Some(p) => p,
                None => default_policy_oid(),
            }),
    {
        match &self.policy {
            Some(p) => copy_oid(p),
            None => {
                let d = vec![2u32, 5, 29, 32, 0];
                proof {
                    assert(d@ =~= default_policy_oid());
                }
                d
            },
        }
    }

    /// The allowed message imprint digest algorithms. Empty: any digest
    /// algorithm that is known is allowed.
    pub fn allowed_digest_oids(&self) -> (r: Vec<Vec<u32>>)
        ensures
            r@.len() == 0,
    {
        Vec::new()
    }

    /// The signature algorithm of the signing keys.
    pub fn signature_algorithm_oid(&self) -> (r: Vec<u32>)
        ensures
            r@ == self.spec_signature(),
    {
        copy_oid(&self.signature)
    }

    /// The digest algorithm used in signing.
    pub fn digest_algorithm_oid(&self) -> (r: Vec<u32>)
        ensures
            r@ == self.spec_digest(),
    {
        copy_oid(&self.digest)
    }

    /// The path of the enrollment provider options file, if configured.
    pub fn enrollment_provider_file(&self) -> (r: &Option<String>)
        ensures
            *r == self.spec_enprov(),
    {
        &self.enprov
    }
}

impl Default for SignerConfig {
    /// Policy `anyPolicy` (2.5.29.32.0), signature Ed25519 (1.3.101.112),
    /// digest SHA3-512 (2.16.840.1.101.3.4.2.10), no enrollment file.
    fn default() -> (r: Self)
        ensures
            r.spec_policy() == Some(default_policy_oid()),
            r.spec_signature() == seq![1u32, 3, 101, 112],
            r.spec_digest() == seq![2u32, 16, 840, 1, 101, 3, 4, 2, 10],
            r.spec_enprov() is None,
    {
        let policy = vec![2u32, 5, 29, 32, 0];
        let signature = vec![1u32, 3, 101, 112];
        let digest = vec![2u32, 16, 840, 1, 101, 3, 4, 2, 10];
        proof {
            assert(policy@ =~= default_policy_oid());
            assert(signature@ =~= seq![1u32, 3, 101, 112]);
            assert(digest@ =~= seq![2u32, 16, 840, 1, 101, 3, 4, 2, 10]);
        }
        SignerConfig { policy: Some(policy), signature, digest, enprov: None }
    }
}

/// The application's configuration.
pub struct AppConfig {
    /// Environment context this app runs in.
    pub context: Option<ContextConfig>,
    /// Configuration of the time source.
    pub time: TimeSourceConfig,
    /// Configuration of the signer.
    pub sign: SignerConfig,
    /// Lower case application name.
    pub app_name: String,
}

impl AppConfig {
    /// A configuration of the given parts.
    pub fn new(
        context: Option<ContextConfig>,
        time: TimeSourceConfig,
        sign: SignerConfig,
        app_name: String,
    ) -> (r: Self)
        ensures
            r.context == context,
            r.time == time,
            r.sign == sign,
            r.app_name@ == app_name@,
    {
        AppConfig { context, time, sign, app_name }
    }

    /// Lower case application name.
    pub fn app_name_lowercase(&self) -> (r: &str)
        ensures
            r@ == self.app_name@,
    {
        self.app_name.as_str()
    }

    /// Version of the application.
    pub fn app_version(&self) -> (r: &'static str)
        ensures
            r@ == APP_VERSION@,
    {
        APP_VERSION
    }
}

} // verus!
