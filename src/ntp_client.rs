//! Addressing of the NTP server.

use vstd::prelude::*;
use vstd::string::StrSliceExecFns;
use vstd::string::StringExecFns;

verus! {

/// The NTP server address for a configured host: as given when it names a
/// port (holds a `:`), else with the NTP port 123 appended.
pub open spec fn ntp_server_address_of(host: Seq<char>) -> Seq<char> {
    if host.contains(':') {
        host
    } else {
        host + seq![':', '1', '2', '3']
    }
}

/// The host followed by the default NTP port, `:123`.
fn append_default_port(host: &str) -> (r: String)
    ensures
        r@ == host@ + seq![':', '1', '2', '3'],
{
    proof {
        reveal_strlit(":123");
    }
    let mut r = host.to_owned();
    r.append(":123");
    proof {
        assert(r@ =~= host@ + seq![':', '1', '2', '3']);
    }
    r
}

/// The address to resolve for a configured NTP host (`hostname:port`, or
/// `hostname` for the default port).
pub fn ntp_server_address(ntp_host: &str) -> (r: String)
    ensures
        r@ == ntp_server_address_of(ntp_host@),
{
    let n = ntp_host.unicode_len();
    let mut i: usize = 0;
    while i < n
        invariant
            0 <= i <= n,
            n == ntp_host@.len(),
            forall|j: int| 0 <= j < i ==> ntp_host@[j] != ':',
        decreases n - i,
    {
        if ntp_host.get_char(i) == ':' {
            return ntp_host.to_owned();
        }
        i = i + 1;
    }
    append_default_port(ntp_host)
}

} // verus!
