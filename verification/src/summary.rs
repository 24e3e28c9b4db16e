//! The sanitized, human-readable summary of a connection request, for the
//! caller's logging collaborator. The summary never includes the
//! credentials.
use vstd::prelude::*;
use vstd::string::StringExecFns;
use crate::config::{ConnectionRequest, NodeAddress, ReadFrom, RetryStrategy, TlsMode};

verus! {

/// The decimal digit character for one value in `0..=9`.
pub open spec fn dec_digit(d: int) -> char {
    if d == 0 {
        '0'
    } else if d == 1 {
        '1'
    } else if d == 2 {
        '2'
    } else if d == 3 {
        '3'
    } else if d == 4 {
        '4'
    } else if d == 5 {
        '5'
    } else if d == 6 {
        '6'
    } else if d == 7 {
        '7'
    } else if d == 8 {
        '8'
    } else {
        '9'
    }
}

/// The decimal rendering of a non-negative number, without sign or
/// padding.
pub open spec fn dec_str(n: int) -> Seq<char>
    recommends
        n >= 0,
    decreases n,
{
    if n < 10 {
        seq![dec_digit(n)]
    } else {
        dec_str(n / 10) + seq![dec_digit(n % 10)]
    }
}

/// The one-character string for a decimal digit.
fn digit_str(d: u32) -> (r: &'static str)
    requires
        d < 10,
    ensures
        r@ == seq![dec_digit(d as int)],
{
    let r: &'static str = if d == 0 {
        "0"
    } else if d == 1 {
        "1"
    } else if d == 2 {
        "2"
    } else if d == 3 {
        "3"
    } else if d == 4 {
        "4"
    } else if d == 5 {
        "5"
    } else if d == 6 {
        "6"
    } else if d == 7 {
        "7"
    } else if d == 8 {
        "8"
    } else {
        "9"
    };
    proof {
        reveal_strlit("0");
        reveal_strlit("1");
        reveal_strlit("2");
        reveal_strlit("3");
        reveal_strlit("4");
        reveal_strlit("5");
        reveal_strlit("6");
        reveal_strlit("7");
        reveal_strlit("8");
        reveal_strlit("9");
        assert(r@ =~= seq![dec_digit(d as int)]);
    }
    r
}

/// The decimal rendering of a number.
fn u32_to_string(n: u32) -> (r: String)
    ensures
        r@ == dec_str(n as int),
    decreases n,
{
    if n < 10 {
        digit_str(n).to_owned()
    } else {
        let mut s = u32_to_string(n / 10);
        s.append(digit_str(n % 10));
        s
    }
}

/// One optional summary line: empty for a zero value, else a line naming
/// the value.
pub open spec fn non_zero_str(name: Seq<char>, value: int) -> Seq<char> {
    if value > 0 {
        "\n"@ + name + ": "@ + dec_str(value)
    } else {
        Seq::<char>::empty()
    }
}

/// Renders one optional summary line: nothing for a zero value, else a new
/// line naming the value.
pub fn format_non_zero_value(name: &str, value: u32) -> (r: String)
    ensures
        r@ == non_zero_str(name@, value as int),
{
    if value > 0 {
        let mut s = "\n".to_owned();
        s.append(name);
        s.append(": ");
        s.append(u32_to_string(value).as_str());
        s
    } else {
        String::new()
    }
}

/// The `host:port` rendering of one address.
pub open spec fn address_str(a: NodeAddress) -> Seq<char> {
    a.host@ + ":"@ + dec_str(a.port as int)
}

/// The comma-separated rendering of an address list.
pub open spec fn addresses_str(addrs: Seq<NodeAddress>) -> Seq<char>
    decreases addrs.len(),
{
    if addrs.len() == 0 {
        Seq::<char>::empty()
    } else if addrs.len() == 1 {
        address_str(addrs[0])
    } else {
        addresses_str(addrs.drop_last()) + ", "@ + address_str(addrs.last())
    }
}

/// Renders the comma-separated address list.
fn addresses_join(addrs: &Vec<NodeAddress>) -> (r: String)
    ensures
        r@ == addresses_str(addrs@),
{
    let mut s = String::new();
    let n = addrs.len();
    let mut i: usize = 0;
    while i < n
        invariant
            n == addrs@.len(),
            0 <= i <= n,
            s@ == addresses_str(addrs@.take(i as int)),
        decreases n - i,
    {
        if i > 0 {
            s.append(", ");
        }
        s.append(addrs[i].host.as_str());
        s.append(":");
        s.append(u32_to_string(addrs[i].port).as_str());
        proof {
            let pre = addrs@.take(i as int);
            let post = addrs@.take(i + 1 as int);
            assert(post.drop_last() =~= pre);
            assert(post.last() == addrs@[i as int]);
            if i == 0 {
                assert(s@ =~= addresses_str(post));
            } else {
                assert(post.len() > 1);
                assert(s@ =~= addresses_str(post));
            }
        }
        i = i + 1;
    }
    proof {
        assert(addrs@.take(n as int) =~= addrs@);
    }
    s
}

/// The debug-style name of a TLS mode.
pub open spec fn tls_mode_str(m: TlsMode) -> Seq<char> {
    match m {
        TlsMode::NoTls => "NoTls"@,
        TlsMode::SecureTls => "SecureTls"@,
        TlsMode::InsecureTls => "InsecureTls"@,
    }
}

/// The debug-style name of a read-from-replica strategy.
pub open spec fn read_from_str(rf: ReadFrom) -> Seq<char> {
    match rf {
        ReadFrom::Primary => "Primary"@,
        ReadFrom::PreferReplica => "PreferReplica"@,
    }
}

/// The rendering of a boolean.
pub open spec fn bool_str(b: bool) -> Seq<char> {
    if b {
        "true"@
    } else {
        "false"@
    }
}

/// The optional backoff-strategy line of the summary.
pub open spec fn retry_str(s: Option<RetryStrategy>) -> Seq<char> {
    match s {
        Some(st) => "\nreconnect backoff strategy: number of increasing duration retries: "@
            + dec_str(st.number_of_retries as int) + ", base: "@ + dec_str(st.exponent_base as int)
            + ", factor: "@ + dec_str(st.factor as int),
        None => Seq::<char>::empty(),
    }
}

/// The whole sanitized summary of a connection request. It is a function of
/// the addresses, the TLS mode, the cluster-mode flag, the timeout, the
/// read strategy, the database and the backoff parameters alone — never of
/// the credentials.
pub open spec fn request_summary(r: ConnectionRequest) -> Seq<char> {
    "\naddresses: "@ + addresses_str(r.addresses@) + "\nTLS mode: "@ + tls_mode_str(r.tls_mode)
        + "\ncluster mode: "@ + bool_str(r.cluster_mode_enabled) + non_zero_str(
        "response timeout"@,
        r.request_timeout as int,
    ) + "\nRead from replica strategy: "@ + read_from_str(r.read_from) + non_zero_str(
        "database ID"@,
        r.database_id as int,
    ) + retry_str(r.connection_retry_strategy)
}

/// Renders the sanitized configuration summary handed to the logging
/// collaborator once per construction. The password never appears in it.
pub fn sanitized_request_string(request: &ConnectionRequest) -> (r: String)
    ensures
        r@ == request_summary(*request),
{
    let mut s = "\naddresses: ".to_owned();
    s.append(addresses_join(&request.addresses).as_str());
    s.append("\nTLS mode: ");
    match request.tls_mode {
        TlsMode::NoTls => s.append("NoTls"),
        TlsMode::SecureTls => s.append("SecureTls"),
        TlsMode::InsecureTls => s.append("InsecureTls"),
    }
    s.append("\ncluster mode: ");
    if request.cluster_mode_enabled {
        s.append("true");
    } else {
        s.append("false");
    }
    s.append(format_non_zero_value("response timeout", request.request_timeout).as_str());
    s.append("\nRead from replica strategy: ");
    match request.read_from {
        ReadFrom::Primary => s.append("Primary"),
        ReadFrom::PreferReplica => s.append("PreferReplica"),
    }
    s.append(format_non_zero_value("database ID", request.database_id).as_str());
    match &request.connection_retry_strategy {
        Some(st) => {
            s.append("\nreconnect backoff strategy: number of increasing duration retries: ");
            s.append(u32_to_string(st.number_of_retries).as_str());
            s.append(", base: ");
            s.append(u32_to_string(st.exponent_base).as_str());
            s.append(", factor: ");
            s.append(u32_to_string(st.factor).as_str());
        },
        None => {},
    }
    s
}

/// The sanitized summary never includes the credentials: two requests that
/// differ at most in their authentication yield the same summary, so
/// nothing of the username or the password reaches the log.
pub proof fn lemma_summary_ignores_credentials(a: ConnectionRequest, b: ConnectionRequest)
    requires
        a.addresses == b.addresses,
        a.tls_mode == b.tls_mode,
        a.cluster_mode_enabled == b.cluster_mode_enabled,
        a.database_id == b.database_id,
        a.read_from == b.read_from,
        a.request_timeout == b.request_timeout,
        a.connection_retry_strategy == b.connection_retry_strategy,
    ensures
        request_summary(a) == request_summary(b),
{
}

} // verus!
