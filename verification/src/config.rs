//! The connection request and the connection plans built from it.
use vstd::prelude::*;

verus! {

/// The store's default port, used when an address leaves the port unset.
pub const DEFAULT_PORT: u16 = 6379;

/// How the connection to a node is secured.
#[derive(Clone, Copy, PartialEq, Eq, Structural, Debug)]
pub enum TlsMode {
    /// No transport security.
    NoTls,
    /// TLS with certificate verification.
    SecureTls,
    /// TLS without certificate verification.
    InsecureTls,
}

/// Which nodes of a cluster may serve reads.
#[derive(Clone, Copy, PartialEq, Eq, Structural, Debug)]
pub enum ReadFrom {
    /// Reads go to primaries only.
    Primary,
    /// Reads may go to replicas.
    PreferReplica,
}

/// The address of one node; a port of `0` stands for the store's default
/// port.
#[derive(Clone, PartialEq, Debug)]
pub struct NodeAddress {
    /// Hostname or IP address of the node.
    pub host: String,
    /// Port of the node; `0` means the default port.
    pub port: u32,
}

/// Optional credentials; an empty string is treated as "not provided".
#[derive(Clone, PartialEq, Debug)]
pub struct AuthenticationInfo {
    /// The username, or empty for none.
    pub username: String,
    /// The password, or empty for none.
    pub password: String,
}

/// Parameters of the collaborator's reconnection backoff; opaque to this
/// core, which only passes them through.
#[derive(Clone, Copy, PartialEq, Eq, Structural, Debug)]
pub struct RetryStrategy {
    /// How many increasing-duration retries to make.
    pub number_of_retries: u32,
    /// Base of the exponential backoff.
    pub exponent_base: u32,
    /// Multiplier of the exponential backoff.
    pub factor: u32,
}

/// An external connection request: everything needed to construct a client.
/// Created once by the caller and consumed exactly once.
#[derive(Clone, PartialEq, Debug)]
pub struct ConnectionRequest {
    /// The nodes to connect to, in order.
    pub addresses: Vec<NodeAddress>,
    /// How connections are secured.
    pub tls_mode: TlsMode,
    /// Whether the store runs as a sharded cluster.
    pub cluster_mode_enabled: bool,
    /// Optional credentials.
    pub authentication_info: Option<AuthenticationInfo>,
    /// The logical database to select (single-node only).
    pub database_id: u32,
    /// Whether to negotiate the protocol version with native maps, doubles
    /// and booleans.
    pub use_resp3: bool,
    /// Which nodes may serve reads.
    pub read_from: ReadFrom,
    /// Per-request timeout in milliseconds; `0` means the default.
    pub request_timeout: u32,
    /// Reconnection backoff parameters, consumed by the collaborator only.
    pub connection_retry_strategy: Option<RetryStrategy>,
}

/// Connection-level settings shared by every node connection.
#[derive(Clone, PartialEq, Debug)]
pub struct RedisConnectionInfo {
    /// The logical database to select.
    pub db: i64,
    /// The username, when credentials were provided with one.
    pub username: Option<String>,
    /// The password, when credentials were provided with one.
    pub password: Option<String>,
    /// Whether to negotiate the typed protocol version.
    pub use_resp3: bool,
}

/// The address of one node, in the collaborator's form: plain TCP, or TLS
/// with or without certificate verification.
#[derive(Clone, PartialEq, Debug)]
pub enum ConnectionAddr {
    /// Plain TCP.
    Tcp {
        /// Hostname of the node.
        host: String,
        /// Port of the node.
        port: u16,
    },
    /// TCP secured with TLS.
    TcpTls {
        /// Hostname of the node.
        host: String,
        /// Port of the node.
        port: u16,
        /// Whether certificate verification is skipped.
        insecure: bool,
    },
}

/// Everything the collaborator needs to open one node connection.
#[derive(Clone, PartialEq, Debug)]
pub struct ConnectionInfo {
    /// Where to connect.
    pub addr: ConnectionAddr,
    /// The connection-level settings.
    pub redis: RedisConnectionInfo,
}

/// The effective port of an address: the default port when the address
/// leaves the port unset, else the port truncated to 16 bits.
pub open spec fn port_of(port: u32) -> u16 {
    if port == 0 {
        DEFAULT_PORT
    } else {
        port as u16
    }
}

/// The effective port of an address; a port of `0` selects the store's
/// default port.
pub fn get_port(address: &NodeAddress) -> (r: u16)
    ensures
        r == port_of(address.port),
{
    if address.port == 0 {
        DEFAULT_PORT
    } else {
        #[verifier::truncate]
        (address.port as u16)
    }
}

/// An optional string: `None` when the text is empty, else the text itself.
pub fn chars_to_string_option(chars: &String) -> (r: Option<String>)
    ensures
        chars@.len() == 0 ==> r is None,
        chars@.len() > 0 ==> (r matches Some(s) && s@ == chars@),
{
    if chars.as_str().is_empty() {
        None
    } else {
        Some(chars.clone())
    }
}

/// The connection-level settings that `get_redis_connection_info` builds:
/// the database, the credentials with empty strings dropped, and the
/// protocol choice.
pub open spec fn redis_connection_info_of(
    authentication_info: Option<AuthenticationInfo>,
    database_id: u32,
    use_resp3: bool,
    info: RedisConnectionInfo,
) -> bool {
    &&& info.db == database_id as i64
    &&& info.use_resp3 == use_resp3
    &&& match authentication_info {
        Some(auth) => {
            &&& (auth.username@.len() == 0 ==> info.username is None)
            &&& (auth.username@.len() > 0 ==> (info.username matches Some(u) && u@
                == auth.username@))
            &&& (auth.password@.len() == 0 ==> info.password is None)
            &&& (auth.password@.len() > 0 ==> (info.password matches Some(p) && p@
                == auth.password@))
        },
        None => info.username is None && info.password is None,
    }
}

/// Builds the connection-level settings from the optional credentials, the
/// database index and the protocol choice; empty credential strings are
/// treated as "not provided".
pub fn get_redis_connection_info(
    authentication_info: &Option<AuthenticationInfo>,
    database_id: u32,
    use_resp3: bool,
) -> (r: RedisConnectionInfo)
    ensures
        redis_connection_info_of(*authentication_info, database_id, use_resp3, r),
{
    match authentication_info {
        Some(info) => RedisConnectionInfo {
            db: database_id as i64,
            username: chars_to_string_option(&info.username),
            password: chars_to_string_option(&info.password),
            use_resp3,
        },
        None => RedisConnectionInfo {
            db: database_id as i64,
            username: None,
            password: None,
            use_resp3,
        },
    }
}

/// The collaborator-form address that an address translates to: TLS
/// settings follow the TLS mode, and the port falls back to the default.
pub open spec fn addr_of(address: NodeAddress, tls_mode: TlsMode, addr: ConnectionAddr) -> bool {
    match tls_mode {
        TlsMode::NoTls => addr matches ConnectionAddr::Tcp { host, port } && host@
            == address.host@ && port == port_of(address.port),
        TlsMode::SecureTls => addr matches ConnectionAddr::TcpTls { host, port, insecure }
            && host@ == address.host@ && port == port_of(address.port) && !insecure,
        TlsMode::InsecureTls => addr matches ConnectionAddr::TcpTls { host, port, insecure }
            && host@ == address.host@ && port == port_of(address.port) && insecure,
    }
}

/// The node connection description that `get_connection_info` builds for an
/// address: the translated address plus the shared connection-level
/// settings.
pub open spec fn connection_info_of(
    address: NodeAddress,
    tls_mode: TlsMode,
    redis: RedisConnectionInfo,
    info: ConnectionInfo,
) -> bool {
    &&& info.redis == redis
    &&& addr_of(address, tls_mode, info.addr)
}

/// Builds the description of one node connection from its address, the TLS
/// mode and the shared connection-level settings.
pub fn get_connection_info(
    address: &NodeAddress,
    tls_mode: TlsMode,
    redis_connection_info: RedisConnectionInfo,
) -> (r: ConnectionInfo)
    ensures
        connection_info_of(*address, tls_mode, redis_connection_info, r),
{
    let addr = if tls_mode != TlsMode::NoTls {
        ConnectionAddr::TcpTls {
            host: address.host.clone(),
            port: get_port(address),
            insecure: tls_mode == TlsMode::InsecureTls,
        }
    } else {
        ConnectionAddr::Tcp { host: address.host.clone(), port: get_port(address) }
    };
    ConnectionInfo { addr, redis: redis_connection_info }
}

/// The effective duration in milliseconds: the given value when it is set,
/// else the default.
pub open spec fn duration_of(time_in_millis: u32, default: u64) -> u64 {
    if time_in_millis > 0 {
        time_in_millis as u64
    } else {
        default
    }
}

/// The effective duration in milliseconds; `0` means "use the default".
pub fn to_duration(time_in_millis: u32, default: u64) -> (r: u64)
    ensures
        r == duration_of(time_in_millis, default),
{
    if time_in_millis > 0 {
        time_in_millis as u64
    } else {
        default
    }
}

/// Everything the collaborator needs to establish a cluster connection:
/// one connection description per address, the replica-read toggle, the
/// protocol choice, the TLS choice and the per-attempt timeout.
#[derive(Clone, PartialEq, Debug)]
pub struct ClusterConnectionPlan {
    /// One connection description per requested address, in order.
    pub initial_nodes: Vec<ConnectionInfo>,
    /// Whether reads may go to replicas.
    pub read_from_replicas: bool,
    /// Whether to negotiate the typed protocol version.
    pub use_resp3: bool,
    /// The TLS mode every connection uses.
    pub tls_mode: TlsMode,
    /// Milliseconds allowed for each connection attempt.
    pub connection_timeout_ms: u64,
}

/// Builds the cluster connection plan from a connection request: every
/// address is translated with the shared connection-level settings (cluster
/// connections always select database `0`), reads go to replicas exactly
/// when the request prefers replicas, and TLS and protocol settings are
/// passed through.
pub fn cluster_connection_plan(request: &ConnectionRequest) -> (r: ClusterConnectionPlan)
    ensures
        r.initial_nodes@.len() == request.addresses@.len(),
        forall|i: int|
            0 <= i < request.addresses@.len() ==> {
                &&& addr_of(
                    request.addresses@[i],
                    request.tls_mode,
                    (#[trigger] r.initial_nodes@[i]).addr,
                )
                &&& redis_connection_info_of(
                    request.authentication_info,
                    0,
                    request.use_resp3,
                    r.initial_nodes@[i].redis,
                )
            },
        r.read_from_replicas == (request.read_from != ReadFrom::Primary),
        r.use_resp3 == request.use_resp3,
        r.tls_mode == request.tls_mode,
        r.connection_timeout_ms == crate::INTERNAL_CONNECTION_TIMEOUT_MS,
{
    let mut initial_nodes: Vec<ConnectionInfo> = Vec::new();
    let n = request.addresses.len();
    let mut i: usize = 0;
    while i < n
        invariant
            n == request.addresses@.len(),
            0 <= i <= n,
            initial_nodes@.len() == i,
            forall|j: int|
                0 <= j < i ==> {
                    &&& addr_of(
                        request.addresses@[j],
                        request.tls_mode,
                        (#[trigger] initial_nodes@[j]).addr,
                    )
                    &&& redis_connection_info_of(
                        request.authentication_info,
                        0,
                        request.use_resp3,
                        initial_nodes@[j].redis,
                    )
                },
        decreases n - i,
    {
        let settings = get_redis_connection_info(
            &request.authentication_info,
            0,
            request.use_resp3,
        );
        let info = get_connection_info(&request.addresses[i], request.tls_mode, settings);
        initial_nodes.push(info);
        i = i + 1;
    }
    let read_from_replicas = match request.read_from {
        ReadFrom::Primary => false,
        _ => true,
    };
    ClusterConnectionPlan {
        initial_nodes,
        read_from_replicas,
        use_resp3: request.use_resp3,
        tls_mode: request.tls_mode,
        connection_timeout_ms: crate::INTERNAL_CONNECTION_TIMEOUT_MS,
    }
}

} // verus!
