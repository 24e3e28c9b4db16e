//! Tests of the configuration glue, the routing resolvers and the
//! sanitized summary.
use glide_core::config::{
    chars_to_string_option, cluster_connection_plan, get_connection_info, get_port,
    get_redis_connection_info, to_duration, AuthenticationInfo, ConnectionAddr, ConnectionRequest,
    NodeAddress, ReadFrom, RetryStrategy, TlsMode,
};
use glide_core::routing::{
    resolve_command_route, resolve_pipeline_route, CommandRoute, RoutingInfo, SingleNodeRoute,
    SlotAddr, SlotRoute,
};
use glide_core::summary::{format_non_zero_value, sanitized_request_string};

fn addr(host: &str, port: u32) -> NodeAddress {
    NodeAddress { host: host.to_owned(), port }
}

fn base_request() -> ConnectionRequest {
    ConnectionRequest {
        addresses: vec![addr("a.example", 0), addr("b.example", 7000)],
        tls_mode: TlsMode::NoTls,
        cluster_mode_enabled: true,
        authentication_info: None,
        database_id: 0,
        use_resp3: true,
        read_from: ReadFrom::Primary,
        request_timeout: 0,
        connection_retry_strategy: None,
    }
}

#[test]
fn get_port_defaults_and_truncates() {
    assert_eq!(get_port(&addr("h", 0)), 6379);
    assert_eq!(get_port(&addr("h", 7001)), 7001);
    assert_eq!(get_port(&addr("h", 65536 + 5)), 5);
}

#[test]
fn chars_to_string_option_drops_empty() {
    assert_eq!(chars_to_string_option(&String::new()), None);
    assert_eq!(chars_to_string_option(&"user".to_owned()), Some("user".to_owned()));
}

#[test]
fn to_duration_falls_back_to_default() {
    assert_eq!(to_duration(0, 250), 250);
    assert_eq!(to_duration(75, 250), 75);
}

#[test]
fn redis_connection_info_drops_empty_credentials() {
    let info = get_redis_connection_info(
        &Some(AuthenticationInfo { username: String::new(), password: "pw".to_owned() }),
        3,
        true,
    );
    assert_eq!(info.db, 3);
    assert_eq!(info.username, None);
    assert_eq!(info.password, Some("pw".to_owned()));
    assert!(info.use_resp3);
    let info = get_redis_connection_info(&None, 0, false);
    assert_eq!(info.username, None);
    assert_eq!(info.password, None);
}

#[test]
fn connection_info_follows_tls_mode() {
    let settings = get_redis_connection_info(&None, 0, false);
    let info = get_connection_info(&addr("h", 0), TlsMode::NoTls, settings.clone());
    assert_eq!(info.addr, ConnectionAddr::Tcp { host: "h".to_owned(), port: 6379 });
    let info = get_connection_info(&addr("h", 7000), TlsMode::SecureTls, settings.clone());
    assert_eq!(
        info.addr,
        ConnectionAddr::TcpTls { host: "h".to_owned(), port: 7000, insecure: false }
    );
    let info = get_connection_info(&addr("h", 7000), TlsMode::InsecureTls, settings);
    assert_eq!(
        info.addr,
        ConnectionAddr::TcpTls { host: "h".to_owned(), port: 7000, insecure: true }
    );
}

#[test]
fn cluster_plan_translates_every_address() {
    let mut request = base_request();
    request.read_from = ReadFrom::PreferReplica;
    let plan = cluster_connection_plan(&request);
    assert_eq!(plan.initial_nodes.len(), 2);
    assert_eq!(
        plan.initial_nodes[0].addr,
        ConnectionAddr::Tcp { host: "a.example".to_owned(), port: 6379 }
    );
    assert_eq!(
        plan.initial_nodes[1].addr,
        ConnectionAddr::Tcp { host: "b.example".to_owned(), port: 7000 }
    );
    // Cluster connections always select database 0.
    assert_eq!(plan.initial_nodes[0].redis.db, 0);
    assert!(plan.read_from_replicas);
    assert!(plan.use_resp3);
    let plan = cluster_connection_plan(&base_request());
    assert!(!plan.read_from_replicas);
}

#[test]
fn pipeline_routing_downgrades_to_single_node() {
    // An explicit multi-destination request is silently downgraded.
    assert_eq!(
        resolve_pipeline_route(Some(RoutingInfo::MultiNode)),
        SingleNodeRoute::Random
    );
    assert_eq!(resolve_pipeline_route(None), SingleNodeRoute::Random);
    let slot = SingleNodeRoute::SpecificNode(SlotRoute { slot: 42, addr: SlotAddr::Master });
    assert_eq!(
        resolve_pipeline_route(Some(RoutingInfo::SingleNode(slot.clone()))),
        slot
    );
}

#[test]
fn command_routing_prefers_caller_choice() {
    let ri = RoutingInfo::SingleNode(SingleNodeRoute::RandomPrimary);
    assert_eq!(
        resolve_command_route(Some(ri.clone())),
        CommandRoute::Explicit(ri)
    );
    assert_eq!(resolve_command_route(None), CommandRoute::DeriveFromCommand);
}

#[test]
fn format_non_zero_value_renders_exactly() {
    assert_eq!(format_non_zero_value("response timeout", 0), "");
    assert_eq!(format_non_zero_value("response timeout", 42), "\nresponse timeout: 42");
    assert_eq!(format_non_zero_value("database ID", 1000), "\ndatabase ID: 1000");
}

#[test]
fn sanitized_summary_renders_exactly() {
    let mut request = base_request();
    request.request_timeout = 250;
    request.database_id = 4;
    request.connection_retry_strategy =
        Some(RetryStrategy { number_of_retries: 3, exponent_base: 10, factor: 2 });
    let s = sanitized_request_string(&request);
    assert_eq!(
        s,
        "\naddresses: a.example:0, b.example:7000\
         \nTLS mode: NoTls\
         \ncluster mode: true\
         \nresponse timeout: 250\
         \nRead from replica strategy: Primary\
         \ndatabase ID: 4\
         \nreconnect backoff strategy: number of increasing duration retries: 3, base: 10, factor: 2"
    );
}

#[test]
fn sanitized_summary_never_contains_credentials() {
    let mut request = base_request();
    request.authentication_info = Some(AuthenticationInfo {
        username: "admin".to_owned(),
        password: "SECRET-REDACTED".to_owned(),
    });
    let with_auth = sanitized_request_string(&request);
    assert!(!with_auth.contains("SECRET-REDACTED"));
    assert!(!with_auth.contains("admin"));
    let mut stripped = request.clone();
    stripped.authentication_info = None;
    assert_eq!(with_auth, sanitized_request_string(&stripped));
}

#[test]
fn pipeline_routing_keeps_by_address() {
    let by_addr = SingleNodeRoute::ByAddress { host: "n1.example".to_owned(), port: 7005 };
    assert_eq!(
        resolve_pipeline_route(Some(RoutingInfo::SingleNode(by_addr.clone()))),
        by_addr
    );
}

#[test]
fn sanitized_summary_minimal_request() {
    let request = ConnectionRequest {
        addresses: vec![addr("h", 0)],
        tls_mode: TlsMode::SecureTls,
        cluster_mode_enabled: false,
        authentication_info: None,
        database_id: 0,
        use_resp3: false,
        read_from: ReadFrom::PreferReplica,
        request_timeout: 0,
        connection_retry_strategy: None,
    };
    let s = sanitized_request_string(&request);
    assert_eq!(
        s,
        "\naddresses: h:0\
         \nTLS mode: SecureTls\
         \ncluster mode: false\
         \nRead from replica strategy: PreferReplica"
    );
}
