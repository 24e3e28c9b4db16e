//! Routing: deciding which node or nodes of a cluster a command or a
//! pipeline is sent to.
use vstd::prelude::*;

verus! {

/// Which node of a slot's shard may serve the request.
#[derive(Clone, Copy, PartialEq, Eq, Structural, Debug)]
pub enum SlotAddr {
    /// The request must go to the primary node.
    Master,
    /// The request may go to a replica.
    ReplicaOptional,
    /// The request must go to a replica, if one exists.
    ReplicaRequired,
}

/// A key slot together with the kind of node that may serve it.
#[derive(Clone, Copy, PartialEq, Eq, Structural, Debug)]
pub struct SlotRoute {
    /// The key slot the request belongs to.
    pub slot: u16,
    /// The kind of node that may serve the request.
    pub addr: SlotAddr,
}

/// A single destination for a request.
#[derive(Clone, PartialEq, Debug)]
pub enum SingleNodeRoute {
    /// Any node, chosen arbitrarily.
    Random,
    /// Any primary node, chosen arbitrarily.
    RandomPrimary,
    /// The node serving a specific slot.
    SpecificNode(SlotRoute),
    /// The node with the given address.
    ByAddress {
        /// Hostname of the node.
        host: String,
        /// Port of the node.
        port: u16,
    },
}

/// Caller-supplied routing for a request: one node, or several (the latter
/// is meaningful only for single commands in cluster mode).
#[derive(Clone, PartialEq, Debug)]
pub enum RoutingInfo {
    /// Route to one node.
    SingleNode(SingleNodeRoute),
    /// Route to several nodes at once.
    MultiNode,
}

/// How a single command reaches its destination in cluster mode.
#[derive(Clone, PartialEq, Debug)]
pub enum CommandRoute {
    /// The caller supplied routing; it is used verbatim.
    Explicit(RoutingInfo),
    /// No caller routing: the connection derives the destination from the
    /// command's key, falling back to an arbitrary single node when no
    /// deterministic key exists.
    DeriveFromCommand,
}

/// The destination a pipeline resolves to: an explicit single-node route is
/// kept; everything else — no routing, or a multi-node request — is
/// downgraded to an arbitrary single node.
pub open spec fn pipeline_route_spec(routing: Option<RoutingInfo>) -> SingleNodeRoute {
    match routing {
        Some(RoutingInfo::SingleNode(s)) => s,
        _ => SingleNodeRoute::Random,
    }
}

/// Resolves the destination of a pipeline. Only a single destination is
/// accepted: an explicit single-node route is used verbatim, and anything
/// else — no routing, or an explicit multi-node request — is silently
/// downgraded to an arbitrary single node.
pub fn resolve_pipeline_route(routing: Option<RoutingInfo>) -> (r: SingleNodeRoute)
    ensures
        r == pipeline_route_spec(routing),
{
    match routing {
        Some(RoutingInfo::SingleNode(s)) => s,
        _ => SingleNodeRoute::Random,
    }
}

/// A pipeline never resolves to a multi-destination route: whatever the
/// caller asked for, the destination it is sent to names a single node.
pub proof fn lemma_pipeline_route_never_multi(routing: Option<RoutingInfo>)
    ensures
        !(RoutingInfo::SingleNode(pipeline_route_spec(routing)) is MultiNode),
{
}

/// Resolves the destination of a single command in cluster mode: routing
/// supplied by the caller takes precedence and is used verbatim; without it
/// the connection derives the destination from the command's key, falling
/// back to an arbitrary single node.
pub fn resolve_command_route(routing: Option<RoutingInfo>) -> (r: CommandRoute)
    ensures
        routing matches Some(ri) ==> r == CommandRoute::Explicit(ri),
        routing is None ==> r == CommandRoute::DeriveFromCommand,
{
    match routing {
        Some(ri) => CommandRoute::Explicit(ri),
        None => CommandRoute::DeriveFromCommand,
    }
}

} // verus!
