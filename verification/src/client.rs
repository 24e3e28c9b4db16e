//! The client facade: one topology, one fixed request timeout, and the
//! dispatch logic for single commands and pipelines.
//!
//! The network collaborators live outside this crate. Each call here takes
//! the collaborator's outcome — the raw reply, a protocol failure, or the
//! fact that the deadline fired first — and produces exactly what the caller
//! of the client observes.
use vstd::prelude::*;
use crate::command::{expected_of, Command};
use crate::config::{duration_of, ConnectionRequest};
use crate::convert::{
    conversion_error, convert_to_expected_type, converts_to, TypeConversionError,
};
use crate::errors::{ConnectionError, RequestError};
use crate::value::{ExpectedReturnType, RawValue};

verus! {

/// The topology a client was constructed with: a single-node connection or
/// a cluster connection. The variant is fixed for the client's whole
/// lifetime; the connection handles themselves live with the collaborator.
#[derive(Clone, Copy, PartialEq, Eq, Structural, Debug)]
pub enum ClientWrapper {
    /// One connection to a single node.
    Standalone,
    /// A connection to a sharded cluster.
    Cluster,
}

/// A client: exactly one topology plus a fixed per-request timeout in
/// milliseconds, set at construction and never mutated afterwards.
#[derive(Clone, Copy, PartialEq, Eq, Structural, Debug)]
pub struct Client {
    /// The topology the client dispatches to.
    pub internal_client: ClientWrapper,
    /// Milliseconds every call waits before it fails with a timeout.
    pub request_timeout: u64,
}

/// An ordered batch of commands, together with the window of the reply
/// sequence that carries genuine user-visible results; entries outside the
/// window are protocol bookkeeping that the collaborator discards before
/// the replies reach this crate.
#[derive(Clone, Debug)]
pub struct Pipeline {
    /// The commands, in order.
    pub commands: Vec<Command>,
    /// Index of the first genuine reply.
    pub offset: usize,
    /// How many genuine replies there are.
    pub count: usize,
}

/// How a collaborator operation under the timeout guard ended: it completed
/// with a result (success or a protocol-level failure, whose detail text is
/// carried verbatim), or the deadline fired first.
pub enum CallOutcome<T> {
    /// The operation completed before the deadline.
    Completed(Result<T, String>),
    /// The deadline fired first. The operation is not cancelled at the far
    /// end and may still complete server-side.
    TimedOut,
}

/// How a construction attempt ended: a live connection, a collaborator
/// failure with its detail text, or the construction deadline fired first.
pub enum ConnectionOutcome {
    /// The connection is live.
    Connected,
    /// The collaborator could not establish the connection.
    Failed(String),
    /// The construction deadline fired first.
    TimedOut,
}

/// Resolves an operation raced against its deadline: a completed operation
/// keeps its own result, with a protocol failure carried verbatim, and a
/// fired deadline becomes the distinguished timeout failure.
pub fn run_with_timeout<T>(outcome: CallOutcome<T>) -> (r: Result<T, RequestError>)
    ensures
        match outcome {
            CallOutcome::Completed(res) => match res {
                Ok(v) => r == Ok::<T, RequestError>(v),
                Err(d) => r == Err::<T, RequestError>(RequestError::Protocol(d)),
            },
            CallOutcome::TimedOut => r == Err::<T, RequestError>(RequestError::Timeout),
        },
{
    match outcome {
        CallOutcome::Completed(Ok(v)) => Ok(v),
        CallOutcome::Completed(Err(d)) => Err(RequestError::Protocol(d)),
        CallOutcome::TimedOut => Err(RequestError::Timeout),
    }
}

/// The expected return type of the command at one position of a pipeline.
pub open spec fn expected_at(cmds: Seq<Command>, i: int) -> Option<ExpectedReturnType> {
    expected_of(cmds[i].args.deep_view())
}

/// How many replies a pipeline call yields: one per reply the collaborator
/// returned, paired position-wise with the commands.
pub open spec fn pipeline_len(values: Seq<RawValue>, cmds: Seq<Command>) -> int {
    if values.len() <= cmds.len() {
        values.len() as int
    } else {
        cmds.len() as int
    }
}

/// The first coercion error among the replies from position `i` on, pairing
/// each reply with its own command's classification; `None` when every
/// coercion from `i` on succeeds.
pub open spec fn first_conversion_error_from(
    values: Seq<RawValue>,
    cmds: Seq<Command>,
    i: int,
) -> Option<TypeConversionError>
    decreases pipeline_len(values, cmds) - i,
{
    if i < 0 || i >= pipeline_len(values, cmds) {
        None
    } else {
        match conversion_error(values[i], expected_at(cmds, i)) {
            Some(e) => Some(e),
            None => first_conversion_error_from(values, cmds, i + 1),
        }
    }
}

/// The first coercion error of a whole pipeline reply sequence; `None` when
/// every reply coerces.
pub open spec fn first_conversion_error(values: Seq<RawValue>, cmds: Seq<Command>) -> Option<
    TypeConversionError,
> {
    first_conversion_error_from(values, cmds, 0)
}

/// With no coercion error before position `i`, the first error of the whole
/// sequence is the first error from `i` on.
proof fn lemma_first_error_skip(values: Seq<RawValue>, cmds: Seq<Command>, i: int)
    requires
        0 <= i <= pipeline_len(values, cmds),
        forall|j: int| 0 <= j < i ==> conversion_error(values[j], #[trigger] expected_at(cmds, j)) is None,
    ensures
        first_conversion_error(values, cmds) == first_conversion_error_from(values, cmds, i),
    decreases i,
{
    if i > 0 {
        lemma_first_error_skip(values, cmds, i - 1);
        assert(conversion_error(values[i - 1], expected_at(cmds, i - 1)) is None);
    }
}

impl Client {
    /// Constructs a client from a connection request and the outcome of the
    /// collaborator's construction attempt, made under the overall
    /// construction deadline. A fired deadline supersedes any partial
    /// failure; a collaborator failure is labelled with the topology that
    /// was being built; on success the topology follows the cluster-mode
    /// flag exactly, and the request timeout is fixed to the requested
    /// value, with `0` falling back to the default.
    pub fn new(request: &ConnectionRequest, outcome: ConnectionOutcome) -> (r: Result<
        Client,
        ConnectionError,
    >)
        ensures
            match outcome {
                ConnectionOutcome::TimedOut => r == Err::<Client, ConnectionError>(
                    ConnectionError::Timeout,
                ),
                ConnectionOutcome::Failed(d) => r == Err::<Client, ConnectionError>(
                    if request.cluster_mode_enabled {
                        ConnectionError::Cluster(d)
                    } else {
                        ConnectionError::Standalone(d)
                    },
                ),
                ConnectionOutcome::Connected => r == Ok::<Client, ConnectionError>(
                    Client {
                        internal_client: if request.cluster_mode_enabled {
                            ClientWrapper::Cluster
                        } else {
                            ClientWrapper::Standalone
                        },
                        request_timeout: duration_of(
                            request.request_timeout,
                            crate::DEFAULT_RESPONSE_TIMEOUT_MS,
                        ),
                    },
                ),
            },
    {
        let request_timeout = crate::config::to_duration(
            request.request_timeout,
            crate::DEFAULT_RESPONSE_TIMEOUT_MS,
        );
        match outcome {
            ConnectionOutcome::TimedOut => Err(ConnectionError::Timeout),
            ConnectionOutcome::Failed(d) => {
                if request.cluster_mode_enabled {
                    Err(ConnectionError::Cluster(d))
                } else {
                    Err(ConnectionError::Standalone(d))
                }
            },
            ConnectionOutcome::Connected => Ok(
                Client {
                    internal_client: if request.cluster_mode_enabled {
                        ClientWrapper::Cluster
                    } else {
                        ClientWrapper::Standalone
                    },
                    request_timeout,
                },
            ),
        }
    }

    /// Dispatches one command: given the outcome of the collaborator's send
    /// under the request timeout, produces what the caller observes. A
    /// fired deadline becomes the timeout failure and a protocol failure is
    /// carried verbatim; a raw reply is coerced to the semantic type the
    /// command's opcode calls for, and a coercion failure fails the call.
    /// The client itself is untouched by any outcome and stays usable.
    pub fn send_command(&self, cmd: &Command, outcome: CallOutcome<RawValue>) -> (r: Result<
        RawValue,
        RequestError,
    >)
        ensures
            match outcome {
                CallOutcome::TimedOut => r == Err::<RawValue, RequestError>(RequestError::Timeout),
                CallOutcome::Completed(res) => match res {
                    Err(d) => r == Err::<RawValue, RequestError>(RequestError::Protocol(d)),
                    Ok(v) => match conversion_error(v, expected_of(cmd.args.deep_view())) {
                        Some(e) => r == Err::<RawValue, RequestError>(
                            RequestError::TypeConversion(e),
                        ),
                        None => r matches Ok(out) && converts_to(
                            v,
                            expected_of(cmd.args.deep_view()),
                            out,
                        ),
                    },
                },
            },
    {
        let expected = crate::command::expected_type_for_cmd(cmd);
        let value = match run_with_timeout(outcome) {
            Ok(v) => v,
            Err(e) => {
                return Err(e);
            },
        };
        match convert_to_expected_type(value, expected) {
            Ok(out) => Ok(out),
            Err(e) => Err(RequestError::TypeConversion(e)),
        }
    }

    /// Dispatches a pipeline: given the outcome of the collaborator's
    /// windowed send under the request timeout, produces what the caller
    /// observes. A fired deadline becomes the timeout failure and a
    /// protocol failure is carried verbatim. The replies are paired
    /// position-wise with the original commands — classification is
    /// per-command, independent of the window — and coerced independently,
    /// preserving order; the first failing coercion fails the whole
    /// pipeline, so the caller never sees partial data.
    #[verifier::loop_isolation(false)]
    pub fn send_pipeline(&self, pipeline: &Pipeline, outcome: CallOutcome<Vec<RawValue>>) -> (r:
        Result<Vec<RawValue>, RequestError>)
        ensures
            match outcome {
                CallOutcome::TimedOut => r == Err::<Vec<RawValue>, RequestError>(
                    RequestError::Timeout,
                ),
                CallOutcome::Completed(res) => match res {
                    Err(d) => r == Err::<Vec<RawValue>, RequestError>(RequestError::Protocol(d)),
                    Ok(values) => match first_conversion_error(values@, pipeline.commands@) {
                        Some(e) => r == Err::<Vec<RawValue>, RequestError>(
                            RequestError::TypeConversion(e),
                        ),
                        None => r matches Ok(out) && out@.len() == pipeline_len(
                            values@,
                            pipeline.commands@,
                        ) && forall|i: int|
                            0 <= i < out@.len() ==> converts_to(
                                values@[i],
                                expected_at(pipeline.commands@, i),
                                #[trigger] out@[i],
                            ),
                    },
                },
            },
    {
        let values = match run_with_timeout(outcome) {
            Ok(v) => v,
            Err(e) => {
                return Err(e);
            },
        };
        let ghost orig: Seq<RawValue> = values@;
        let ghost cmds: Seq<Command> = pipeline.commands@;
        let mut rest = values;
        let mut out: Vec<RawValue> = Vec::new();
        let mut i: usize = 0;
        let n = if rest.len() <= pipeline.commands.len() {
            rest.len()
        } else {
            pipeline.commands.len()
        };
        proof {
            assert(n == pipeline_len(orig, cmds));
        }
        while i < n
            invariant
                n == pipeline_len(orig, cmds),
                0 <= i <= n,
                out@.len() == i,
                rest@ =~= orig.skip(i as int),
                forall|j: int|
                    0 <= j < i ==> conversion_error(
                        orig[j],
                        #[trigger] expected_at(cmds, j),
                    ) is None,
                forall|j: int|
                    0 <= j < i ==> converts_to(orig[j], expected_at(cmds, j), #[trigger] out@[j]),
                cmds == pipeline.commands@,
            decreases n - i,
        {
            proof {
                assert(rest@[0] == orig[i as int]);
            }
            let value = rest.remove(0);
            let expected = crate::command::expected_type_for_cmd(&pipeline.commands[i]);
            match convert_to_expected_type(value, expected) {
                Ok(converted) => {
                    out.push(converted);
                },
                Err(e) => {
                    proof {
                        lemma_first_error_skip(orig, cmds, i as int);
                    }
                    return Err(RequestError::TypeConversion(e));
                },
            }
            i = i + 1;
        }
        proof {
            lemma_first_error_skip(orig, cmds, n as int);
        }
        Ok(out)
    }
}

} // verus!
