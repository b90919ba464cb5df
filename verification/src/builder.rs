//! A client bound to one builder, and how its replies are read.

use vstd::prelude::*;
use jsonrpsee::http_client::HttpClient;
use serde_json::Value;
use crate::diagnostic::{Diagnostic, DiagnosticEvent};
use crate::kind::BuilderKind;
use crate::payload::{params_json, spec_params, CallModel, RpcCall};

verus! {

/// `jsonrpsee::http_client::HttpClient`, the transport a builder is reached through.
/// Nothing is known of what it holds.
#[verifier::external_type_specification]
#[verifier::external_body]
#[verifier::reject_recursive_types(S)]
pub struct ExHttpClient<S>(jsonrpsee::http_client::HttpClient<S>);

/// `jsonrpsee::http_client::RpcLogger`, the outer layer of the default transport.
#[verifier::external_type_specification]
#[verifier::external_body]
#[verifier::reject_recursive_types(S)]
pub struct ExRpcLogger<S>(jsonrpsee::http_client::RpcLogger<S>);

/// `jsonrpsee::http_client::RpcService`, the middle layer of the default transport.
#[verifier::external_type_specification]
#[verifier::external_body]
#[verifier::reject_recursive_types(HttpMiddleware)]
pub struct ExRpcService<HttpMiddleware>(jsonrpsee::http_client::RpcService<HttpMiddleware>);

/// `jsonrpsee::http_client::HttpBackend`, the connection of the default transport.
#[verifier::external_type_specification]
#[verifier::external_body]
#[verifier::reject_recursive_types(B)]
pub struct ExHttpBackend<B>(jsonrpsee::http_client::HttpBackend<B>);

/// `jsonrpsee::http_client::HttpBody`, the body type of the default transport.
#[verifier::external_type_specification]
#[verifier::external_body]
pub struct ExHttpBody(jsonrpsee::http_client::HttpBody);

/// `jsonrpsee::core::ClientError`, what a transport reports when a call or its
/// construction fails.
#[verifier::external_type_specification]
#[verifier::external_body]
pub struct ExClientError(jsonrpsee::core::ClientError);

/// `serde_json::Value`, a JSON document.
#[verifier::external_type_specification]
#[verifier::external_body]
pub struct ExValue(serde_json::Value);

/// The names of the members of a JSON document at its top level: those of the
/// object it is, and none where it is anything but an object.
pub uninterp spec fn json_members(value: Value) -> Set<Seq<char>>;

/// Calls `serde_json::Value::get` with a string index. Trusted: the lookup finds
/// something exactly when the document is an object with a member of that name.
#[verifier::external_body]
fn member<'a>(value: &'a Value, name: &str) -> (found: Option<&'a Value>)
    ensures
        found is Some <==> json_members(*value).contains(name@),
{
    value.get(name)
}

/// Calls `jsonrpsee::http_client::HttpClientBuilder::build` on the default
/// builder with both body limits set. Nothing is claimed of the outcome: the
/// transport decides whether it can be set up for the address.
#[verifier::external_body]
fn build_client(url: &str, max_body_size: u32) -> (client: Result<
    HttpClient,
    jsonrpsee::core::ClientError,
>) {
    jsonrpsee::http_client::HttpClientBuilder::default()
        .max_request_size(max_body_size)
        .max_response_size(max_body_size)
        .build(url)
}

/// The largest body, in bytes, that a client sends or accepts: 10 MiB.
pub const MAX_BODY_SIZE: u32 = 10 * 1024 * 1024;

/// Why a builder did not take a transaction.
#[derive(Debug)]
pub enum BuilderError {
    /// The transport failed, at construction or during the call.
    ClientError(jsonrpsee::core::ClientError),
    /// The builder answered, and its answer carries an error.
    InvalidResponse(Value),
}

/// How the answer of a builder is read.
#[derive(Clone, Copy, Debug, PartialEq, Eq, Structural)]
pub enum ResponseClassification {
    Success,
    Failure,
}

impl ResponseClassification {
    /// An answer is a failure exactly when it has a member `error` at its top
    /// level, whatever else it holds.
    pub open spec fn spec_of(members: Set<Seq<char>>) -> ResponseClassification {
        if members.contains("error"@) {
            ResponseClassification::Failure
        } else {
            ResponseClassification::Success
        }
    }

    /// The classification of an answer, given whether it has a top-level
    /// member `error`.
    pub fn of(has_error_member: bool) -> (class: ResponseClassification)
        ensures
            class == if has_error_member {
                ResponseClassification::Failure
            } else {
                ResponseClassification::Success
            },
    {
        if has_error_member {
            ResponseClassification::Failure
        } else {
            ResponseClassification::Success
        }
    }
}

/// Reads the answer of a builder.
pub fn classify_response(response: &Value) -> (class: ResponseClassification)
    ensures
        class == ResponseClassification::spec_of(json_members(*response)),
{
    ResponseClassification::of(member(response, "error").is_some())
}

/// What a call to a builder came to, given what the transport handed back.
pub open spec fn spec_outcome(reply: Result<Value, jsonrpsee::core::ClientError>) -> Result<
    (),
    BuilderError,
> {
    match reply {
        Err(error) => Err(BuilderError::ClientError(error)),
        Ok(response) => match ResponseClassification::spec_of(json_members(response)) {
            ResponseClassification::Failure => Err(BuilderError::InvalidResponse(response)),
            ResponseClassification::Success => Ok(()),
        },
    }
}

/// What a client hands out before a call: the call to issue, and the record
/// of the attempt.
#[derive(Debug)]
pub struct Attempt {
    pub call: RpcCall,
    pub record: Diagnostic,
}

/// Mathematical model of an [`Attempt`].
pub struct AttemptModel {
    pub call: CallModel,
    pub record: Diagnostic,
}

impl View for Attempt {
    type V = AttemptModel;

    open spec fn view(&self) -> AttemptModel {
        AttemptModel { call: self.call@, record: self.record }
    }
}

/// What a client makes of the end of a call: the outcome, and the record of it.
#[derive(Debug)]
pub struct Completion {
    pub outcome: Result<(), BuilderError>,
    pub record: Diagnostic,
}

/// A client bound to the endpoint of one builder.
pub struct Builder {
    client: HttpClient,
    rpc_method: String,
    kind: BuilderKind,
}

impl Builder {
    /// The method name a client holds is the one of its kind.
    #[verifier::type_invariant]
    closed spec fn bound_to_kind(self) -> bool {
        self.rpc_method@ == self.kind.spec_endpoint().rpc_method
    }

    /// The builder the client talks to.
    pub closed spec fn spec_kind(self) -> BuilderKind {
        self.kind
    }

    /// The transport the client owns.
    pub closed spec fn spec_client(self) -> HttpClient {
        self.client
    }

    /// The call the client issues for a transaction.
    pub open spec fn spec_call(self, tx: Seq<u8>) -> CallModel {
        CallModel {
            method: self.spec_kind().spec_endpoint().rpc_method,
            params: spec_params(tx),
        }
    }

    /// What the client hands out for a transaction: its call, and a record of
    /// the attempt under its kind.
    pub open spec fn spec_attempt(self, tx: Seq<u8>) -> AttemptModel {
        AttemptModel {
            call: self.spec_call(tx),
            record: Diagnostic { kind: self.spec_kind(), event: DiagnosticEvent::Attempt },
        }
    }

    /// What the client makes of the end of a call: the outcome, and a record
    /// of it under its kind.
    pub open spec fn spec_completion(
        self,
        reply: Result<Value, jsonrpsee::core::ClientError>,
    ) -> Completion {
        Completion {
            outcome: spec_outcome(reply),
            record: Diagnostic::spec_outcome(self.spec_kind(), spec_outcome(reply)),
        }
    }

    /// Binds a transport, or the failure to set one up, to a kind.
    pub fn with_client(
        kind: BuilderKind,
        client: Result<HttpClient, jsonrpsee::core::ClientError>,
    ) -> (built: Result<Builder, BuilderError>)
        ensures
            match client {
                Ok(transport) => built is Ok && built->Ok_0.spec_kind() == kind
                    && built->Ok_0.spec_client() == transport,
                Err(error) => built == Err::<Builder, BuilderError>(
                    BuilderError::ClientError(error),
                ),
            },
    {
        match client {
            Ok(transport) => {
                let (_, rpc_method) = kind.endpoint().into_parts();
                Ok(Builder { client: transport, rpc_method, kind })
            },
            Err(error) => Err(BuilderError::ClientError(error)),
        }
    }

    /// The builder the client talks to.
    pub fn kind(&self) -> (kind: BuilderKind)
        ensures
            kind == self.spec_kind(),
    {
        self.kind
    }

    /// The method the client calls.
    pub fn rpc_method(&self) -> (rpc_method: &str)
        ensures
            rpc_method@ == self.spec_kind().spec_endpoint().rpc_method,
    {
        proof {
            use_type_invariant(self);
        }
        self.rpc_method.as_str()
    }

    /// The transport, for whoever issues the call.
    pub fn client(&self) -> (client: &HttpClient)
        ensures
            *client == self.spec_client(),
    {
        &self.client
    }

    /// The one call that hands a transaction to this builder: the method of its
    /// kind, and the transaction as the only parameter; with it the record of
    /// the attempt. Nothing is remembered of it: the same bytes give the same
    /// call each time.
    pub fn send_tx(&self, tx: &[u8]) -> (attempt: Attempt)
        ensures
            attempt@ == self.spec_attempt(tx@),
    {
        proof {
            use_type_invariant(self);
        }
        Attempt {
            call: RpcCall { method: self.rpc_method.clone(), params: params_json(tx) },
            record: Diagnostic::attempt(self.kind),
        }
    }

    /// What the call came to. A transport failure and an answer that carries an
    /// error both end it; any other answer is an acceptance. The record tells
    /// which of the two it was, under the kind of this client.
    pub fn receive(&self, reply: Result<Value, jsonrpsee::core::ClientError>) -> (completion:
        Completion)
        ensures
            completion == self.spec_completion(reply),
    {
        let outcome = match reply {
            Err(error) => Err(BuilderError::ClientError(error)),
            Ok(response) => match classify_response(&response) {
                ResponseClassification::Failure => Err(BuilderError::InvalidResponse(response)),
                ResponseClassification::Success => Ok(()),
            },
        };
        let record = Diagnostic::outcome(self.kind, &outcome);
        Completion { outcome, record }
    }
}

impl BuilderKind {
    /// Sets up a client for the builder, with the body limit on both directions.
    /// Whether the transport can be set up is not decided here; when it can, the
    /// client is bound to this kind, and when it cannot, the transport's own
    /// error is handed on.
    pub fn builder(&self) -> (built: Result<Builder, BuilderError>)
        ensures
            built is Ok ==> built->Ok_0.spec_kind() == *self,
            built is Err ==> built->Err_0 is ClientError,
    {
        let endpoint = self.endpoint();
        let client = build_client(endpoint.url(), MAX_BODY_SIZE);
        Builder::with_client(*self, client)
    }
}

} // verus!
