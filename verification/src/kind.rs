//! The fixed set of builders and the endpoint of each.

use vstd::prelude::*;

verus! {

/// Mathematical model of a [`BuilderEndpoint`]: the two strings it holds.
pub struct EndpointModel {
    pub url: Seq<char>,
    pub rpc_method: Seq<char>,
}

/// Where a builder listens and which RPC method it expects.
#[derive(Debug)]
pub struct BuilderEndpoint {
    url: String,
    rpc_method: String,
}

impl View for BuilderEndpoint {
    type V = EndpointModel;

    closed spec fn view(&self) -> EndpointModel {
        EndpointModel { url: self.url@, rpc_method: self.rpc_method@ }
    }
}

impl BuilderEndpoint {
    /// An endpoint made of copies of the two strings.
    pub fn new(url: &str, rpc_method: &str) -> (endpoint: Self)
        ensures
            endpoint@.url == url@,
            endpoint@.rpc_method == rpc_method@,
    {
        Self { url: url.to_owned(), rpc_method: rpc_method.to_owned() }
    }

    /// The address of the builder.
    pub fn url(&self) -> (url: &str)
        ensures
            url@ == self@.url,
    {
        self.url.as_str()
    }

    /// The name of the method the builder is called with.
    pub fn rpc_method(&self) -> (rpc_method: &str)
        ensures
            rpc_method@ == self@.rpc_method,
    {
        self.rpc_method.as_str()
    }

    /// Splits the endpoint into its address and its method name.
    pub fn into_parts(self) -> (parts: (String, String))
        ensures
            parts.0@ == self@.url,
            parts.1@ == self@.rpc_method,
    {
        (self.url, self.rpc_method)
    }
}

/// One of the relay services a transaction can be handed to.
#[derive(Clone, Copy, Debug, PartialEq, Eq, Structural)]
pub enum BuilderKind {
    Titan,
    Beaver,
    Rsync,
}

impl BuilderKind {
    /// Position of the kind in the enumeration order.
    pub open spec fn ordinal(self) -> int {
        match self {
            BuilderKind::Titan => 0,
            BuilderKind::Beaver => 1,
            BuilderKind::Rsync => 2,
        }
    }

    /// Every kind, in enumeration order.
    pub open spec fn spec_all() -> Seq<BuilderKind> {
        seq![BuilderKind::Titan, BuilderKind::Beaver, BuilderKind::Rsync]
    }

    /// The endpoint that belongs to the kind.
    pub open spec fn spec_endpoint(self) -> EndpointModel {
        match self {
            BuilderKind::Titan => EndpointModel {
                url: "https://rpc.titanbuilder.xyz"@,
                rpc_method: "eth_sendPrivateTransaction"@,
            },
            BuilderKind::Beaver => EndpointModel {
                url: "https://mevshare-rpc.beaverbuild.org"@,
                rpc_method: "eth_sendPrivateRawTransaction"@,
            },
            BuilderKind::Rsync => EndpointModel {
                url: "https://rsync-builder.xyz"@,
                rpc_method: "eth_sendPrivateRawTransaction"@,
            },
        }
    }

    /// The name the kind is shown under.
    pub open spec fn spec_name(self) -> Seq<char> {
        match self {
            BuilderKind::Titan => "Titan"@,
            BuilderKind::Beaver => "Beaver"@,
            BuilderKind::Rsync => "Rsync"@,
        }
    }

    /// Every kind once, always in the same order.
    pub fn all() -> (kinds: Vec<BuilderKind>)
        ensures
            kinds@ == Self::spec_all(),
    {
        let kinds = vec![BuilderKind::Titan, BuilderKind::Beaver, BuilderKind::Rsync];
        assert(kinds@ =~= Self::spec_all());
        kinds
    }

    /// The endpoint of the kind: a lookup that cannot fail.
    pub fn endpoint(&self) -> (endpoint: BuilderEndpoint)
        ensures
            endpoint@ == self.spec_endpoint(),
    {
        match self {
            BuilderKind::Titan => {
                BuilderEndpoint::new("https://rpc.titanbuilder.xyz", "eth_sendPrivateTransaction")
            },
            BuilderKind::Beaver => BuilderEndpoint::new(
                "https://mevshare-rpc.beaverbuild.org",
                "eth_sendPrivateRawTransaction",
            ),
            BuilderKind::Rsync => {
                BuilderEndpoint::new("https://rsync-builder.xyz", "eth_sendPrivateRawTransaction")
            },
        }
    }

    /// The name the kind is shown under in diagnostics.
    pub fn name(&self) -> (name: String)
        ensures
            name@ == self.spec_name(),
    {
        match self {
            BuilderKind::Titan => "Titan".to_owned(),
            BuilderKind::Beaver => "Beaver".to_owned(),
            BuilderKind::Rsync => "Rsync".to_owned(),
        }
    }
}

/// The enumeration lists every kind exactly once, each at its ordinal.
pub proof fn lemma_enumeration_is_complete(kind: BuilderKind)
    ensures
        BuilderKind::spec_all().len() == 3,
        0 <= kind.ordinal() < 3,
        BuilderKind::spec_all()[kind.ordinal()] == kind,
        forall|i: int|
            0 <= i < 3 && BuilderKind::spec_all()[i] == kind ==> i == kind.ordinal(),
{
}

} // verus!
