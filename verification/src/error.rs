//! The failures a caller gets to see.

use vstd::prelude::*;

verus! {

/// Why a request as a whole failed.
#[derive(Clone, Copy, Debug, PartialEq, Eq, Structural)]
pub enum PrivateTransactionError {
    /// No client could be set up for any builder.
    FailedToGetBuilders,
    /// Every builder was called and none took the transaction.
    AllBuildersFailed,
}

/// Why a transaction did not reach any builder.
#[derive(Clone, Copy, Debug, PartialEq, Eq, Structural)]
pub enum TxError {
    /// Every builder was called and none took the transaction.
    AllBuildersFailed,
}

/// What a request ends with when it yields no hash: a failure of its own, or
/// the failure to decode the transaction, carried as it was reported.
#[derive(Debug)]
pub enum RequestError<E> {
    Private(PrivateTransactionError),
    Decode(E),
}

/// A failure as the caller is told of it: a code and a short message, and
/// nothing of any builder.
#[derive(Clone, Copy, Debug)]
pub struct RpcError {
    pub code: i32,
    pub message: &'static str,
}

impl PrivateTransactionError {
    /// The code the failure is reported under.
    pub open spec fn spec_code(self) -> i32 {
        match self {
            PrivateTransactionError::FailedToGetBuilders => -32000i32,
            PrivateTransactionError::AllBuildersFailed => -32001i32,
        }
    }

    /// The short message that goes with the code.
    pub open spec fn spec_text(self) -> &'static str {
        match self {
            PrivateTransactionError::FailedToGetBuilders => "No builders available",
            PrivateTransactionError::AllBuildersFailed => "All builders failed to send tx",
        }
    }

    /// The characters of the short message.
    pub open spec fn spec_message(self) -> Seq<char> {
        self.spec_text()@
    }

    /// The code the failure is reported under.
    pub fn code(&self) -> (code: i32)
        ensures
            code == self.spec_code(),
    {
        match self {
            PrivateTransactionError::FailedToGetBuilders => -32000,
            PrivateTransactionError::AllBuildersFailed => -32001,
        }
    }

    /// The short message that goes with the code. It names no builder and
    /// repeats nothing a builder said.
    pub fn message(&self) -> (message: String)
        ensures
            message@ == self.spec_message(),
    {
        match self {
            PrivateTransactionError::FailedToGetBuilders => "No builders available".to_owned(),
            PrivateTransactionError::AllBuildersFailed => {
                "All builders failed to send tx".to_owned()
            },
        }
    }
}

impl From<PrivateTransactionError> for RpcError {
    /// The failure as the caller is told of it.
    fn from(error: PrivateTransactionError) -> (reported: RpcError) {
        match error {
            PrivateTransactionError::FailedToGetBuilders => RpcError {
                code: -32000,
                message: "No builders available",
            },
            PrivateTransactionError::AllBuildersFailed => RpcError {
                code: -32001,
                message: "All builders failed to send tx",
            },
        }
    }
}

impl vstd::std_specs::convert::FromSpecImpl<PrivateTransactionError> for RpcError {
    open spec fn obeys_from_spec() -> bool {
        true
    }

    open spec fn from_spec(error: PrivateTransactionError) -> RpcError {
        RpcError { code: error.spec_code(), message: error.spec_text() }
    }
}

impl TxError {
    /// The short message of the failure.
    pub open spec fn spec_message(self) -> Seq<char> {
        "All builders failed to send tx"@
    }

    /// The short message of the failure.
    pub fn message(&self) -> (message: String)
        ensures
            message@ == self.spec_message(),
    {
        "All builders failed to send tx".to_owned()
    }
}

/// Two failures are reported under the same code only if they are the same failure.
pub proof fn lemma_codes_are_distinct(a: PrivateTransactionError, b: PrivateTransactionError)
    ensures
        a.spec_code() == b.spec_code() <==> a == b,
{
}

} // verus!
