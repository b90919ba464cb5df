//! The request as a whole: which clients take part, what each is sent, when the
//! request has succeeded, and what the caller is told.

use vstd::prelude::*;
use alloy_primitives::B256;
use crate::builder::{spec_outcome, Attempt, AttemptModel, Builder, BuilderError};
use crate::diagnostic::{Diagnostic, DiagnosticEvent};
use crate::error::{PrivateTransactionError, RequestError};
use crate::kind::BuilderKind;

verus! {

/// `alloy_primitives::FixedBytes`, of which the 32-byte form is a transaction
/// hash. It is carried from the decoder to the caller and never looked into.
#[verifier::external_type_specification]
#[verifier::external_body]
pub struct ExFixedBytes<const N: usize>(alloy_primitives::FixedBytes<N>);

/// The kinds of the clients in a list, in its order.
pub open spec fn spec_kinds(builders: Seq<Builder>) -> Seq<BuilderKind> {
    builders.map_values(|builder: Builder| builder.spec_kind())
}

/// The kinds that the records report a client for, in the order of the records.
pub open spec fn constructed_kinds(records: Seq<Diagnostic>) -> Seq<BuilderKind>
    decreases records.len(),
{
    if records.len() == 0 {
        Seq::empty()
    } else if records.last().event == DiagnosticEvent::Constructed {
        constructed_kinds(records.drop_last()).push(records.last().kind)
    } else {
        constructed_kinds(records.drop_last())
    }
}

/// The calls for a transaction, each with the record of its attempt: that of
/// each client of the list, in its order.
pub open spec fn spec_fan_out(builders: Seq<Builder>, tx: Seq<u8>) -> Seq<AttemptModel> {
    builders.map_values(|builder: Builder| builder.spec_attempt(tx))
}

/// At least one of the calls was accepted.
pub open spec fn any_accepted(results: Seq<Result<(), BuilderError>>) -> bool {
    exists|i: int| 0 <= i < results.len() && (#[trigger] results[i]) is Ok
}

/// The clients that could be set up, with a record for every kind tried and
/// the error of every kind that is left out.
pub struct Roster {
    pub builders: Vec<Builder>,
    pub records: Vec<Diagnostic>,
    pub failures: Vec<BuilderError>,
}

impl Roster {
    /// The clients are those the records report, in the same order.
    pub open spec fn consistent(self) -> bool {
        spec_kinds(self.builders@) == constructed_kinds(self.records@)
    }

    /// A roster with nothing tried yet.
    pub fn new() -> (roster: Roster)
        ensures
            roster.builders@.len() == 0,
            roster.records@.len() == 0,
            roster.failures@.len() == 0,
            roster.consistent(),
    {
        let roster = Roster { builders: Vec::new(), records: Vec::new(), failures: Vec::new() };
        assert(spec_kinds(roster.builders@) =~= constructed_kinds(roster.records@));
        roster
    }

    /// Takes in the attempt to set up a client for one kind: the client joins
    /// the list if there is one, the error is kept if there is none, and the
    /// attempt is recorded either way. A failure touches no other client.
    pub fn enlist(&mut self, kind: BuilderKind, built: Result<Builder, BuilderError>)
        ensures
            final(self).records@ == old(self).records@.push(
                Diagnostic::spec_construction(kind, built),
            ),
            final(self).builders@ == match built {
                Ok(builder) => old(self).builders@.push(builder),
                Err(_) => old(self).builders@,
            },
            final(self).failures@ == match built {
                Ok(_) => old(self).failures@,
                Err(error) => old(self).failures@.push(error),
            },
    {
        let record = Diagnostic::construction(kind, &built);
        self.records.push(record);
        match built {
            Ok(builder) => {
                self.builders.push(builder);
            },
            Err(error) => {
                self.failures.push(error);
            },
        }
    }
}

/// Adding a record of a client, and the client, keeps a roster consistent; so
/// does adding a record of a failure alone.
pub proof fn lemma_enlist_keeps_consistent(
    builders: Seq<Builder>,
    records: Seq<Diagnostic>,
    kind: BuilderKind,
    built: Result<Builder, BuilderError>,
)
    requires
        spec_kinds(builders) == constructed_kinds(records),
        built is Ok ==> built->Ok_0.spec_kind() == kind,
    ensures
        built is Ok ==> spec_kinds(builders.push(built->Ok_0)) == constructed_kinds(
            records.push(Diagnostic::spec_construction(kind, built)),
        ),
        built is Err ==> spec_kinds(builders) == constructed_kinds(
            records.push(Diagnostic::spec_construction(kind, built)),
        ),
{
    let record = Diagnostic::spec_construction(kind, built);
    assert(records.push(record).drop_last() =~= records);
    assert(records.push(record).last() == record);
    if built is Ok {
        assert(spec_kinds(builders.push(built->Ok_0)) =~= spec_kinds(builders).push(kind));
    }
}

/// Where the records stand in enumeration order, each kind at most once, so do
/// the clients they report, and each of these clients has a record of its own.
pub proof fn lemma_constructed_in_order(records: Seq<Diagnostic>)
    requires
        forall|i: int, j: int|
            0 <= i < j < records.len() ==> records[i].kind.ordinal() < records[j].kind.ordinal(),
    ensures
        constructed_kinds(records).len() <= records.len(),
        forall|k: int|
            0 <= k < constructed_kinds(records).len() ==> exists|i: int|
                0 <= i < records.len() && records[i].event == DiagnosticEvent::Constructed
                    && records[i].kind == #[trigger] constructed_kinds(records)[k],
        forall|k: int, l: int|
            0 <= k < l < constructed_kinds(records).len() ==> constructed_kinds(
                records,
            )[k].ordinal() < constructed_kinds(records)[l].ordinal(),
    decreases records.len(),
{
    if records.len() > 0 {
        let front = records.drop_last();
        let kinds = constructed_kinds(records);
        lemma_constructed_in_order(front);
        assert forall|k: int| 0 <= k < constructed_kinds(front).len() implies (
        #[trigger] constructed_kinds(front)[k]).ordinal() < records.last().kind.ordinal() by {
            let i = choose|i: int|
                0 <= i < front.len() && front[i].event == DiagnosticEvent::Constructed
                    && front[i].kind == constructed_kinds(front)[k];
            assert(records[i] == front[i]);
        }
        assert forall|k: int| 0 <= k < kinds.len() implies exists|i: int|
            0 <= i < records.len() && records[i].event == DiagnosticEvent::Constructed
                && records[i].kind == #[trigger] kinds[k] by {
            if k < constructed_kinds(front).len() {
                let i = choose|i: int|
                    0 <= i < front.len() && front[i].event == DiagnosticEvent::Constructed
                        && front[i].kind == constructed_kinds(front)[k];
                assert(records[i] == front[i]);
                assert(kinds[k] == constructed_kinds(front)[k]);
            } else {
                assert(records[records.len() - 1] == records.last());
            }
        }
        assert forall|k: int, l: int| 0 <= k < l < kinds.len() implies kinds[k].ordinal()
            < kinds[l].ordinal() by {
            assert(kinds[k] == constructed_kinds(front)[k]);
            if l < constructed_kinds(front).len() {
                assert(kinds[l] == constructed_kinds(front)[l]);
            }
        }
    }
}

/// The operation offered to callers: a raw signed transaction goes to every
/// builder, and the caller gets its hash if at least one of them took it.
#[derive(Clone, Copy, Debug)]
pub struct EthPrivateTransaction;

/// How far a request has come.
#[derive(Debug)]
pub enum Stage {
    /// The clients are being set up.
    Start,
    /// The transaction is being decoded; so many clients stand ready.
    Decoding { clients: usize },
    /// The calls are out, one to each client; the hash is that of the decoded
    /// transaction.
    Dispatching { hash: B256, clients: usize },
    /// The caller has its answer.
    Finished,
}

/// What the host reports back to a request.
#[derive(Debug)]
pub enum Event<E> {
    /// The clients were set up: so many of them.
    Built { clients: usize },
    /// The transaction was decoded, to its hash, or could not be.
    Decoded(Result<B256, E>),
    /// The calls have ended, each with its outcome.
    Joined(Vec<Result<(), BuilderError>>),
}

/// What a request asks of the host next.
#[derive(Debug)]
pub enum Action<E> {
    /// Decode the transaction and recover its signer.
    Decode,
    /// Issue the call of every client, and wait for all of them.
    Dispatch,
    /// Answer the caller.
    Reply(Result<B256, RequestError<E>>),
}

impl Stage {
    /// The event that a stage waits for. While the calls are out, that is the
    /// end of all of them: outcomes of only some are not waited for.
    pub open spec fn spec_expects<E>(self, event: Event<E>) -> bool {
        match (self, event) {
            (Stage::Start, Event::Built { .. }) => true,
            (Stage::Decoding { .. }, Event::Decoded(_)) => true,
            (Stage::Dispatching { clients, .. }, Event::Joined(results)) => results@.len()
                == clients,
            _ => false,
        }
    }

    /// Whether the event is the one this stage waits for.
    pub fn expects<E>(&self, event: &Event<E>) -> (expected: bool)
        ensures
            expected == self.spec_expects(*event),
    {
        match (self, event) {
            (Stage::Start, Event::Built { .. }) => true,
            (Stage::Decoding { .. }, Event::Decoded(_)) => true,
            (Stage::Dispatching { clients, .. }, Event::Joined(results)) => results.len()
                == *clients,
            _ => false,
        }
    }
}

/// The stage that follows an event, and what is asked of the host then. An
/// event that the stage does not wait for changes nothing and asks nothing.
pub open spec fn spec_step<E>(stage: Stage, event: Event<E>) -> (Stage, Option<Action<E>>) {
    if !stage.spec_expects(event) {
        (stage, None)
    } else {
        spec_advance(stage, event)
    }
}

/// The stage that follows the event that a stage waits for, and what is asked
/// of the host then.
pub open spec fn spec_advance<E>(stage: Stage, event: Event<E>) -> (Stage, Option<Action<E>>) {
    match (stage, event) {
        (Stage::Start, Event::Built { clients }) => if clients == 0 {
            (
                Stage::Finished,
                Some(
                    Action::Reply(
                        Err(RequestError::Private(PrivateTransactionError::FailedToGetBuilders)),
                    ),
                ),
            )
        } else {
            (Stage::Decoding { clients }, Some(Action::Decode))
        },
        (Stage::Decoding { clients }, Event::Decoded(Ok(hash))) => (
            Stage::Dispatching { hash, clients },
            Some(Action::Dispatch),
        ),
        (Stage::Decoding { .. }, Event::Decoded(Err(error))) => (
            Stage::Finished,
            Some(Action::Reply(Err(RequestError::Decode(error)))),
        ),
        (Stage::Dispatching { hash, .. }, Event::Joined(results)) => if any_accepted(results@) {
            (Stage::Finished, Some(Action::Reply(Ok(hash))))
        } else {
            (
                Stage::Finished,
                Some(
                    Action::Reply(
                        Err(RequestError::Private(PrivateTransactionError::AllBuildersFailed)),
                    ),
                ),
            )
        },
        _ => (stage, None),
    }
}

/// The answer a request ends with, given how many clients were set up, what
/// decoding yields and how the calls to these clients end, when every stage
/// gets its event in turn.
pub open spec fn spec_run<E>(
    clients: usize,
    decoded: Result<B256, E>,
    results: Vec<Result<(), BuilderError>>,
) -> Result<B256, RequestError<E>> {
    let (decoding, first) = spec_step::<E>(Stage::Start, Event::Built { clients });
    match first {
        Some(Action::Reply(answer)) => answer,
        _ => {
            let (dispatching, second) = spec_step(decoding, Event::Decoded(decoded));
            match second {
                Some(Action::Reply(answer)) => answer,
                _ => spec_step::<E>(dispatching, Event::Joined(results)).1->Some_0->Reply_0,
            }
        },
    }
}

/// The number of calls that the host is asked to issue in the course of such a
/// request: one for each client if it comes to a dispatch, and none if not.
pub open spec fn spec_calls_issued<E>(clients: usize, decoded: Result<B256, E>) -> nat {
    let (decoding, first) = spec_step::<E>(Stage::Start, Event::Built { clients });
    if first matches Some(Action::Reply(_)) {
        0
    } else if spec_step(decoding, Event::Decoded(decoded)).1 matches Some(Action::Dispatch) {
        clients as nat
    } else {
        0
    }
}

/// A finished request waits for nothing: no event takes it further or makes it
/// ask for anything.
pub proof fn lemma_finished_is_final<E>(event: Event<E>)
    ensures
        !Stage::Finished.spec_expects(event),
        spec_step(Stage::Finished, event) == (Stage::Finished, None::<Action<E>>),
{
}

/// Something is asked of the host exactly when the stage gets the event it
/// waits for. The caller is answered exactly when the request finishes, and
/// calls are asked for only when a transaction has just been decoded.
pub proof fn lemma_step_shape<E>(stage: Stage, event: Event<E>)
    ensures
        spec_step(stage, event).1 is Some <==> stage.spec_expects(event),
        !stage.spec_expects(event) ==> spec_step(stage, event).0 == stage,
        stage.spec_expects(event) ==> (spec_step(stage, event).1 matches Some(Action::Reply(_))
            <==> spec_step(stage, event).0 is Finished),
        spec_step(stage, event).1 matches Some(Action::Dispatch) ==> stage is Decoding && event
            matches Event::Decoded(Ok(_)),
{
}

/// What a request comes to. With no client it fails at once, and no call is
/// issued. With a transaction that cannot be decoded it fails with the
/// decoder's own error, and no call is issued. Otherwise every client is called,
/// and once all the calls have ended the request yields the hash that the
/// decoder gave if at least one call was accepted, and fails if none was. A
/// hash in the answer is always the one from the decoder.
pub proof fn lemma_run_outcome<E>(
    clients: usize,
    decoded: Result<B256, E>,
    results: Vec<Result<(), BuilderError>>,
)
    ensures
        clients == 0 ==> spec_run(clients, decoded, results) == Err::<B256, RequestError<E>>(
            RequestError::Private(PrivateTransactionError::FailedToGetBuilders),
        ) && spec_calls_issued(clients, decoded) == 0,
        clients > 0 && decoded is Err ==> spec_run(clients, decoded, results) == Err::<
            B256,
            RequestError<E>,
        >(RequestError::Decode(decoded->Err_0)) && spec_calls_issued(clients, decoded) == 0,
        clients > 0 && decoded is Ok ==> spec_calls_issued(clients, decoded) == clients,
        clients > 0 && decoded is Ok && results@.len() == clients && any_accepted(results@)
            ==> spec_run(clients, decoded, results) == Ok::<B256, RequestError<E>>(
            decoded->Ok_0,
        ),
        clients > 0 && decoded is Ok && results@.len() == clients && !any_accepted(results@)
            ==> spec_run(clients, decoded, results) == Err::<B256, RequestError<E>>(
            RequestError::Private(PrivateTransactionError::AllBuildersFailed),
        ),
        results@.len() == clients && spec_run(clients, decoded, results) is Ok ==> decoded
            == Ok::<B256, E>(spec_run(clients, decoded, results)->Ok_0),
{
}

/// Nothing is remembered between submissions, and nothing is merged. A client
/// that stands twice in the list gets the same call twice, and the two answers
/// are read each on its own: the request has got through exactly when one of
/// the two outcomes, whichever, is an acceptance.
pub proof fn lemma_repeated_submission(
    builder: Builder,
    tx: Seq<u8>,
    first: Result<serde_json::Value, jsonrpsee::core::ClientError>,
    second: Result<serde_json::Value, jsonrpsee::core::ClientError>,
)
    ensures
        spec_fan_out(seq![builder, builder], tx) == seq![
            builder.spec_attempt(tx),
            builder.spec_attempt(tx),
        ],
        any_accepted(seq![spec_outcome(first), spec_outcome(second)]) <==> (spec_outcome(first)
            is Ok || spec_outcome(second) is Ok),
{
    assert(spec_fan_out(seq![builder, builder], tx) =~= seq![
        builder.spec_attempt(tx),
        builder.spec_attempt(tx),
    ]);
    let outcomes = seq![spec_outcome(first), spec_outcome(second)];
    if spec_outcome(first) is Ok {
        assert(outcomes[0] is Ok);
    }
    if spec_outcome(second) is Ok {
        assert(outcomes[1] is Ok);
    }
}

impl EthPrivateTransaction {
    /// Tries to set up a client for every kind, in enumeration order. A kind
    /// whose client cannot be set up is recorded and left out, with the
    /// transport's error; the others stand in the list in enumeration order.
    pub fn builders(&self) -> (roster: Roster)
        ensures
            roster.consistent(),
            roster.builders@.len() + roster.failures@.len() == roster.records@.len(),
            roster.records@.len() == BuilderKind::spec_all().len(),
            forall|i: int|
                0 <= i < roster.records@.len() ==> (#[trigger] roster.records@[i]).kind
                    == BuilderKind::spec_all()[i] && (roster.records@[i].event
                    == DiagnosticEvent::Constructed || roster.records@[i].event
                    == DiagnosticEvent::ConstructionFailed),
            forall|i: int|
                0 <= i < roster.failures@.len() ==> (#[trigger] roster.failures@[i])
                    is ClientError,
            forall|k: int, l: int|
                0 <= k < l < roster.builders@.len() ==> roster.builders@[k].spec_kind().ordinal()
                    < roster.builders@[l].spec_kind().ordinal(),
    {
        let kinds = BuilderKind::all();
        let mut roster = Roster::new();
        let mut i: usize = 0;
        while i < kinds.len()
            invariant
                kinds@ == BuilderKind::spec_all(),
                0 <= i <= kinds@.len(),
                roster.consistent(),
                roster.builders@.len() + roster.failures@.len() == i,
                roster.records@.len() == i,
                forall|j: int|
                    0 <= j < i ==> (#[trigger] roster.records@[j]).kind == kinds@[j] && (
                    roster.records@[j].event == DiagnosticEvent::Constructed
                        || roster.records@[j].event == DiagnosticEvent::ConstructionFailed),
                forall|j: int|
                    0 <= j < roster.failures@.len() ==> (#[trigger] roster.failures@[j])
                        is ClientError,
            decreases kinds@.len() - i,
        {
            let kind = kinds[i];
            let built = kind.builder();
            proof {
                lemma_enlist_keeps_consistent(roster.builders@, roster.records@, kind, built);
            }
            roster.enlist(kind, built);
            i = i + 1;
        }
        proof {
            lemma_constructed_in_order(roster.records@);
            assert forall|k: int, l: int| 0 <= k < l < roster.builders@.len() implies
                roster.builders@[k].spec_kind().ordinal()
                < roster.builders@[l].spec_kind().ordinal() by {
                assert(spec_kinds(roster.builders@)[k] == roster.builders@[k].spec_kind());
                assert(spec_kinds(roster.builders@)[l] == roster.builders@[l].spec_kind());
            }
        }
        roster
    }

    /// The calls to issue for a transaction: one for every client of the list,
    /// in its order, each with the method of its own builder and all with the
    /// same parameter object, and each with the record of its attempt. A client
    /// that stands twice in the list is called twice.
    pub fn fan_out(&self, tx: &[u8], builders: &Vec<Builder>) -> (calls: Vec<Attempt>)
        ensures
            calls@.map_values(|call: Attempt| call@) == spec_fan_out(builders@, tx@),
    {
        let mut calls: Vec<Attempt> = Vec::new();
        let mut i: usize = 0;
        while i < builders.len()
            invariant
                0 <= i <= builders@.len(),
                calls@.len() == i,
                forall|j: int|
                    0 <= j < i ==> (#[trigger] calls@[j])@ == builders@[j].spec_attempt(tx@),
            decreases builders@.len() - i,
        {
            let call = builders[i].send_tx(tx);
            calls.push(call);
            i = i + 1;
        }
        assert(calls@.map_values(|call: Attempt| call@) =~= spec_fan_out(builders@, tx@));
        calls
    }

    /// Whether the transaction got through, once every call has ended: it did
    /// if at least one builder took it, and failed if none did. Which builder
    /// took it is not told.
    pub fn aggregate(&self, results: &Vec<Result<(), BuilderError>>) -> (outcome: Result<
        (),
        PrivateTransactionError,
    >)
        ensures
            outcome is Ok <==> any_accepted(results@),
            outcome is Err ==> outcome->Err_0 == PrivateTransactionError::AllBuildersFailed,
    {
        let mut i: usize = 0;
        while i < results.len()
            invariant
                0 <= i <= results@.len(),
                forall|j: int| 0 <= j < i ==> (#[trigger] results@[j]) is Err,
            decreases results@.len() - i,
        {
            if results[i].is_ok() {
                return Ok(());
            }
            i = i + 1;
        }
        Err(PrivateTransactionError::AllBuildersFailed)
    }

    /// Takes a request from one stage to the next when the host reports what
    /// the stage was waiting for, and says what the host is to do then. Any
    /// other event leaves the request where it is.
    pub fn step<E>(&self, stage: Stage, event: Event<E>) -> (next: (Stage, Option<Action<E>>))
        ensures
            next == spec_step(stage, event),
    {
        match (stage, event) {
            (Stage::Start, Event::Built { clients }) => {
                if clients == 0 {
                    let failure = PrivateTransactionError::FailedToGetBuilders;
                    (Stage::Finished, Some(Action::Reply(Err(RequestError::Private(failure)))))
                } else {
                    (Stage::Decoding { clients }, Some(Action::Decode))
                }
            },
            (Stage::Decoding { clients }, Event::Decoded(Ok(hash))) => {
                (Stage::Dispatching { hash, clients }, Some(Action::Dispatch))
            },
            (Stage::Decoding { .. }, Event::Decoded(Err(error))) => {
                (Stage::Finished, Some(Action::Reply(Err(RequestError::Decode(error)))))
            },
            (Stage::Dispatching { hash, clients }, Event::Joined(results)) => {
                if results.len() != clients {
                    (Stage::Dispatching { hash, clients }, None)
                } else {
                    match self.aggregate(&results) {
                        Ok(()) => (Stage::Finished, Some(Action::Reply(Ok(hash)))),
                        Err(failure) => (
                            Stage::Finished,
                            Some(Action::Reply(Err(RequestError::Private(failure)))),
                        ),
                    }
                }
            },
            (stage, _) => (stage, None),
        }
    }
}

} // verus!
