//! Fan-out dispatch: interpret what each builder's exchange came to, reduce
//! all per-builder verdicts to one aggregate result, and record what was
//! attempted.

use vstd::prelude::*;
use crate::builders::{Builder, BuilderError, BuilderKind};

verus! {

/// What one HTTP exchange came to, as the transport reports it: either the
/// exchange failed before a body could be read (the report is carried as
/// text), or it completed with a response body.
#[derive(Clone, Debug, PartialEq, Eq)]
pub enum Exchange {
    Failed(String),
    Completed(String),
}

/// Per-builder verdict on one send attempt.
#[derive(Debug, PartialEq, Eq)]
pub enum SendOutcome {
    Accepted,
    Failed(BuilderError),
}

/// One attempted builder together with its verdict.
#[derive(Debug, PartialEq, Eq)]
pub struct Attempt {
    pub kind: BuilderKind,
    pub outcome: SendOutcome,
}

/// The aggregate result of one broadcast: `Success` when at least one
/// builder accepted the transaction; otherwise every attempt with its
/// failure, for diagnostics.
#[derive(Debug, PartialEq, Eq)]
pub enum DispatchResult {
    Success,
    AllFailed(Vec<Attempt>),
}

/// What a response body means, read as the relay reads it: `None` when the
/// text is not valid JSON, otherwise whether the parsed value carries a
/// top-level `error` field.
pub uninterp spec fn json_error_flag(body: Seq<char>) -> Option<bool>;

/// Relies on serde_json::from_str::<Value> and serde_json::Value::get:
/// whether the body parses as JSON, and whether the parsed value has a
/// top-level `error` field. Both are functions of the text alone.
#[verifier::external_body]
fn body_error_flag(body: &str) -> (r: Option<bool>)
    ensures
        r == json_error_flag(body@),
{
    match serde_json::from_str::<serde_json::Value>(body) {
        Ok(v) => Some(v.get("error").is_some()),
        Err(_) => None,
    }
}

/// An exchange that counts as acceptance: it completed, its body is valid
/// JSON, and no top-level `error` field is present.
pub open spec fn spec_accepted(ex: Exchange) -> bool {
    ex matches Exchange::Completed(b) && json_error_flag(b@) == Some(false)
}

/// The verdict that belongs to an exchange: a failed exchange is a
/// transport-kind failure; a body that is not valid JSON is a
/// transport-kind failure that keeps the body; a body with a top-level
/// `error` field is a protocol-kind failure that keeps the body; any other
/// completed exchange is acceptance.
pub open spec fn outcome_matches(ex: Exchange, o: SendOutcome) -> bool {
    match ex {
        Exchange::Failed(m) => o == SendOutcome::Failed(BuilderError::Client(m)),
        Exchange::Completed(b) => match json_error_flag(b@) {
            None => o == SendOutcome::Failed(BuilderError::Client(b)),
            Some(flag) => if flag {
                o == SendOutcome::Failed(BuilderError::InvalidResponse(b))
            } else {
                o == SendOutcome::Accepted
            },
        },
    }
}

impl SendOutcome {
    pub fn is_accepted(&self) -> (r: bool)
        ensures
            r == (*self is Accepted),
    {
        match self {
            SendOutcome::Accepted => true,
            SendOutcome::Failed(_) => false,
        }
    }
}

/// Classify what one exchange came to — the per-send decision of the send
/// path: transport failures and undecodable bodies are transport-kind
/// failures, a body with a top-level `error` field is a protocol-kind
/// failure, any other completed exchange is acceptance.
pub fn interpret_exchange(ex: Exchange) -> (r: SendOutcome)
    ensures
        outcome_matches(ex, r),
{
    match ex {
        Exchange::Failed(m) => SendOutcome::Failed(BuilderError::Client(m)),
        Exchange::Completed(b) => match body_error_flag(b.as_str()) {
            None => SendOutcome::Failed(BuilderError::Client(b)),
            Some(true) => SendOutcome::Failed(BuilderError::InvalidResponse(b)),
            Some(false) => SendOutcome::Accepted,
        },
    }
}

/// A verdict agreeing with its exchange is an acceptance exactly when the
/// exchange counts as one.
pub proof fn lemma_outcome_accepted(ex: Exchange, o: SendOutcome)
    requires
        outcome_matches(ex, o),
    ensures
        (o is Accepted) <==> spec_accepted(ex),
{
}

/// At least one attempt in the batch ended in acceptance.
pub open spec fn any_attempt_accepted(attempts: Seq<Attempt>) -> bool {
    exists|i: int| 0 <= i < attempts.len() && (#[trigger] attempts[i]).outcome is Accepted
}

/// Reduce all per-builder verdicts to the aggregate: success when at least
/// one builder accepted, otherwise all attempts are handed back, each with
/// its failure.
pub fn reduce_outcomes(attempts: Vec<Attempt>) -> (r: DispatchResult)
    ensures
        (r is Success) <==> any_attempt_accepted(attempts@),
        !any_attempt_accepted(attempts@) ==> r == DispatchResult::AllFailed(attempts),
{
    let mut accepted = false;
    let mut i: usize = 0;
    while i < attempts.len()
        invariant
            i <= attempts.len(),
            accepted == any_attempt_accepted(attempts@.take(i as int)),
        decreases attempts.len() - i,
    {
        if attempts[i].outcome.is_accepted() {
            accepted = true;
        }
        proof {
            let taken = attempts@.take(i + 1 as int);
            assert(taken[i as int] == attempts@[i as int]);
            if attempts@[i as int].outcome is Accepted {
                assert(any_attempt_accepted(taken));
            } else {
                assert(forall|j: int|
                    0 <= j < taken.len() ==> taken[j] == attempts@.take(i as int).push(
                        attempts@[i as int],
                    )[j]);
                assert(any_attempt_accepted(taken) ==> any_attempt_accepted(
                    attempts@.take(i as int),
                ) || attempts@[i as int].outcome is Accepted);
            }
        }
        i += 1;
    }
    proof {
        assert(attempts@.take(attempts@.len() as int) =~= attempts@);
    }
    if accepted {
        DispatchResult::Success
    } else {
        DispatchResult::AllFailed(attempts)
    }
}

/// At least one exchange in the batch counts as acceptance.
pub open spec fn any_exchange_accepted(exchanges: Seq<(BuilderKind, Exchange)>) -> bool {
    exists|i: int| 0 <= i < exchanges.len() && spec_accepted((#[trigger] exchanges[i]).1)
}

/// The attempt record agrees with the batch of exchanges: one attempt per
/// exchange, in order, each naming the same builder and carrying the verdict
/// of that builder's exchange.
pub open spec fn attempts_match(
    exchanges: Seq<(BuilderKind, Exchange)>,
    attempts: Seq<Attempt>,
) -> bool {
    &&& attempts.len() == exchanges.len()
    &&& forall|i: int|
        0 <= i < exchanges.len() ==> (#[trigger] attempts[i]).kind == exchanges[i].0
            && outcome_matches(exchanges[i].1, attempts[i].outcome)
}

/// An agreeing attempt record has an acceptance exactly when the batch has
/// one.
pub proof fn lemma_match_preserves_acceptance(
    exchanges: Seq<(BuilderKind, Exchange)>,
    attempts: Seq<Attempt>,
)
    requires
        attempts_match(exchanges, attempts),
    ensures
        any_attempt_accepted(attempts) <==> any_exchange_accepted(exchanges),
{
    if any_attempt_accepted(attempts) {
        let i = choose|i: int| 0 <= i < attempts.len() && (#[trigger] attempts[i]).outcome
            is Accepted;
        lemma_outcome_accepted(exchanges[i].1, attempts[i].outcome);
        assert(spec_accepted(exchanges[i].1));
    }
    if any_exchange_accepted(exchanges) {
        let i = choose|i: int| 0 <= i < exchanges.len() && spec_accepted(
            (#[trigger] exchanges[i]).1,
        );
        lemma_outcome_accepted(exchanges[i].1, attempts[i].outcome);
        assert((attempts[i]).outcome is Accepted);
    }
}

/// The whole dispatch decision, given what every builder's exchange came to:
/// classify each exchange, then reduce. The verdict is `Success` exactly
/// when at least one exchange counts as acceptance; otherwise every
/// attempted builder is handed back with its failure, one per attempt, in
/// batch order.
pub fn broadcast_verdict(exchanges: Vec<(BuilderKind, Exchange)>) -> (r: DispatchResult)
    ensures
        (r is Success) <==> any_exchange_accepted(exchanges@),
        r matches DispatchResult::AllFailed(fs) ==> attempts_match(exchanges@, fs@),
        !any_exchange_accepted(exchanges@) ==> r is AllFailed,
{
    let ghost orig = exchanges@;
    let mut rest = exchanges;
    let mut attempts: Vec<Attempt> = Vec::new();
    proof {
        assert(orig.subrange(0, orig.len() as int) =~= orig);
        assert(orig.take(0) =~= Seq::<(BuilderKind, Exchange)>::empty());
    }
    while rest.len() > 0
        invariant
            attempts@.len() + rest@.len() == orig.len(),
            orig.subrange(attempts@.len() as int, orig.len() as int) == rest@,
            attempts_match(orig.take(attempts@.len() as int), attempts@),
        decreases rest.len(),
    {
        let ghost k = attempts@.len() as int;
        let (kind, ex) = rest.remove(0);
        proof {
            assert(orig[k] == (kind, ex));
            assert(orig.subrange(k, orig.len() as int).remove(0) =~= orig.subrange(
                k + 1,
                orig.len() as int,
            ));
        }
        let outcome = interpret_exchange(ex);
        attempts.push(Attempt { kind, outcome });
        proof {
            assert(orig.take(k + 1) =~= orig.take(k).push(orig[k]));
            assert(attempts_match(orig.take(k + 1), attempts@));
        }
    }
    proof {
        assert(orig.take(orig.len() as int) =~= orig);
    }
    let ghost atts = attempts@;
    let r = reduce_outcomes(attempts);
    proof {
        lemma_match_preserves_acceptance(orig, atts);
    }
    r
}

/// Law: if at least one exchange completed with a body free of a top-level
/// `error` field, the batch counts as accepted — so, by
/// `broadcast_verdict`'s contract, the dispatch verdict is `Success`,
/// whatever the other exchanges came to.
pub proof fn lemma_one_acceptance_gives_success(exchanges: Seq<(BuilderKind, Exchange)>, i: int)
    requires
        0 <= i < exchanges.len(),
        spec_accepted(exchanges[i].1),
    ensures
        any_exchange_accepted(exchanges),
{
}

/// Law: when every exchange failed or carries a top-level `error` field, no
/// exchange counts as acceptance — by `broadcast_verdict`'s contract the
/// verdict is `AllFailed` — and the attempt record holds one failure per
/// attempted builder.
pub proof fn lemma_all_failures_recorded(
    exchanges: Seq<(BuilderKind, Exchange)>,
    attempts: Seq<Attempt>,
)
    requires
        attempts_match(exchanges, attempts),
        forall|i: int| 0 <= i < exchanges.len() ==> !spec_accepted((#[trigger] exchanges[i]).1),
    ensures
        !any_exchange_accepted(exchanges),
        attempts.len() == exchanges.len(),
        forall|i: int| 0 <= i < attempts.len() ==> (#[trigger] attempts[i]).outcome is Failed,
{
    assert forall|i: int| 0 <= i < attempts.len() implies (#[trigger] attempts[i]).outcome
        is Failed by {
        lemma_outcome_accepted(exchanges[i].1, attempts[i].outcome);
    }
}

proof fn lemma_acceptance_transfers(
    e1: Seq<(BuilderKind, Exchange)>,
    e2: Seq<(BuilderKind, Exchange)>,
)
    requires
        e1.to_multiset() == e2.to_multiset(),
        any_exchange_accepted(e1),
    ensures
        any_exchange_accepted(e2),
{
    broadcast use vstd::seq_lib::group_to_multiset_ensures;

    let i = choose|i: int| 0 <= i < e1.len() && spec_accepted((#[trigger] e1[i]).1);
    assert(e1.contains(e1[i]));
    assert(e1.to_multiset().count(e1[i]) > 0);
    assert(e2.to_multiset().count(e1[i]) > 0);
    assert(e2.contains(e1[i]));
    let j = choose|j: int| 0 <= j < e2.len() && e2[j] == e1[i];
    assert(spec_accepted((e2[j]).1));
}

/// Law: whether a batch counts as accepted does not depend on the order in
/// which the outcomes were collected: two batches holding the same
/// exchanges, in any order, count as accepted together — so, by
/// `broadcast_verdict`'s contract, they get the same verdict variant.
pub proof fn lemma_verdict_order_independent(
    e1: Seq<(BuilderKind, Exchange)>,
    e2: Seq<(BuilderKind, Exchange)>,
)
    requires
        e1.to_multiset() == e2.to_multiset(),
    ensures
        any_exchange_accepted(e1) == any_exchange_accepted(e2),
{
    if any_exchange_accepted(e1) {
        lemma_acceptance_transfers(e1, e2);
    }
    if any_exchange_accepted(e2) {
        lemma_acceptance_transfers(e2, e1);
    }
}

/// Severity of an emitted event.
#[derive(Clone, Copy, Debug, PartialEq, Eq, Structural)]
pub enum Level {
    Info,
    Warn,
}

/// One observability event, emitted as data for the surrounding program's
/// logging sink.
#[derive(Debug, PartialEq, Eq)]
pub enum Event {
    /// A builder's client could not be constructed; the builder was excluded
    /// from the batch.
    ConstructionFailed(BuilderKind, BuilderError),
    /// A builder accepted the transaction.
    SendAccepted(BuilderKind),
    /// A builder's send attempt failed.
    SendFailed(BuilderKind),
}

impl Event {
    /// The builder the event concerns.
    pub open spec fn spec_kind(self) -> BuilderKind {
        match self {
            Event::ConstructionFailed(k, _) => k,
            Event::SendAccepted(k) => k,
            Event::SendFailed(k) => k,
        }
    }

    /// Acceptance is reported at info level, every failure at warn level.
    pub open spec fn spec_level(self) -> Level {
        match self {
            Event::SendAccepted(_) => Level::Info,
            _ => Level::Warn,
        }
    }

    pub fn level(&self) -> (r: Level)
        ensures
            r == self.spec_level(),
    {
        match self {
            Event::SendAccepted(_) => Level::Info,
            _ => Level::Warn,
        }
    }
}

/// One event per attempt: acceptance at info level, failure at warn level,
/// each tagged with the builder it concerns.
pub fn outcome_events(attempts: &Vec<Attempt>) -> (r: Vec<Event>)
    ensures
        r@.len() == attempts@.len(),
        forall|i: int|
            0 <= i < attempts@.len() ==> #[trigger] r@[i] == if attempts@[i].outcome is Accepted {
                Event::SendAccepted(attempts@[i].kind)
            } else {
                Event::SendFailed(attempts@[i].kind)
            },
{
    let mut events: Vec<Event> = Vec::new();
    let mut i: usize = 0;
    while i < attempts.len()
        invariant
            i <= attempts.len(),
            events@.len() == i,
            forall|j: int|
                0 <= j < i ==> #[trigger] events@[j] == if attempts@[j].outcome is Accepted {
                    Event::SendAccepted(attempts@[j].kind)
                } else {
                    Event::SendFailed(attempts@[j].kind)
                },
        decreases attempts.len() - i,
    {
        if attempts[i].outcome.is_accepted() {
            events.push(Event::SendAccepted(attempts[i].kind));
        } else {
            events.push(Event::SendFailed(attempts[i].kind));
        }
        i += 1;
    }
    events
}

/// `built` and `skipped` together cover `directory`: each directory entry
/// went to exactly one of the two, and both keep directory order.
pub open spec fn splits(
    built: Seq<BuilderKind>,
    skipped: Seq<BuilderKind>,
    directory: Seq<BuilderKind>,
) -> bool
    decreases directory.len(),
{
    if directory.len() == 0 {
        built.len() == 0 && skipped.len() == 0
    } else {
        (built.len() > 0 && built.last() == directory.last() && splits(
            built.drop_last(),
            skipped,
            directory.drop_last(),
        )) || (skipped.len() > 0 && skipped.last() == directory.last() && splits(
            built,
            skipped.drop_last(),
            directory.drop_last(),
        ))
    }
}

/// The dispatcher's entry state: it owns no clients between batches; one
/// client per builder is constructed for each broadcast and discarded after
/// it.
pub struct EthPrivateTransaction;

impl EthPrivateTransaction {
    /// Walk the builder directory and construct one client per entry. A kind
    /// whose construction fails is reported as a warn-level event and
    /// excluded; it never aborts the batch and never counts as a send
    /// outcome. Every constructed client is tied to its own kind, and the
    /// built and skipped kinds together cover the directory in order.
    pub fn builders(&self) -> (r: (Vec<Builder>, Vec<Event>))
        ensures
            forall|i: int| 0 <= i < r.0@.len() ==> (#[trigger] r.0@[i]).wf(),
            forall|i: int|
                0 <= i < r.1@.len() ==> ((#[trigger] r.1@[i]) matches Event::ConstructionFailed(
                    k,
                    e,
                ) && e is Client),
            splits(
                r.0@.map_values(|b: Builder| b.kind),
                r.1@.map_values(|e: Event| e.spec_kind()),
                BuilderKind::spec_directory(),
            ),
    {
        let kinds = BuilderKind::all();
        let mut clients: Vec<Builder> = Vec::new();
        let mut events: Vec<Event> = Vec::new();
        proof {
            assert(kinds@.take(0) =~= Seq::<BuilderKind>::empty());
            assert(clients@.map_values(|b: Builder| b.kind) =~= Seq::<BuilderKind>::empty());
            assert(events@.map_values(|e: Event| e.spec_kind()) =~= Seq::<BuilderKind>::empty());
        }
        let mut i: usize = 0;
        while i < kinds.len()
            invariant
                i <= kinds.len(),
                kinds@ == BuilderKind::spec_directory(),
                forall|j: int| 0 <= j < clients@.len() ==> (#[trigger] clients@[j]).wf(),
                forall|j: int|
                    0 <= j < events@.len() ==> ((#[trigger] events@[j])
                        matches Event::ConstructionFailed(k, e) && e is Client),
                splits(
                    clients@.map_values(|b: Builder| b.kind),
                    events@.map_values(|e: Event| e.spec_kind()),
                    kinds@.take(i as int),
                ),
            decreases kinds.len() - i,
        {
            let kind = kinds[i];
            let ghost built0 = clients@.map_values(|b: Builder| b.kind);
            let ghost skipped0 = events@.map_values(|e: Event| e.spec_kind());
            match kind.builder() {
                Ok(b) => {
                    clients.push(b);
                    proof {
                        assert(clients@.map_values(|b: Builder| b.kind) =~= built0.push(kind));
                        assert(built0.push(kind).drop_last() =~= built0);
                        assert(kinds@.take(i + 1 as int).drop_last() =~= kinds@.take(i as int));
                    }
                },
                Err(e) => {
                    events.push(Event::ConstructionFailed(kind, e));
                    proof {
                        assert(events@.map_values(|e: Event| e.spec_kind()) =~= skipped0.push(
                            kind,
                        ));
                        assert(skipped0.push(kind).drop_last() =~= skipped0);
                        assert(kinds@.take(i + 1 as int).drop_last() =~= kinds@.take(i as int));
                    }
                },
            }
            i += 1;
        }
        proof {
            assert(kinds@.take(kinds@.len() as int) =~= kinds@);
        }
        (clients, events)
    }
}

} // verus!
