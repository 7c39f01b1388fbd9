//! Operators and the chains that run them over events.

use vstd::prelude::*;
use crate::event::{Event, EventModel};
use crate::field_op::FieldOpOperator;
use crate::json_op::JsonOperator;
use crate::kv_op::KvOperator;
use crate::regex_op::RegexOperator;
use crate::severity_op::SeverityOperator;
use crate::timestamp_op::TimestampOperator;
use crate::text::append_str;

verus! {

/// Why an operator could not process an event.
#[derive(Debug)]
pub struct OperatorError {
    pub operator_id: String,
    pub message: String,
}

/// The text an error is recorded under: `operator <id>: <message>`.
pub open spec fn error_text(id: Seq<char>, message: Seq<char>) -> Seq<char> {
    "operator "@ + id + ": "@ + message
}

impl OperatorError {
    /// `operator <id>: <message>`.
    pub fn to_text(&self) -> (r: String)
        ensures
            r@ == error_text(self.operator_id@, self.message@),
    {
        let mut s = String::new();
        append_str(&mut s, "operator ");
        append_str(&mut s, self.operator_id.as_str());
        append_str(&mut s, ": ");
        append_str(&mut s, self.message.as_str());
        assert(s@ =~= error_text(self.operator_id@, self.message@));
        s
    }
}

/// What happens when a step fails.
#[derive(Clone, Copy, Debug, PartialEq, Eq, Structural)]
pub enum OnError {
    /// Discard the event.
    Drop,
    /// Record the error on the event and go on with the event as it was
    /// before the failed step.
    Pass,
    /// Mark the event dead-lettered, record the error, and stop.
    DeadLetter,
}

/// One parsing or transform step.
pub enum Operator {
    Regex(RegexOperator),
    Json(JsonOperator),
    Kv(KvOperator),
    Severity(SeverityOperator),
    Timestamp(TimestampOperator),
    FieldOp(FieldOpOperator),
}

/// The step's id.
pub open spec fn op_id(op: Operator) -> Seq<char> {
    match op {
        Operator::Regex(o) => o.id@,
        Operator::Json(o) => o.id@,
        Operator::Kv(o) => o.id@,
        Operator::Severity(o) => o.id@,
        Operator::Timestamp(o) => o.id@,
        Operator::FieldOp(o) => o.id@,
    }
}

/// What a step makes of an event: the new event, or the error message
/// (the event itself is then handed back unchanged).
pub open spec fn op_apply(op: Operator, e: EventModel) -> Result<EventModel, Seq<char>> {
    match op {
        Operator::Regex(o) => crate::regex_op::regex_apply(o, e),
        Operator::Json(o) => crate::json_op::json_apply(o, e),
        Operator::Kv(o) => crate::kv_op::kv_apply(o, e),
        Operator::Severity(o) => crate::severity_op::severity_apply(o, e),
        Operator::Timestamp(o) => crate::timestamp_op::timestamp_apply(o, e),
        Operator::FieldOp(o) => crate::field_op::field_op_apply(o, e),
    }
}

/// How a step's `process` result matches the model.
pub open spec fn process_matches(
    id: Seq<char>,
    input: EventModel,
    r: Result<Event, (Event, OperatorError)>,
    expected: Result<EventModel, Seq<char>>,
) -> bool {
    match r {
        Ok(e) => expected == Ok::<EventModel, Seq<char>>(e@),
        Err((e, err)) => e@ == input && err.operator_id@ == id && expected == Err::<EventModel, Seq<char>>(err.message@),
    }
}

impl Operator {
    pub fn id(&self) -> (r: &str)
        ensures
            r@ == op_id(*self),
    {
        match self {
            Operator::Regex(o) => o.id(),
            Operator::Json(o) => o.id(),
            Operator::Kv(o) => o.id(),
            Operator::Severity(o) => o.id(),
            Operator::Timestamp(o) => o.id(),
            Operator::FieldOp(o) => o.id(),
        }
    }

    /// Runs the step on an event.
    pub fn process(&self, event: Event) -> (r: Result<Event, (Event, OperatorError)>)
        ensures
            process_matches(op_id(*self), event@, r, op_apply(*self, event@)),
    {
        match self {
            Operator::Regex(o) => o.process(event),
            Operator::Json(o) => o.process(event),
            Operator::Kv(o) => o.process(event),
            Operator::Severity(o) => o.process(event),
            Operator::Timestamp(o) => o.process(event),
            Operator::FieldOp(o) => o.process(event),
        }
    }
}

/// The event with an error recorded.
pub open spec fn with_error(e: EventModel, text: Seq<char>) -> EventModel {
    EventModel { errors: e.errors.push(text), ..e }
}

/// The event marked dead-lettered, with an error recorded.
pub open spec fn dead_lettered(e: EventModel, text: Seq<char>) -> EventModel {
    EventModel { errors: e.errors.push(text), dead_letter: true, ..e }
}

/// How a run of the steps ends.
pub enum ChainEnd {
    /// Every step ran; the event as it came out.
    Passed(EventModel),
    /// A failing `Drop` step discarded the event.
    Dropped,
    /// A failing `DeadLetter` step stopped the chain; the event as it was
    /// then, marked dead-lettered, for the caller's dead-letter sink.
    DeadLettered(EventModel),
}

/// What running the steps in order makes of an event. A failing step's
/// policy decides: `Drop` ends the run, `Pass` records the error and
/// goes on with the event as it was, `DeadLetter` marks the event,
/// records the error and ends the run; no later step runs.
pub open spec fn chain_end(steps: Seq<(Operator, OnError)>, e: EventModel) -> ChainEnd
    decreases steps.len(),
{
    if steps.len() == 0 {
        ChainEnd::Passed(e)
    } else {
        match op_apply(steps[0].0, e) {
            Ok(e2) => chain_end(steps.drop_first(), e2),
            Err(msg) => {
                let text = error_text(op_id(steps[0].0), msg);
                match steps[0].1 {
                    OnError::Drop => ChainEnd::Dropped,
                    OnError::Pass => chain_end(steps.drop_first(), with_error(e, text)),
                    OnError::DeadLetter => ChainEnd::DeadLettered(dead_lettered(e, text)),
                }
            },
        }
    }
}

/// What `run` gives: the event when every step ran, `None` when it was
/// dropped or dead-lettered.
pub open spec fn chain_apply(steps: Seq<(Operator, OnError)>, e: EventModel) -> Option<EventModel> {
    match chain_end(steps, e) {
        ChainEnd::Passed(m) => Some(m),
        _ => None,
    }
}

/// How a run ended, with the event where there is one.
pub enum RunOutcome {
    Passed(Event),
    Dropped,
    DeadLettered(Event),
}

/// The outcome matches the spec's end of the run.
pub open spec fn outcome_is(r: RunOutcome, end: ChainEnd) -> bool {
    match end {
        ChainEnd::Passed(m) => r matches RunOutcome::Passed(e) && e@ == m,
        ChainEnd::Dropped => r is Dropped,
        ChainEnd::DeadLettered(m) => r matches RunOutcome::DeadLettered(e) && e@ == m,
    }
}

/// An ordered list of steps, each with its error policy.
pub struct OperatorChain {
    steps: Vec<(Operator, OnError)>,
}

impl View for OperatorChain {
    type V = Seq<(Operator, OnError)>;

    closed spec fn view(&self) -> Seq<(Operator, OnError)> {
        self.steps@
    }
}

impl OperatorChain {
    pub fn new(steps: Vec<(Operator, OnError)>) -> (r: OperatorChain)
        ensures
            r@ == steps@,
    {
        OperatorChain { steps }
    }

    pub fn is_empty(&self) -> (r: bool)
        ensures
            r == (self@.len() == 0),
    {
        self.steps.len() == 0
    }

    /// Runs the chain. Returns `None` if the event was dropped or
    /// dead-lettered; `run_outcome` gives the dead-lettered event to a
    /// caller that writes it to a dead-letter sink.
    pub fn run(&self, event: Event) -> (r: Option<Event>)
        ensures
            match chain_apply(self@, event@) {
                Some(m) => r matches Some(e) && e@ == m,
                None => r is None,
            },
    {
        match self.run_outcome(event) {
            RunOutcome::Passed(e) => Some(e),
            _ => None,
        }
    }

    /// Runs every step in order. A failing step's policy decides: `Drop`
    /// ends the run; `Pass` records the error and goes on with the event
    /// as it was; `DeadLetter` marks the event, records the error and ends
    /// the run with it.
    #[verifier::loop_isolation(false)]
    pub fn run_outcome(&self, event: Event) -> (r: RunOutcome)
        ensures
            outcome_is(r, chain_end(self@, event@)),
    {
        let mut event = event;
        let ghost e0 = event@;
        let mut i: usize = 0;
        assert(self.steps@.skip(0) =~= self.steps@);
        while i < self.steps.len()
            invariant
                i <= self.steps@.len(),
                chain_end(self.steps@, e0) == chain_end(self.steps@.skip(i as int), event@),
            decreases self.steps@.len() - i,
        {
            let ghost rest = self.steps@.skip(i as int);
            assert(rest.drop_first() =~= self.steps@.skip(i + 1));
            assert(rest[0] == self.steps@[i as int]);
            let step = &self.steps[i];
            match step.0.process(event) {
                Ok(ev) => {
                    event = ev;
                },
                Err((ev, err)) => {
                    let mut ev = ev;
                    let text = err.to_text();
                    let ghost before = ev@;
                    let ghost t = text@;
                    match step.1 {
                        OnError::Drop => {
                            return RunOutcome::Dropped;
                        },
                        OnError::Pass => {
                            ev.meta.errors.push(text);
                            assert(ev@.errors =~= before.errors.push(t));
                            assert(ev@ == with_error(before, t));
                            event = ev;
                        },
                        OnError::DeadLetter => {
                            ev.meta.dead_letter = true;
                            ev.meta.errors.push(text);
                            assert(ev@.errors =~= before.errors.push(t));
                            assert(ev@ == dead_lettered(before, t));
                            return RunOutcome::DeadLettered(ev);
                        },
                    }
                },
            }
            i = i + 1;
        }
        assert(self.steps@.skip(i as int) =~= Seq::<(Operator, OnError)>::empty());
        RunOutcome::Passed(event)
    }
}

} // verus!

verus! {

/// Every step keeps the raw bytes, the observed time and the recorded
/// errors of the event it processes.
pub proof fn lemma_op_apply_keeps(op: Operator, e: EventModel)
    ensures
        op_apply(op, e) matches Ok(e2) ==> e2.raw == e.raw && e2.observed_timestamp == e.observed_timestamp
            && e2.errors == e.errors && e2.dead_letter == e.dead_letter,
{
}

/// Law: a chain whose steps never drop loses no event: every input comes
/// out, passed on or dead-lettered; when every step passes errors on, it
/// is passed on.
pub proof fn law_chain_without_drop_keeps_event(steps: Seq<(Operator, OnError)>, e: EventModel)
    requires
        forall|i: int| 0 <= i < steps.len() ==> (#[trigger] steps[i]).1 != OnError::Drop,
    ensures
        !(chain_end(steps, e) is Dropped),
        (forall|i: int| 0 <= i < steps.len() ==> (#[trigger] steps[i]).1 == OnError::Pass) ==> chain_apply(steps, e) is Some,
    decreases steps.len(),
{
    if steps.len() > 0 {
        assert(steps[0].1 != OnError::Drop);
        let rest = steps.drop_first();
        assert forall|i: int| 0 <= i < rest.len() implies (#[trigger] rest[i]).1 != OnError::Drop by {
            assert(rest[i] == steps[i + 1]);
        }
        match op_apply(steps[0].0, e) {
            Ok(e2) => law_chain_without_drop_keeps_event(rest, e2),
            Err(msg) => {
                law_chain_without_drop_keeps_event(rest, with_error(e, error_text(op_id(steps[0].0), msg)));
            },
        }
    }
}

/// The event a run ends with, passed on or dead-lettered.
pub open spec fn end_event(end: ChainEnd) -> Option<EventModel> {
    match end {
        ChainEnd::Passed(m) => Some(m),
        ChainEnd::Dropped => None,
        ChainEnd::DeadLettered(m) => Some(m),
    }
}

/// Law: whatever event a chain ends with, passed on or dead-lettered,
/// still holds the original raw bytes and observed time, and the errors
/// recorded before the chain ran, in order.
pub proof fn law_chain_keeps_raw_and_errors(steps: Seq<(Operator, OnError)>, e: EventModel)
    ensures
        end_event(chain_end(steps, e)) matches Some(out) ==> out.raw == e.raw && out.observed_timestamp == e.observed_timestamp
            && out.errors.len() >= e.errors.len() && out.errors.subrange(0, e.errors.len() as int) == e.errors,
    decreases steps.len(),
{
    if steps.len() > 0 {
        let rest = steps.drop_first();
        lemma_op_apply_keeps(steps[0].0, e);
        match op_apply(steps[0].0, e) {
            Ok(e2) => law_chain_keeps_raw_and_errors(rest, e2),
            Err(msg) => {
                let t = error_text(op_id(steps[0].0), msg);
                law_chain_keeps_raw_and_errors(rest, with_error(e, t));
                if let Some(out) = end_event(chain_end(steps, e)) {
                    if steps[0].1 == OnError::Pass {
                        let w = with_error(e, t);
                        assert(out.errors.subrange(0, w.errors.len() as int) == w.errors);
                        assert(out.errors.subrange(0, e.errors.len() as int) =~= w.errors.subrange(0, e.errors.len() as int));
                        assert(w.errors.subrange(0, e.errors.len() as int) =~= e.errors);
                    } else {
                        assert(out.errors.subrange(0, e.errors.len() as int) =~= e.errors);
                    }
                }
            },
        }
    } else {
        assert(e.errors.subrange(0, e.errors.len() as int) =~= e.errors);
    }
}

/// Law: when a dead-letter step fails, the run ends there: `run` gives
/// `None`, and the outcome is the event as it was, marked dead-lettered
/// with the step's error, whatever steps follow.
pub proof fn law_dead_letter_stops(steps: Seq<(Operator, OnError)>, e: EventModel)
    requires
        steps.len() > 0,
        steps[0].1 == OnError::DeadLetter,
        op_apply(steps[0].0, e) is Err,
    ensures
        chain_apply(steps, e) is None,
        chain_end(steps, e) == ChainEnd::DeadLettered(dead_lettered(e, error_text(op_id(steps[0].0), op_apply(steps[0].0, e)->Err_0))),
        forall|more: Seq<(Operator, OnError)>| #[trigger] chain_end(steps + more, e) == chain_end(steps, e),
{
    assert forall|more: Seq<(Operator, OnError)>| #[trigger] chain_end(steps + more, e) == chain_end(steps, e) by {
        assert((steps + more)[0] == steps[0]);
    }
}

/// Law: a chain with no steps returns the event unchanged.
pub proof fn law_empty_chain_is_identity(e: EventModel)
    ensures
        chain_apply(Seq::empty(), e) == Some(e),
{
}

} // verus!
