//! Shared exporter logic: envelope framing, batching decisions, and the
//! retry/backoff policy of HEC exporters.

use vstd::prelude::*;
use crate::json::{JsonValue, JVal, spec_json_text, json_text};
use crate::event::{Event, EventModel, spec_render_body};
use crate::metrics::ExporterMetrics;
use crate::text::append_str;

verus! {

#[derive(Debug)]
pub enum EnvelopeError {
    Message(String),
}

/// How one event becomes one wire envelope.
pub trait EnvelopeBuilder {
    /// The envelope for an event, or the error's message.
    spec fn spec_build(&self, e: EventModel) -> Result<JVal, Seq<char>>;

    fn build(&self, event: &Event) -> (r: Result<JsonValue, EnvelopeError>)
        ensures
            match self.spec_build(event@) {
                Ok(v) => r matches Ok(x) && x@ == v,
                Err(m) => r matches Err(EnvelopeError::Message(x)) && x@ == m,
            };
}

/// When a batch is sent: after `max_events` events, after about
/// `max_bytes` bytes, or every `flush_interval_ms` milliseconds.
pub struct BatchConfig {
    pub max_events: usize,
    pub max_bytes: usize,
    pub flush_interval_ms: u64,
}

impl BatchConfig {
    pub fn default() -> (r: BatchConfig)
        ensures
            r.max_events == 100,
            r.max_bytes == 1_000_000,
            r.flush_interval_ms == 2000,
    {
        BatchConfig { max_events: 100, max_bytes: 1_000_000, flush_interval_ms: 2000 }
    }
}

/// How often, and how far apart, a rejected batch is sent again.
pub struct RetryPolicy {
    pub max_attempts: u32,
    pub initial_backoff_ms: u64,
    pub max_backoff_ms: u64,
}

impl RetryPolicy {
    pub fn default() -> (r: RetryPolicy)
        ensures
            r.max_attempts == 5,
            r.initial_backoff_ms == 500,
            r.max_backoff_ms == 30_000,
    {
        RetryPolicy { max_attempts: 5, initial_backoff_ms: 500, max_backoff_ms: 30_000 }
    }
}

/// The newline-delimited body for a batch: each envelope as compact JSON
/// followed by `\n`; the first envelope that cannot be built is the error.
pub open spec fn spec_encode_batch<B: EnvelopeBuilder>(b: B, evs: Seq<EventModel>) -> Result<Seq<char>, Seq<char>>
    decreases evs.len(),
{
    if evs.len() == 0 {
        Ok(Seq::empty())
    } else {
        match spec_encode_batch(b, evs.drop_last()) {
            Err(m) => Err(m),
            Ok(t) => match b.spec_build(evs.last()) {
                Err(m) => Err(m),
                Ok(v) => Ok(t + spec_json_text(v) + "\n"@),
            },
        }
    }
}

pub open spec fn event_models(v: Seq<Event>) -> Seq<EventModel> {
    Seq::new(v.len(), |i: int| v[i]@)
}

/// Frames a batch for the wire.
pub fn encode_batch<B: EnvelopeBuilder>(builder: &B, batch: &[Event]) -> (r: Result<String, EnvelopeError>)
    ensures
        match spec_encode_batch(*builder, event_models(batch@)) {
            Ok(t) => r matches Ok(x) && x@ == t,
            Err(m) => r matches Err(EnvelopeError::Message(x)) && x@ == m,
        },
{
    let mut body = String::new();
    let mut i: usize = 0;
    let ghost evs = event_models(batch@);
    while i < batch.len()
        invariant
            i <= batch@.len(),
            evs == event_models(batch@),
            spec_encode_batch(*builder, evs.take(i as int)) == Ok::<Seq<char>, Seq<char>>(body@),
        decreases batch@.len() - i,
    {
        assert(evs.take(i + 1).drop_last() =~= evs.take(i as int));
        assert(evs.take(i + 1).last() == batch@[i as int]@);
        let value = match builder.build(&batch[i]) {
            Ok(v) => v,
            Err(e) => {
                proof {
                    lemma_encode_err_prefix(*builder, evs, i as int + 1);
                }
                return Err(e);
            },
        };
        let text = json_text(&value);
        append_str(&mut body, text.as_str());
        append_str(&mut body, "\n");
        i = i + 1;
    }
    assert(evs.take(i as int) =~= evs);
    Ok(body)
}

/// An error in encoding a prefix is the error of the whole batch.
proof fn lemma_encode_err_prefix<B: EnvelopeBuilder>(b: B, evs: Seq<EventModel>, k: int)
    requires
        0 <= k <= evs.len(),
        spec_encode_batch(b, evs.take(k)) is Err,
    ensures
        spec_encode_batch(b, evs) == spec_encode_batch(b, evs.take(k)),
    decreases evs.len() - k,
{
    if k < evs.len() {
        assert(evs.take(k + 1).drop_last() =~= evs.take(k));
        lemma_encode_err_prefix(b, evs, k + 1);
    } else {
        assert(evs.take(k) =~= evs);
    }
}

/// `str::len`: the UTF-8 length of a text. No allocation, and so no
/// string, holds more than `isize::MAX` bytes.
#[verifier::external_body]
pub(crate) fn utf8_len(s: &str) -> (r: usize)
    ensures
        r == vstd::utf8::encode_utf8(s@).len(),
        r <= isize::MAX,
{
    s.len()
}

/// The estimated wire size of an event: its rendered body's UTF-8 length
/// plus 64 bytes of envelope.
pub open spec fn spec_approx_size(e: EventModel) -> nat {
    vstd::utf8::encode_utf8(spec_render_body(e.body)).len() + 64
}

pub fn approx_size(event: &Event) -> (r: usize)
    ensures
        r == spec_approx_size(event@),
{
    let body = event.render_body();
    utf8_len(body.as_str()) + 64
}

/// An input to the batching of a run: an event arriving, the flush
/// timer, or the end of the run (the input closed, or shutdown).
pub enum BatchInput {
    Arrive(EventModel),
    Tick,
    Close,
}

/// What one input does: the waiting events and their size estimate
/// afterwards, and the batch handed back to be sent (empty when there is
/// none; an empty batch is never sent).
pub open spec fn batch_step(c: BatchConfig, pending: Seq<EventModel>, bytes: nat, inp: BatchInput) -> (Seq<EventModel>, nat, Seq<EventModel>) {
    match inp {
        BatchInput::Arrive(e) => {
            let all = pending.push(e);
            let total = bytes + spec_approx_size(e);
            if all.len() >= c.max_events || total >= c.max_bytes {
                (Seq::empty(), 0, all)
            } else {
                (all, total, Seq::empty())
            }
        },
        BatchInput::Tick => if pending.len() > 0 {
            (Seq::empty(), 0, pending)
        } else {
            (pending, bytes, Seq::empty())
        },
        BatchInput::Close => (Seq::empty(), bytes, pending),
    }
}

/// A run of inputs from a given state: the waiting events and size
/// afterwards, and the batches sent, in order.
pub open spec fn batch_run(c: BatchConfig, pending: Seq<EventModel>, bytes: nat, inputs: Seq<BatchInput>) -> (Seq<EventModel>, nat, Seq<Seq<EventModel>>)
    decreases inputs.len(),
{
    if inputs.len() == 0 {
        (pending, bytes, Seq::empty())
    } else {
        let before = batch_run(c, pending, bytes, inputs.drop_last());
        let after = batch_step(c, before.0, before.1, inputs.last());
        (after.0, after.1, if after.2.len() > 0 {
            before.2.push(after.2)
        } else {
            before.2
        })
    }
}

/// The events that arrive in a run, in order.
pub open spec fn arrivals(inputs: Seq<BatchInput>) -> Seq<EventModel>
    decreases inputs.len(),
{
    if inputs.len() == 0 {
        Seq::empty()
    } else {
        match inputs.last() {
            BatchInput::Arrive(e) => arrivals(inputs.drop_last()).push(e),
            _ => arrivals(inputs.drop_last()),
        }
    }
}

/// Batches laid end to end.
pub open spec fn joined(batches: Seq<Seq<EventModel>>) -> Seq<EventModel>
    decreases batches.len(),
{
    if batches.len() == 0 {
        Seq::empty()
    } else {
        joined(batches.drop_last()) + batches.last()
    }
}

/// The most events a batch can hold: `max_events`, and at least one.
pub open spec fn batch_cap(c: BatchConfig) -> nat {
    if c.max_events == 0 {
        1
    } else {
        c.max_events as nat
    }
}

/// Law: over a run that starts empty, every event that arrives is sent
/// in exactly one batch, in arrival order, or is still waiting; every
/// batch sent is non-empty and holds at most `max_events` events (at
/// least one); the events waiting are fewer than a full batch; and a run
/// that ends with the end of input leaves nothing waiting.
pub proof fn law_batching_sends_each_event_once(c: BatchConfig, inputs: Seq<BatchInput>)
    ensures
        ({
            let r = batch_run(c, Seq::empty(), 0, inputs);
            &&& joined(r.2) + r.0 == arrivals(inputs)
            &&& forall|i: int| 0 <= i < r.2.len() ==> 0 < (#[trigger] r.2[i]).len() <= batch_cap(c)
            &&& r.0.len() < batch_cap(c)
            &&& (inputs.len() > 0 && inputs.last() is Close ==> r.0.len() == 0 && joined(r.2) == arrivals(inputs))
        }),
    decreases inputs.len(),
{
    let r = batch_run(c, Seq::empty(), 0, inputs);
    if inputs.len() == 0 {
        assert(joined(r.2) + r.0 =~= arrivals(inputs));
    } else {
        let init = inputs.drop_last();
        law_batching_sends_each_event_once(c, init);
        let before = batch_run(c, Seq::empty(), 0, init);
        let after = batch_step(c, before.0, before.1, inputs.last());
        assert(joined(before.2) + before.0 == arrivals(init));
        if after.2.len() > 0 {
            assert(before.2.push(after.2).drop_last() =~= before.2);
            assert(joined(before.2.push(after.2)) == joined(before.2) + after.2);
        }
        assert(joined(r.2) + r.0 =~= arrivals(inputs));
        if inputs.last() is Close {
            assert(joined(r.2) =~= arrivals(inputs));
        }
        assert forall|i: int| 0 <= i < r.2.len() implies 0 < (#[trigger] r.2[i]).len() <= batch_cap(c) by {
            if i < before.2.len() {
                assert(r.2[i] == before.2[i]);
            }
        }
    }
}

/// The events waiting to be sent, and their estimated size.
pub struct Batcher {
    pub config: BatchConfig,
    pub batch: Vec<Event>,
    pub batch_bytes: usize,
}

impl Batcher {
    pub fn new(config: BatchConfig) -> (r: Batcher)
        ensures
            r.batch@.len() == 0,
            r.batch_bytes == 0,
            r.config == config,
    {
        Batcher { config, batch: Vec::new(), batch_bytes: 0 }
    }

    /// Adds an event; when the batch reaches `max_events` events or
    /// `max_bytes` bytes it is handed back to be sent, and a new one
    /// starts.
    pub fn on_event(&mut self, event: Event) -> (r: Option<Vec<Event>>)
        requires
            old(self).batch_bytes + spec_approx_size(event@) <= usize::MAX,
        ensures
            final(self).config == old(self).config,
            ({
                let all = event_models(old(self).batch@).push(event@);
                let bytes = old(self).batch_bytes + spec_approx_size(event@);
                let full = all.len() >= old(self).config.max_events || bytes >= old(self).config.max_bytes;
                &&& full ==> (r matches Some(b) && event_models(b@) == all) && final(self).batch@.len() == 0
                    && final(self).batch_bytes == 0
                &&& !full ==> r is None && event_models(final(self).batch@) == all && final(self).batch_bytes == bytes
            }),
            batch_step(old(self).config, event_models(old(self).batch@), old(self).batch_bytes as nat, BatchInput::Arrive(event@))
                == (event_models(final(self).batch@), final(self).batch_bytes as nat, match r {
                    Some(b) => event_models(b@),
                    None => Seq::empty(),
                }),
    {
        let size = approx_size(&event);
        self.batch_bytes = self.batch_bytes + size;
        let ghost before = self.batch@;
        self.batch.push(event);
        assert(event_models(self.batch@) =~= event_models(before).push(self.batch@.last()@));
        if self.batch.len() >= self.config.max_events || self.batch_bytes >= self.config.max_bytes {
            let mut out: Vec<Event> = Vec::new();
            std::mem::swap(&mut out, &mut self.batch);
            self.batch_bytes = 0;
            Some(out)
        } else {
            None
        }
    }

    /// On the flush timer: hands back a non-empty batch.
    pub fn on_tick(&mut self) -> (r: Option<Vec<Event>>)
        ensures
            final(self).config == old(self).config,
            old(self).batch@.len() > 0 ==> (r matches Some(b) && b@ == old(self).batch@) && final(self).batch@.len() == 0
                && final(self).batch_bytes == 0,
            old(self).batch@.len() == 0 ==> r is None && final(self).batch@ == old(self).batch@
                && final(self).batch_bytes == old(self).batch_bytes,
            batch_step(old(self).config, event_models(old(self).batch@), old(self).batch_bytes as nat, BatchInput::Tick)
                == (event_models(final(self).batch@), final(self).batch_bytes as nat, match r {
                    Some(b) => event_models(b@),
                    None => Seq::empty(),
                }),
    {
        if self.batch.len() > 0 {
            let mut out: Vec<Event> = Vec::new();
            std::mem::swap(&mut out, &mut self.batch);
            self.batch_bytes = 0;
            Some(out)
        } else {
            None
        }
    }

    /// On shutdown or when the input closes: hands back whatever is left.
    pub fn on_close(&mut self) -> (r: Vec<Event>)
        ensures
            final(self).config == old(self).config,
            r@ == old(self).batch@,
            final(self).batch@.len() == 0,
            final(self).batch_bytes == old(self).batch_bytes,
            batch_step(old(self).config, event_models(old(self).batch@), old(self).batch_bytes as nat, BatchInput::Close)
                == (event_models(final(self).batch@), final(self).batch_bytes as nat, event_models(r@)),
    {
        let mut out: Vec<Event> = Vec::new();
        std::mem::swap(&mut out, &mut self.batch);
        assert(event_models(self.batch@) =~= Seq::<EventModel>::empty());
        out
    }
}

/// What came back from one send of a batch.
pub enum SendResult {
    /// An HTTP response: its status code and the status as text (such as
    /// `500 Internal Server Error`).
    Status(u16, String),
    /// The request did not complete; the error's text.
    RequestError(String),
}

/// Where a batch's delivery stands.
pub struct RetryState {
    pub attempt: u32,
    pub backoff_ms: u64,
}

/// What to do after a send.
pub enum RetryStep {
    Delivered,
    GaveUp,
    RetryAfter(u64),
}

impl RetryPolicy {
    /// Before the first send.
    pub fn start(&self) -> (r: RetryState)
        ensures
            r.attempt == 0,
            r.backoff_ms == self.initial_backoff_ms,
    {
        RetryState { attempt: 0, backoff_ms: self.initial_backoff_ms }
    }
}

/// A status in the 2xx range is a success.
pub open spec fn is_success(code: u16) -> bool {
    200 <= code <= 299
}

/// The send was answered with a 2xx status.
pub open spec fn send_ok(r: SendResult) -> bool {
    match r {
        SendResult::Status(c, _) => is_success(c),
        SendResult::RequestError(_) => false,
    }
}

/// The failure message recorded for a send that did not succeed.
pub open spec fn failure_message(r: SendResult) -> Seq<char> {
    match r {
        SendResult::Status(_, text) => "HEC export rejected: "@ + text@,
        SendResult::RequestError(e) => "HEC export request error: "@ + e@,
    }
}

/// The next backoff: double the last one, capped at the policy's maximum.
pub open spec fn next_backoff(b: u64, max: u64) -> u64 {
    if 2 * b <= max { (2 * b) as u64 } else { max }
}

/// Decides what follows a send: a 2xx status is a delivery (counted as a
/// sent batch); any other outcome is retried after the current backoff
/// until `max_attempts` sends were made, and then given up (counted as a
/// failed batch with its message).
pub fn retry_step(
    policy: &RetryPolicy,
    state: &mut RetryState,
    result: &SendResult,
    metrics: &mut ExporterMetrics,
    batch_len: u64,
) -> (r: RetryStep)
    requires
        old(state).attempt < u32::MAX,
    ensures
        final(state).attempt == old(state).attempt + 1,
        send_ok(*result) ==> r is Delivered
            && final(metrics).events_in@ == (old(metrics).events_in@ + batch_len) % 0x1_0000_0000_0000_0000
            && final(metrics).batches_sent@ == (old(metrics).batches_sent@ + 1) % 0x1_0000_0000_0000_0000
            && final(metrics).batches_failed == old(metrics).batches_failed
            && final(metrics).retries == old(metrics).retries,
        !send_ok(*result) && old(state).attempt + 1 >= policy.max_attempts
            ==> r is GaveUp
            && final(metrics).events_in@ == (old(metrics).events_in@ + batch_len) % 0x1_0000_0000_0000_0000
            && final(metrics).batches_failed@ == (old(metrics).batches_failed@ + 1) % 0x1_0000_0000_0000_0000
            && final(metrics).batches_sent == old(metrics).batches_sent
            && final(metrics).retries == old(metrics).retries
            && (final(metrics).last_error matches Some(e) && e.message@ == failure_message(*result)),
        !send_ok(*result) && old(state).attempt + 1 < policy.max_attempts
            ==> r == RetryStep::RetryAfter(old(state).backoff_ms)
            && final(state).backoff_ms == next_backoff(old(state).backoff_ms, policy.max_backoff_ms)
            && final(metrics).retries@ == (old(metrics).retries@ + 1) % 0x1_0000_0000_0000_0000
            && final(metrics).events_in == old(metrics).events_in
            && final(metrics).batches_sent == old(metrics).batches_sent
            && final(metrics).batches_failed == old(metrics).batches_failed
            && final(metrics).last_error == old(metrics).last_error,
{
    state.attempt = state.attempt + 1;
    let message = match result {
        SendResult::Status(code, text) => {
            if 200 <= *code && *code <= 299 {
                metrics.record_success(batch_len);
                return RetryStep::Delivered;
            }
            let mut m = String::new();
            append_str(&mut m, "HEC export rejected: ");
            append_str(&mut m, text.as_str());
            m
        },
        SendResult::RequestError(e) => {
            let mut m = String::new();
            append_str(&mut m, "HEC export request error: ");
            append_str(&mut m, e.as_str());
            m
        },
    };
    assert(message@ =~= failure_message(*result));
    if state.attempt >= policy.max_attempts {
        metrics.record_failure(batch_len, message);
        return RetryStep::GaveUp;
    }
    metrics.record_retry();
    let wait = state.backoff_ms;
    let doubled: u128 = 2 * (state.backoff_ms as u128);
    state.backoff_ms = if doubled <= policy.max_backoff_ms as u128 { doubled as u64 } else { policy.max_backoff_ms };
    RetryStep::RetryAfter(wait)
}

/// Law: a batch is sent at most `max(max_attempts, 1)` times, and every
/// wait between sends is at most the larger of the first backoff and the
/// cap.
pub proof fn law_retry_bounds(policy: RetryPolicy, attempt: u32, backoff: u64)
    requires
        attempt < policy.max_attempts,
        backoff <= if policy.initial_backoff_ms >= policy.max_backoff_ms { policy.initial_backoff_ms } else { policy.max_backoff_ms },
    ensures
        attempt + 1 <= policy.max_attempts,
        next_backoff(backoff, policy.max_backoff_ms) <= if policy.initial_backoff_ms >= policy.max_backoff_ms {
            policy.initial_backoff_ms
        } else {
            policy.max_backoff_ms
        },
{
}

/// An HEC exporter's settings: where and how it sends, and how one event
/// becomes one envelope.
pub struct HttpHecExporter<B> {
    pub name: String,
    pub endpoint: String,
    pub auth_header: String,
    pub builder: B,
    pub batch: BatchConfig,
    pub retry: RetryPolicy,
}

impl<B: EnvelopeBuilder> HttpHecExporter<B> {
    /// The exporter sends with the header `Authorization: Splunk <token>`.
    pub fn new(name: &str, endpoint: String, token: &str, builder: B, batch: BatchConfig, retry: RetryPolicy) -> (r: HttpHecExporter<B>)
        ensures
            r.name@ == name@,
            r.endpoint == endpoint,
            r.auth_header@ == "Splunk "@ + token@,
            r.builder == builder,
            r.batch == batch,
            r.retry == retry,
    {
        let mut auth = String::new();
        append_str(&mut auth, "Splunk ");
        append_str(&mut auth, token);
        HttpHecExporter { name: name.to_owned(), endpoint, auth_header: auth, builder, batch, retry }
    }

    pub fn name(&self) -> (r: &str)
        ensures
            r@ == self.name@,
    {
        self.name.as_str()
    }

    /// The wire body for a batch.
    pub fn encode_batch(&self, batch: &[Event]) -> (r: Result<String, EnvelopeError>)
        ensures
            match spec_encode_batch(self.builder, event_models(batch@)) {
                Ok(t) => r matches Ok(x) && x@ == t,
                Err(m) => r matches Err(EnvelopeError::Message(x)) && x@ == m,
            },
    {
        encode_batch(&self.builder, batch)
    }
}

} // verus!
