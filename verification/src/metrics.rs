//! Counters for receivers, pipelines and exporters, and their snapshots.

use vstd::prelude::*;
use crate::time::{Timestamp, now};

verus! {

/// A monotonically increasing count that wraps at `u64::MAX` like an
/// atomic `fetch_add`.
pub struct Counter {
    value: u64,
}

impl View for Counter {
    type V = u64;

    closed spec fn view(&self) -> u64 {
        self.value
    }
}

impl Counter {
    pub fn new() -> (c: Counter)
        ensures
            c@ == 0,
    {
        Counter { value: 0 }
    }

    pub fn inc(&mut self)
        ensures
            final(self)@ == (old(self)@ + 1) % 0x1_0000_0000_0000_0000,
    {
        self.add(1);
    }

    pub fn add(&mut self, n: u64)
        ensures
            final(self)@ == (old(self)@ + n) % 0x1_0000_0000_0000_0000,
    {
        self.value = self.value.wrapping_add(n);
    }

    pub fn get(&self) -> (r: u64)
        ensures
            r == self@,
    {
        self.value
    }
}

/// The most recent export failure.
pub struct LastError {
    pub message: String,
    pub at: Timestamp,
}

impl LastError {
    pub fn duplicate(&self) -> (r: LastError)
        ensures
            r.message@ == self.message@,
            r.at == self.at,
    {
        LastError { message: self.message.clone(), at: self.at }
    }
}

pub struct ReceiverMetrics {
    pub events_in: Counter,
}

pub struct ReceiverSnapshot {
    pub events_in: u64,
}

impl ReceiverMetrics {
    pub fn new() -> (m: ReceiverMetrics)
        ensures
            m.events_in@ == 0,
    {
        ReceiverMetrics { events_in: Counter::new() }
    }

    pub fn snapshot(&self) -> (s: ReceiverSnapshot)
        ensures
            s.events_in == self.events_in@,
    {
        ReceiverSnapshot { events_in: self.events_in.get() }
    }
}

pub struct PipelineMetrics {
    pub events_in: Counter,
    pub events_out: Counter,
    pub events_dropped: Counter,
    pub events_dead_lettered: Counter,
    pub parse_errors: Counter,
}

pub struct PipelineSnapshot {
    pub events_in: u64,
    pub events_out: u64,
    pub events_dropped: u64,
    pub events_dead_lettered: u64,
    pub parse_errors: u64,
}

impl PipelineMetrics {
    pub fn new() -> (m: PipelineMetrics)
        ensures
            m.events_in@ == 0,
            m.events_out@ == 0,
            m.events_dropped@ == 0,
            m.events_dead_lettered@ == 0,
            m.parse_errors@ == 0,
    {
        PipelineMetrics {
            events_in: Counter::new(),
            events_out: Counter::new(),
            events_dropped: Counter::new(),
            events_dead_lettered: Counter::new(),
            parse_errors: Counter::new(),
        }
    }

    pub fn snapshot(&self) -> (s: PipelineSnapshot)
        ensures
            s.events_in == self.events_in@,
            s.events_out == self.events_out@,
            s.events_dropped == self.events_dropped@,
            s.events_dead_lettered == self.events_dead_lettered@,
            s.parse_errors == self.parse_errors@,
    {
        PipelineSnapshot {
            events_in: self.events_in.get(),
            events_out: self.events_out.get(),
            events_dropped: self.events_dropped.get(),
            events_dead_lettered: self.events_dead_lettered.get(),
            parse_errors: self.parse_errors.get(),
        }
    }
}

pub struct ExporterMetrics {
    pub events_in: Counter,
    pub batches_sent: Counter,
    pub batches_failed: Counter,
    pub retries: Counter,
    pub last_error: Option<LastError>,
}

pub struct ExporterSnapshot {
    pub events_in: u64,
    pub batches_sent: u64,
    pub batches_failed: u64,
    pub retries: u64,
    pub last_error: Option<LastError>,
}

impl ExporterMetrics {
    pub fn new() -> (m: ExporterMetrics)
        ensures
            m.events_in@ == 0,
            m.batches_sent@ == 0,
            m.batches_failed@ == 0,
            m.retries@ == 0,
            m.last_error is None,
    {
        ExporterMetrics {
            events_in: Counter::new(),
            batches_sent: Counter::new(),
            batches_failed: Counter::new(),
            retries: Counter::new(),
            last_error: None,
        }
    }

    pub fn record_retry(&mut self)
        ensures
            final(self).retries@ == (old(self).retries@ + 1) % 0x1_0000_0000_0000_0000,
            final(self).events_in == old(self).events_in,
            final(self).batches_sent == old(self).batches_sent,
            final(self).batches_failed == old(self).batches_failed,
            final(self).last_error == old(self).last_error,
    {
        self.retries.inc();
    }

    pub fn record_success(&mut self, batch_len: u64)
        ensures
            final(self).events_in@ == (old(self).events_in@ + batch_len) % 0x1_0000_0000_0000_0000,
            final(self).batches_sent@ == (old(self).batches_sent@ + 1) % 0x1_0000_0000_0000_0000,
            final(self).batches_failed == old(self).batches_failed,
            final(self).retries == old(self).retries,
            final(self).last_error == old(self).last_error,
    {
        self.events_in.add(batch_len);
        self.batches_sent.inc();
    }

    /// Counts a failed batch and remembers its message, stamped `at`.
    pub fn record_failure_at(&mut self, batch_len: u64, message: String, at: Timestamp)
        ensures
            final(self).events_in@ == (old(self).events_in@ + batch_len) % 0x1_0000_0000_0000_0000,
            final(self).batches_failed@ == (old(self).batches_failed@ + 1) % 0x1_0000_0000_0000_0000,
            final(self).batches_sent == old(self).batches_sent,
            final(self).retries == old(self).retries,
            final(self).last_error matches Some(e) && e.message@ == message@ && e.at == at,
    {
        self.events_in.add(batch_len);
        self.batches_failed.inc();
        self.last_error = Some(LastError { message, at });
    }

    /// Counts a failed batch and remembers its message, stamped with the
    /// current time.
    pub fn record_failure(&mut self, batch_len: u64, message: String)
        ensures
            final(self).events_in@ == (old(self).events_in@ + batch_len) % 0x1_0000_0000_0000_0000,
            final(self).batches_failed@ == (old(self).batches_failed@ + 1) % 0x1_0000_0000_0000_0000,
            final(self).batches_sent == old(self).batches_sent,
            final(self).retries == old(self).retries,
            final(self).last_error matches Some(e) && e.message@ == message@,
    {
        self.record_failure_at(batch_len, message, now());
    }

    pub fn snapshot(&self) -> (s: ExporterSnapshot)
        ensures
            s.events_in == self.events_in@,
            s.batches_sent == self.batches_sent@,
            s.batches_failed == self.batches_failed@,
            s.retries == self.retries@,
            match self.last_error {
                Some(e) => s.last_error matches Some(x) && x.message@ == e.message@ && x.at == e.at,
                None => s.last_error is None,
            },
    {
        ExporterSnapshot {
            events_in: self.events_in.get(),
            batches_sent: self.batches_sent.get(),
            batches_failed: self.batches_failed.get(),
            retries: self.retries.get(),
            last_error: match &self.last_error {
                Some(e) => Some(e.duplicate()),
                None => None,
            },
        }
    }
}

} // verus!

verus! {

/// Everything the status endpoint reports: when the collector started,
/// how long it has run, and each component's counters by name.
pub struct MetricsSnapshot {
    pub started_at: Timestamp,
    pub uptime_seconds: i64,
    pub receivers: Vec<(String, ReceiverSnapshot)>,
    pub pipelines: Vec<(String, PipelineSnapshot)>,
    pub exporters: Vec<(String, ExporterSnapshot)>,
}

} // verus!
