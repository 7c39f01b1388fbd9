//! The live dashboard's state: the last snapshot polled from a running
//! collector, the last poll error, and whether to quit. Polling and
//! drawing are the terminal runner's; this only decides.

use vstd::prelude::*;
use crate::metrics::MetricsSnapshot;
use crate::editor_input::{KeyPress, Key};

verus! {

/// A monotonic clock reading, kept to show when the last poll happened.
#[verifier::external_type_specification]
#[verifier::external_body]
pub struct ExInstant(std::time::Instant);

/// The monotonic clock's reading (`std::time::Instant::now`). Nothing is
/// stated of the value: it is the clock's.
#[verifier::external_body]
fn instant_now() -> std::time::Instant {
    std::time::Instant::now()
}

/// What the dashboard reacts to.
pub enum AppEvent {
    /// The outcome of one poll of the status endpoint.
    PollResult(Result<MetricsSnapshot, String>),
    Key(KeyPress),
}

pub struct App {
    pub status_addr: String,
    pub last_snapshot: Option<MetricsSnapshot>,
    pub last_error: Option<String>,
    pub last_poll_at: Option<std::time::Instant>,
    pub should_quit: bool,
}

/// Whether a key quits: `q` or Esc.
pub open spec fn quits(key: KeyPress) -> bool {
    key.code == Key::Char('q') || key.code == Key::Esc
}

impl App {
    /// A dashboard on an address that has not been polled yet.
    pub fn new(status_addr: String) -> (r: App)
        ensures
            r.status_addr@ == status_addr@,
            r.last_snapshot is None,
            r.last_error is None,
            r.last_poll_at is None,
            !r.should_quit,
    {
        App { status_addr, last_snapshot: None, last_error: None, last_poll_at: None, should_quit: false }
    }

    /// A good poll replaces the snapshot and clears the error; a failed
    /// one keeps the last good snapshot and records the error; `q` and Esc
    /// ask to quit, other keys do nothing.
    pub fn update(&mut self, event: AppEvent)
        ensures
            final(self).status_addr == old(self).status_addr,
            match event {
                AppEvent::PollResult(Ok(snap)) => final(self).last_snapshot == Some(snap) && final(self).last_error is None
                    && final(self).last_poll_at is Some && final(self).should_quit == old(self).should_quit,
                AppEvent::PollResult(Err(m)) => final(self).last_snapshot == old(self).last_snapshot
                    && final(self).last_error == Some(m) && final(self).last_poll_at is Some
                    && final(self).should_quit == old(self).should_quit,
                AppEvent::Key(k) => final(self).last_snapshot == old(self).last_snapshot && final(self).last_error == old(self).last_error
                    && final(self).last_poll_at == old(self).last_poll_at
                    && final(self).should_quit == (old(self).should_quit || quits(k)),
            },
    {
        match event {
            AppEvent::PollResult(Ok(snapshot)) => {
                self.last_snapshot = Some(snapshot);
                self.last_error = None;
                self.last_poll_at = Some(instant_now());
            },
            AppEvent::PollResult(Err(message)) => {
                self.last_error = Some(message);
                self.last_poll_at = Some(instant_now());
            },
            AppEvent::Key(key) => self.handle_key(key),
        }
    }

    fn handle_key(&mut self, key: KeyPress)
        ensures
            final(self).status_addr == old(self).status_addr,
            final(self).last_snapshot == old(self).last_snapshot,
            final(self).last_error == old(self).last_error,
            final(self).last_poll_at == old(self).last_poll_at,
            final(self).should_quit == (old(self).should_quit || quits(key)),
    {
        if key.code == Key::Char('q') || key.code == Key::Esc {
            self.should_quit = true;
        }
    }
}

} // verus!
