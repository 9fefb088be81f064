//! Service supervisor notifications: what to tell the supervisor and how often
//! to ping its watchdog.

use vstd::prelude::*;

use crate::duration::Duration;
use crate::text::{concat_str, owned};

verus! {

/// States reported to the supervisor.
#[derive(Clone, Copy, Debug, PartialEq, Eq, Structural)]
pub enum NotifyState {
    /// The service is ready.
    Ready,
    /// The service is reloading.
    Reloading,
    /// The service is stopping.
    Stopping,
    /// The service is alive (watchdog tick).
    Watchdog,
}

/// Outcome of sending a notification.
#[derive(Clone, Copy, Debug, PartialEq, Eq, Structural)]
pub enum NotifyOutcome {
    /// The supervisor received it.
    Sent,
    /// No supervisor was listening.
    Unavailable,
    /// Sending failed.
    Failed,
}

/// Log severity of a notification report.
#[derive(Clone, Copy, Debug, PartialEq, Eq, Structural)]
pub enum ReportLevel {
    Trace,
    Info,
    Warn,
    Error,
}

/// What a notification is about, as written in reports.
pub open spec fn state_text(s: NotifyState) -> Seq<char> {
    match s {
        NotifyState::Ready => "service ready"@,
        NotifyState::Reloading => "service reloading"@,
        NotifyState::Stopping => "service stopping"@,
        NotifyState::Watchdog => "watchdog tick"@,
    }
}

/// Report of a notification: level and message.
pub open spec fn report_spec(s: NotifyState, o: NotifyOutcome) -> (ReportLevel, Seq<char>) {
    match o {
        NotifyOutcome::Sent => (
            if s == NotifyState::Watchdog { ReportLevel::Trace } else { ReportLevel::Info },
            "supervisor notified: "@ + state_text(s),
        ),
        NotifyOutcome::Unavailable => (ReportLevel::Warn, "supervisor unavailable: "@ + state_text(s)),
        NotifyOutcome::Failed => (
            ReportLevel::Error,
            if s == NotifyState::Watchdog { "watchdog notification error"@ } else { "supervisor notification error"@ },
        ),
    }
}

/// Notifies the service supervisor, when there is one.
#[derive(Clone, Copy, Debug, PartialEq, Eq, Structural)]
pub struct ServiceNotifier {
    /// The system was booted with systemd.
    pub has_systemd: bool,
}

impl ServiceNotifier {
    /// A notifier for a system booted with systemd or not.
    pub fn new(has_systemd: bool) -> (r: ServiceNotifier)
        ensures
            r.has_systemd == has_systemd,
    {
        ServiceNotifier { has_systemd }
    }

    /// Whether notifications are sent at all.
    pub fn enabled(&self) -> (r: bool)
        ensures
            r == self.has_systemd,
    {
        self.has_systemd
    }

    /// Interval of watchdog pings: half the supervisor's watchdog timeout, and
    /// none without systemd or without a watchdog.
    pub fn watchdog_interval(&self, watchdog_timeout: Option<Duration>) -> (r: Option<Duration>)
        requires
            watchdog_timeout matches Some(d) ==> d.wf(),
        ensures
            match r {
                None => !self.has_systemd || watchdog_timeout is None,
                Some(d) => self.has_systemd && (watchdog_timeout matches Some(w) && d.wf() && d@ == w@ / 2),
            },
    {
        if !self.has_systemd {
            return None;
        }
        match watchdog_timeout {
            Some(w) => Some(w.div_u32(2)),
            None => None,
        }
    }

    /// The report of a notification.
    pub fn report(&self, state: NotifyState, outcome: NotifyOutcome) -> (r: (ReportLevel, String))
        ensures
            (r.0, r.1@) == report_spec(state, outcome),
    {
        let what: &str = match state {
            NotifyState::Ready => "service ready",
            NotifyState::Reloading => "service reloading",
            NotifyState::Stopping => "service stopping",
            NotifyState::Watchdog => "watchdog tick",
        };
        match outcome {
            NotifyOutcome::Sent => {
                let level = match state {
                    NotifyState::Watchdog => ReportLevel::Trace,
                    _ => ReportLevel::Info,
                };
                (level, concat_str("supervisor notified: ", what))
            },
            NotifyOutcome::Unavailable => (ReportLevel::Warn, concat_str("supervisor unavailable: ", what)),
            NotifyOutcome::Failed => match state {
                NotifyState::Watchdog => (ReportLevel::Error, owned("watchdog notification error")),
                _ => (ReportLevel::Error, owned("supervisor notification error")),
            },
        }
    }
}

} // verus!
