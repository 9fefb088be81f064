//! Async runtime configuration and the names of its worker threads.

use vstd::prelude::*;

use crate::duration::Duration;
use crate::text::{concat_str, decimal, fmt_u128, owned};

verus! {

/// Prefix of worker thread names when none is configured.
pub const DEFAULT_THREAD_NAME: &'static str = "uxum-worker";

/// Kind of async runtime.
#[derive(Clone, Copy, Debug, PartialEq, Eq, Structural)]
pub enum RuntimeType {
    /// Single-threaded runtime.
    CurrentThread,
    /// Work-stealing multi-threaded runtime.
    MultiThread,
}

impl Default for RuntimeType {
    fn default() -> (r: RuntimeType)
        ensures
            r == RuntimeType::MultiThread,
    {
        RuntimeType::MultiThread
    }
}

/// Async runtime configuration.
#[derive(Clone, Debug)]
pub struct RuntimeConfig {
    /// Kind of runtime.
    pub runtime_type: RuntimeType,
    /// Ticks between polls of external events; never zero.
    pub event_interval: Option<u32>,
    /// Ticks between polls of the global task queue; never zero.
    pub global_unique_interval: Option<u32>,
    /// Limit of threads for blocking tasks; never zero.
    pub max_blocking_threads: Option<usize>,
    /// Limit of I/O events handled per tick; never zero.
    pub max_io_events_per_tick: Option<usize>,
    /// Time idle blocking threads are kept.
    pub thread_keep_alive: Option<Duration>,
    /// Prefix of worker thread names.
    pub thread_name: Option<String>,
    /// Stack size of worker threads; never zero.
    pub thread_stack_size: Option<usize>,
    /// Number of worker threads; never zero.
    pub worker_threads: Option<usize>,
}

impl Default for RuntimeConfig {
    fn default() -> (r: RuntimeConfig)
        ensures
            r.runtime_type == RuntimeType::MultiThread,
            r.event_interval is None && r.global_unique_interval is None,
            r.max_blocking_threads is None && r.max_io_events_per_tick is None,
            r.thread_keep_alive is None && r.thread_name is None,
            r.thread_stack_size is None && r.worker_threads is None,
    {
        RuntimeConfig {
            runtime_type: RuntimeType::MultiThread,
            event_interval: None,
            global_unique_interval: None,
            max_blocking_threads: None,
            max_io_events_per_tick: None,
            thread_keep_alive: None,
            thread_name: None,
            thread_stack_size: None,
            worker_threads: None,
        }
    }
}

/// Name of a worker thread: the prefix, a dash and the thread's number.
pub open spec fn worker_name(prefix: Seq<char>, n: nat) -> Seq<char> {
    prefix + "-"@ + decimal(n)
}

impl RuntimeConfig {
    /// Prefix of worker thread names: the configured one, or `uxum-worker`.
    pub fn thread_name_prefix(&self) -> (r: String)
        ensures
            r@ == match self.thread_name {
                Some(n) => n@,
                None => DEFAULT_THREAD_NAME@,
            },
    {
        match &self.thread_name {
            Some(n) => owned(n.as_str()),
            None => owned(DEFAULT_THREAD_NAME),
        }
    }

    /// The namer of this runtime's worker threads.
    pub fn thread_namer(&self) -> (r: ThreadNamer)
        ensures
            r.prefix@ == match self.thread_name {
                Some(n) => n@,
                None => DEFAULT_THREAD_NAME@,
            },
            r.next == 0,
    {
        ThreadNamer { prefix: self.thread_name_prefix(), next: 0 }
    }
}

/// Gives worker threads successive numbered names.
#[derive(Clone, Debug)]
pub struct ThreadNamer {
    /// Prefix of the names.
    pub prefix: String,
    /// Number of the next thread.
    pub next: usize,
}

impl ThreadNamer {
    /// The name of the next thread; numbers wrap around after `usize::MAX`.
    pub fn next_name(&mut self) -> (r: String)
        ensures
            r@ == worker_name(old(self).prefix@, old(self).next as nat),
            final(self).prefix == old(self).prefix,
            final(self).next == if old(self).next == usize::MAX { 0 } else { (old(self).next + 1) as usize },
    {
        let n = fmt_u128(self.next as u128);
        let head = concat_str(self.prefix.as_str(), "-");
        let name = concat_str(head.as_str(), n.as_str());
        self.next = if self.next == usize::MAX { 0 } else { self.next + 1 };
        name
    }
}

} // verus!
