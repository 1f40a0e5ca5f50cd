//! Configuration of a tracing decorator.

use vstd::prelude::*;

verus! {

/// Configuration for a decorator that enables tracing output for a test.
///
/// The value only carries the configuration: the default filtering
/// directives, whether events are pretty-printed, and whether the subscriber
/// is installed globally rather than for the current thread. Building the
/// subscriber and installing it around a test run is the embedding harness's
/// job — a log subscriber is consumed as an opaque decorator like any other.
#[derive(Debug, Clone, Copy)]
pub struct Trace {
    directives: Option<&'static str>,
    pretty: bool,
    global: bool,
}

impl Trace {
    /// The default filtering directives, when configured.
    pub closed spec fn spec_directives(self) -> Option<&'static str> {
        self.directives
    }

    /// Whether pretty formatting is configured.
    pub closed spec fn is_pretty(self) -> bool {
        self.pretty
    }

    /// Whether the global subscriber setup is configured.
    pub closed spec fn is_global(self) -> bool {
        self.global
    }

    /// Creates a configuration with the specified default directives. The
    /// directives can be overridden by the environment at run time.
    pub fn new(directives: &'static str) -> (r: Self)
        ensures
            r.spec_directives() == Some(directives),
            !r.is_pretty(),
            !r.is_global(),
    {
        Trace { directives: Some(directives), pretty: false, global: false }
    }

    /// Enables pretty formatting for the tracing events.
    pub fn pretty(self) -> (r: Self)
        ensures
            r.spec_directives() == self.spec_directives(),
            r.is_pretty(),
            r.is_global() == self.is_global(),
    {
        Trace { pretty: true, ..self }
    }

    /// Sets up the tracing subscriber globally instead of the default
    /// thread-local setup. This is only beneficial for multithreaded tests,
    /// and may have undesired side effects.
    pub fn global(self) -> (r: Self)
        ensures
            r.spec_directives() == self.spec_directives(),
            r.is_pretty() == self.is_pretty(),
            r.is_global(),
    {
        Trace { global: true, ..self }
    }

    /// The configured default directives.
    pub fn directives(&self) -> (r: Option<&'static str>)
        ensures
            r == self.spec_directives(),
    {
        self.directives
    }

    /// Whether pretty formatting is configured.
    pub fn uses_pretty_format(&self) -> (r: bool)
        ensures
            r == self.is_pretty(),
    {
        self.pretty
    }

    /// Whether the global subscriber setup is configured.
    pub fn uses_global_subscriber(&self) -> (r: bool)
        ensures
            r == self.is_global(),
    {
        self.global
    }
}

} // verus!
