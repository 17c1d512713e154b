//! Capture backend interface and its inert variant.
//!
//! The native platform backends install OS input observers on dedicated
//! threads; they live outside the library. The inert variant here serves
//! platforms without a capture mechanism: it follows the same lifecycle
//! contract and never emits an event.

use vstd::prelude::*;
use vstd::string::StringExecFns;
use crate::events::SensorEvent;

verus! {

/// Which event sources a collector captures.
#[derive(Clone, Copy, Debug, PartialEq, Eq, Structural)]
pub struct CollectorConfig {
    pub capture_keyboard: bool,
    pub capture_mouse: bool,
}

impl Default for CollectorConfig {
    /// Both sources captured.
    fn default() -> (r: Self)
        ensures
            r.capture_keyboard,
            r.capture_mouse,
    {
        CollectorConfig { capture_keyboard: true, capture_mouse: true }
    }
}

/// Capture lifecycle failures. All are fatal to `start` and never retried.
#[derive(Clone, Copy, Debug, PartialEq, Eq, Structural)]
pub enum CollectorError {
    /// `start` was called while the collector was active.
    AlreadyRunning,
    /// The platform refused input monitoring.
    PermissionDenied,
    /// The native observer could not be installed.
    TapCreationFailed,
    /// The native run loop source could not be created.
    RunLoopSourceFailed,
}

impl CollectorError {
    /// A readable description of the failure.
    pub fn message(&self) -> (r: String)
        ensures
            *self == CollectorError::AlreadyRunning ==> r@ == "Collector is already running"@,
            *self == CollectorError::PermissionDenied ==> r@ == "Input Monitoring permission not granted"@,
            *self == CollectorError::TapCreationFailed ==> r@ == "Failed to create input event tap"@,
            *self == CollectorError::RunLoopSourceFailed ==> r@ == "Failed to create run loop source"@,
    {
        match self {
            CollectorError::AlreadyRunning => String::from_str("Collector is already running"),
            CollectorError::PermissionDenied => String::from_str("Input Monitoring permission not granted"),
            CollectorError::TapCreationFailed => String::from_str("Failed to create input event tap"),
            CollectorError::RunLoopSourceFailed => String::from_str("Failed to create run loop source"),
        }
    }
}

/// A collector that never emits events, for platforms without a native
/// capture mechanism. Its lifecycle matches the native backends.
pub struct NoopCollector {
    /// The configuration it was built with.
    pub config: CollectorConfig,
    /// Whether observation is active.
    pub running: bool,
}

impl NoopCollector {
    /// A new inert collector, not running.
    pub fn new(config: CollectorConfig) -> (r: Self)
        ensures
            r.config == config,
            !r.running,
    {
        NoopCollector { config, running: false }
    }

    /// Begin observation: fails when already active, and otherwise marks the
    /// collector running.
    pub fn start(&mut self) -> (r: Result<(), CollectorError>)
        ensures
            old(self).running ==> r == Result::<(), CollectorError>::Err(CollectorError::AlreadyRunning)
                && *final(self) == *old(self),
            !old(self).running ==> r is Ok && final(self).running
                && final(self).config == old(self).config,
    {
        if self.running {
            return Err(CollectorError::AlreadyRunning);
        }
        self.running = true;
        Ok(())
    }

    /// Halt observation; safe to call any number of times.
    pub fn stop(&mut self)
        ensures
            !final(self).running,
            final(self).config == old(self).config,
    {
        self.running = false;
    }

    /// Whether the collector is active.
    pub fn is_running(&self) -> (r: bool)
        ensures
            r == self.running,
    {
        self.running
    }

    /// Receive the next event without blocking. This variant never emits one.
    pub fn try_recv(&self) -> (r: Option<SensorEvent>)
        ensures
            r is None,
    {
        None
    }
}

/// Whether the platform grants input monitoring. No permission gate exists
/// for the inert backend.
pub fn check_permission() -> (r: bool)
    ensures
        r,
{
    true
}

} // verus!
