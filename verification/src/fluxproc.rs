//! Baseline tracking and enrichment through the flux behavior pipeline.
//!
//! Each completed window is converted to a behavioral session and run through
//! the pipeline, which tracks rolling baselines across sessions and returns
//! an enriched HSI payload as JSON.

use vstd::prelude::*;
use vstd::string::StringExecFns;
use crate::adapter::SensorBehaviorAdapter;
use crate::jsonout::session_to_json;
use crate::strfmt::u64_to_string;
use crate::trusted::{flux_load_baselines, flux_process, flux_save_baselines, flux_with_baseline_window, FluxError, MAX_RFC3339_MS};
use crate::windowing::EventWindow;

verus! {

/// Runs completed windows through the flux behavior pipeline, counting the
/// sessions it has produced.
pub struct SensorFluxProcessor {
    /// The pipeline with its rolling baseline state.
    pub processor: synheart_flux::behavior::BehaviorProcessor,
    /// Identity stamped on each produced session.
    pub adapter: SensorBehaviorAdapter,
    /// Number of sessions handed to the pipeline.
    pub session_count: usize,
}

impl SensorFluxProcessor {
    /// A processor whose rolling baseline covers the given number of
    /// sessions.
    pub fn new(baseline_window_sessions: usize) -> (r: Self)
        ensures
            r.session_count == 0,
    {
        SensorFluxProcessor {
            processor: flux_with_baseline_window(baseline_window_sessions),
            adapter: SensorBehaviorAdapter::with_defaults(),
            session_count: 0,
        }
    }

    /// A processor with an explicit device identifier.
    pub fn with_device_id(baseline_window_sessions: usize, device_id: &str) -> (r: Self)
        ensures
            r.session_count == 0,
            r.adapter.device_id@ == device_id@,
            r.adapter.timezone@ == "UTC"@,
    {
        SensorFluxProcessor {
            processor: flux_with_baseline_window(baseline_window_sessions),
            adapter: SensorBehaviorAdapter::new(String::from_str(device_id), String::from_str("UTC")),
            session_count: 0,
        }
    }

    /// Run one window through the pipeline and return its enriched HSI JSON
    /// payload. The session identifier is derived from the running count. The
    /// library's own failure — the session could not be rendered as JSON —
    /// occurs only when the configured device identity or timezone embeds
    /// text JSON would have to escape; with safe identity strings, any error
    /// is the pipeline's.
    pub fn process_window(&mut self, window: &EventWindow) -> (r: Result<String, FluxError>)
        requires
            window@.wf(),
            window@.start <= MAX_RFC3339_MS,
            window@.end <= MAX_RFC3339_MS,
            old(self).session_count < usize::MAX,
        ensures
            final(self).session_count == old(self).session_count + 1,
            final(self).adapter == old(self).adapter,
            !(crate::jsonout::json_safe(old(self).adapter.device_id@)
                && crate::jsonout::json_safe(old(self).adapter.timezone@)) ==> r is Err,
    {
        self.session_count = self.session_count + 1;
        let mut session_id = String::from_str("sensor-");
        session_id.append(u64_to_string(self.session_count as u64).as_str());
        let session = self.adapter.convert(session_id.as_str(), window);
        let session_json = match session_to_json(&session) {
            Ok(js) => js,
            Err(e) => {
                return Err(FluxError { message: e.message });
            },
        };
        flux_process(&mut self.processor, session_json.as_str())
    }

    /// Run one window through the pipeline for its baseline effect only.
    pub fn update_baseline(&mut self, window: &EventWindow) -> (r: Result<(), FluxError>)
        requires
            window@.wf(),
            window@.start <= MAX_RFC3339_MS,
            window@.end <= MAX_RFC3339_MS,
            old(self).session_count < usize::MAX,
        ensures
            final(self).session_count == old(self).session_count + 1,
            final(self).adapter == old(self).adapter,
            !(crate::jsonout::json_safe(old(self).adapter.device_id@)
                && crate::jsonout::json_safe(old(self).adapter.timezone@)) ==> r is Err,
    {
        match self.process_window(window) {
            Ok(_) => Ok(()),
            Err(e) => Err(e),
        }
    }

    /// Serialize the baseline state for persistence.
    pub fn save_baselines(&self) -> Result<String, FluxError> {
        flux_save_baselines(&self.processor)
    }

    /// Restore baseline state saved by `save_baselines`.
    pub fn load_baselines(&mut self, json: &str) -> (r: Result<(), FluxError>)
        ensures
            final(self).session_count == old(self).session_count,
            final(self).adapter == old(self).adapter,
    {
        flux_load_baselines(&mut self.processor, json)
    }

    /// Number of sessions handed to the pipeline.
    pub fn session_count(&self) -> (r: usize)
        ensures
            r == self.session_count,
    {
        self.session_count
    }
}

} // verus!
