//! Trusted boundary to outside crates.
//!
//! Each item here wraps one call into an outside crate; its contract states
//! only what that crate's source or documentation plainly gives.

use vstd::prelude::*;

verus! {

/// Timestamps renderable as four-digit-year RFC3339 (through 9999-12-31).
pub const MAX_RFC3339_MS: u64 = 253_402_300_799_999;

/// The RFC3339 rendering of a millisecond UTC timestamp. The rendering is a
/// function of the timestamp alone.
pub uninterp spec fn rfc3339_of(ms: int) -> Seq<char>;

/// Relies on chrono's `DateTime::<Utc>::from_timestamp_millis` and
/// `to_rfc3339`: the rendering is determined by the timestamp, is at least 19
/// characters, and consists of digits and date/time punctuation, so it embeds
/// into JSON without escaping.
#[verifier::external_body]
pub(crate) fn rfc3339_utc_millis(ms: u64) -> (r: String)
    requires
        ms <= MAX_RFC3339_MS,
    ensures
        r@ == rfc3339_of(ms as int),
        r@.len() >= 19,
        forall|i: int| 0 <= i < r@.len()
            ==> (#[trigger] r@[i]) != '"' && r@[i] != '\\' && ' ' <= r@[i] && r@[i] <= '~',
{
    match chrono::DateTime::<chrono::Utc>::from_timestamp_millis(ms as i64) {
        Some(dt) => dt.to_rfc3339(),
        None => String::new(),
    }
}

/// Relies on uuid's `Uuid::new_v4` and its `Display` rendering: a fresh
/// random identifier rendered as 36 lowercase hexadecimal and hyphen
/// characters. Nothing relates two calls: the value is random.
#[verifier::external_body]
pub(crate) fn uuid_v4_string() -> (r: String)
    ensures
        r@.len() == 36,
        forall|i: int| 0 <= i < r@.len()
            ==> (#[trigger] r@[i]) != '"' && r@[i] != '\\' && ' ' <= r@[i] && r@[i] <= '~',
{
    uuid::Uuid::new_v4().to_string()
}

/// The behavior pipeline of the flux crate, carried opaquely.
#[verifier::external_type_specification]
#[verifier::external_body]
pub struct ExBehaviorProcessor(synheart_flux::behavior::BehaviorProcessor);

/// Failure of the flux behavior pipeline, carrying the pipeline's own
/// rendered description of what went wrong.
#[derive(Clone, Debug)]
pub struct FluxError {
    pub message: String,
}

/// Relies on `BehaviorProcessor::with_baseline_window`: a fresh processor
/// whose rolling baseline covers the given number of sessions.
#[verifier::external_body]
pub(crate) fn flux_with_baseline_window(sessions: usize) -> synheart_flux::behavior::BehaviorProcessor {
    synheart_flux::behavior::BehaviorProcessor::with_baseline_window(sessions)
}

/// Relies on `BehaviorProcessor::process`: runs a behavioral session, given
/// as JSON, through the flux pipeline and returns its HSI JSON payload. The
/// result depends on the processor's baseline state, so nothing more is
/// stated of it; a pipeline error is carried over as its rendered message.
#[verifier::external_body]
pub(crate) fn flux_process(p: &mut synheart_flux::behavior::BehaviorProcessor, session_json: &str) -> Result<String, FluxError> {
    p.process(session_json).map_err(|e| FluxError { message: e.to_string() })
}

/// Relies on `BehaviorProcessor::save_baselines`: serializes the baseline
/// state to JSON.
#[verifier::external_body]
pub(crate) fn flux_save_baselines(p: &synheart_flux::behavior::BehaviorProcessor) -> Result<String, FluxError> {
    p.save_baselines().map_err(|e| FluxError { message: e.to_string() })
}

/// Relies on `BehaviorProcessor::load_baselines`: restores baseline state
/// from JSON produced by `save_baselines`.
#[verifier::external_body]
pub(crate) fn flux_load_baselines(p: &mut synheart_flux::behavior::BehaviorProcessor, json: &str) -> Result<(), FluxError> {
    p.load_baselines(json).map_err(|e| FluxError { message: e.to_string() })
}

} // verus!
