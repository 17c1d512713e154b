//! Privacy-preserving behavioral telemetry core.
//!
//! The library reduces raw keyboard and mouse input to timing- and
//! magnitude-only events, batches them into fixed-duration windows, extracts
//! statistical interaction features, and assembles versioned Human State
//! Interface (HSI) snapshots. No key identities, characters, or absolute
//! coordinates are ever represented in this crate's data model.
//!
//! All rates, ratios and scores are fixed-point integers in thousandths: a
//! score of one is stored as 1000. Timestamps are milliseconds on a
//! monotonic-comparable wall clock.

use vstd::prelude::*;

mod math;
pub mod events;
pub mod windowing;
pub mod features;
pub mod strfmt;
pub mod trusted;
pub mod hsi;
pub mod jsonout;
pub mod jsonin;
pub mod adapter;
pub mod fluxproc;
pub mod config;
pub mod gateway;
pub mod transparency;
pub mod collector;

pub use math::int_sqrt;
pub use events::{
    KeyboardEvent, KeyboardEventType, MouseEvent, MouseEventType, ScrollDirection,
    ScrollMagnitude, SensorEvent, is_navigation_key, classify_keycode,
};
pub use windowing::{EventWindow, WindowManager};
pub use features::{
    compute_features, std_dev, BehavioralSignals, KeyboardFeatures, MouseFeatures, WindowFeatures,
};
pub use hsi::{HsiBuilder, HsiSnapshot};
pub use collector::{check_permission, CollectorConfig, CollectorError, NoopCollector};
pub use config::{Config, ConfigError, SourceConfig};
pub use transparency::{TransparencyLog, TransparencyStats};
pub use adapter::{convert_to_behavior_session, AdapterSession, SensorBehaviorAdapter};
pub use fluxproc::SensorFluxProcessor;
pub use gateway::{GatewayConfig, GatewayError};

verus! {

/// Platform-agnostic collector type for targets without a native capture
/// mechanism.
pub type Collector = NoopCollector;

/// Library version.
pub const VERSION: &'static str = "0.1.0";

/// Privacy declaration that can be displayed to users.
pub const PRIVACY_DECLARATION: &'static str = "SENSOR AGENT - PRIVACY DECLARATION\n\nThis agent captures behavioral timing data for research.\n\nWHAT WE CAPTURE:\n- When keys are pressed (timing only)\n- How fast the mouse moves (speed only)\n- When clicks and scrolls occur (timing only)\n\nWHAT WE NEVER CAPTURE:\n- Which keys you press (no passwords, messages, etc.)\n- Where your cursor is (no screen position tracking)\n- What applications you use\n- Any screen content\n\nAll data is processed locally. Raw events are discarded\nafter feature extraction (every 10 seconds).\n";

} // verus!
