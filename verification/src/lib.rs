//! Thermodynamic property resolution for a REFPROP-style equation-of-state
//! engine: unit conversion, flash-pair dispatch, two-phase quality
//! interpolation, and session bookkeeping for the engine's single global
//! configuration.
//!
//! The native engine itself (dynamic loading, FFI calls, filesystem
//! discovery) is an external collaborator; this crate holds the logic
//! layered on top of it.  All physical quantities are carried as
//! fixed-point integers: a value is stored as `i64` in millionths of the
//! unit (micro-units), so `273.15 K` is `273_150_000`.

use vstd::prelude::*;

pub mod config;
pub mod converter;
pub mod dispatch;
pub mod error;
pub mod fixed;
pub mod interp;
pub mod keys;
pub mod properties;
pub mod session;

pub use config::{FluidConfig, FluidSource};
pub use converter::{
    ConductivityUnit, Converter, DensityUnit, EnergyUnit, EntropyUnit, PressUnit, TempUnit,
    UnitSystem, ViscosityUnit,
};
pub use dispatch::{FlashPair, FlashRequest, GetOutcome, GetPlan};
pub use error::{RefpropError, RefpropSysError};
pub use interp::{PhaseCurve, QualityEvalPlan};
pub use keys::PropertyKey;
pub use properties::{CriticalProps, FluidInfo, SaturationProps, ThermoProp, TransportProps};
pub use session::SessionState;

verus! {

/// One million: the fixed-point denominator.  A stored `i64` counts
/// millionths of the carried unit.
pub const MICRO: i64 = 1_000_000;

} // verus!
