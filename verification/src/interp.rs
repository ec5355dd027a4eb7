//! Two-phase quality interpolation: synthesizes the thermodynamic state
//! inside the vapor–liquid dome from saturation boundary data, including
//! the bubble/dew curve selection needed for zeotropic mixtures.
//!
//! The engine has no quality-constrained flash primitive.  A (T, Q) or
//! (P, Q) query is served by a saturation lookup on the nearer phase
//! curve, one or two property evaluations at the saturated densities,
//! and — strictly inside the dome — linear interpolation of the
//! intensive properties weighted by quality, with the density
//! interpolated harmonically by specific volume.

use vstd::prelude::*;
use crate::fixed::{
    harmonic_density, harmonic_density_micro, lemma_lerp_bounds, lemma_lerp_strict, lerp,
    lerp_micro, recip_max,
};
use crate::properties::ThermoProp;

verus! {

/// The two saturation loci.  They coincide for a pure fluid and differ
/// for a zeotropic mixture.
#[derive(Debug, Clone, Copy, PartialEq, Eq, Structural)]
pub enum PhaseCurve {
    /// Locus of incipient vaporization (liquid-saturated states).
    Bubble,
    /// Locus of incipient condensation (vapor-saturated states).
    Dew,
}

impl PhaseCurve {
    /// The engine's phase-curve flag: 1 selects the bubble curve,
    /// 2 the dew curve.
    pub fn flag(&self) -> (r: i32)
        ensures
            *self == PhaseCurve::Bubble ==> r == 1,
            *self == PhaseCurve::Dew ==> r == 2,
    {
        match self {
            PhaseCurve::Bubble => 1,
            PhaseCurve::Dew => 2,
        }
    }
}

/// Selects the saturation curve to query for a quality-constrained
/// flash: the dew curve when the quality (in millionths) is at least
/// one half, else the bubble curve.  Querying the nearer curve reduces
/// numerical sensitivity for zeotropic mixtures; one half is the fixed,
/// symmetric tie-break.
pub fn quality_curve(q: i64) -> (r: PhaseCurve)
    ensures
        r == (if q >= 500_000 { PhaseCurve::Dew } else { PhaseCurve::Bubble }),
{
    if q >= 500_000 {
        PhaseCurve::Dew
    } else {
        PhaseCurve::Bubble
    }
}

/// Which property evaluations a quality-constrained flash needs: one at
/// a saturated boundary density when the quality pins the state to a
/// boundary, two when the state lies strictly inside the dome.
#[derive(Debug, Clone, Copy, PartialEq, Eq, Structural)]
pub enum QualityEvalPlan {
    /// Quality at or below zero: evaluate at the saturated-liquid
    /// density only.
    Liquid { density: i64 },
    /// Quality at or above one: evaluate at the saturated-vapor density
    /// only.
    Vapor { density: i64 },
    /// Strictly two-phase: evaluate at both saturated densities.
    Both { liquid_density: i64, vapor_density: i64 },
}

/// Decides, from the saturated densities and the quality (millionths),
/// which property evaluations are needed.
pub fn plan_quality_evaluations(dl: i64, dv: i64, q: i64) -> (r: QualityEvalPlan)
    ensures
        q <= 0 ==> r == (QualityEvalPlan::Liquid { density: dl }),
        q >= 1_000_000 ==> r == (QualityEvalPlan::Vapor { density: dv }),
        0 < q < 1_000_000 ==> r == (QualityEvalPlan::Both {
            liquid_density: dl,
            vapor_density: dv,
        }),
{
    if q <= 0 {
        QualityEvalPlan::Liquid { density: dl }
    } else if q >= 1_000_000 {
        QualityEvalPlan::Vapor { density: dv }
    } else {
        QualityEvalPlan::Both { liquid_density: dl, vapor_density: dv }
    }
}

/// Completes a boundary-quality flash: the state evaluated at the
/// saturated density is reproduced exactly, except that the quality is
/// forced to exactly 0 (liquid) or exactly 1 (vapor) and the pressure is
/// forced to the saturation pressure.  The pressure an evaluation
/// recomputes from the density may drift off the saturation locus for
/// zeotropic mixtures, so the looked-up saturation pressure is kept.
pub fn saturation_boundary_state(eval: &ThermoProp, p_sat: i64, curve_is_vapor: bool) -> (r:
    ThermoProp)
    ensures
        r == (ThermoProp {
            pressure: p_sat,
            quality: if curve_is_vapor { 1_000_000i64 } else { 0i64 },
            ..*eval
        }),
{
    ThermoProp {
        pressure: p_sat,
        quality: if curve_is_vapor { 1_000_000 } else { 0 },
        ..*eval
    }
}

/// The two-phase state synthesized from the saturation lookup and the
/// two boundary evaluations.
pub open spec fn spec_two_phase_state(
    t: int,
    p_sat: int,
    dl: int,
    dv: int,
    q: int,
    liq: ThermoProp,
    vap: ThermoProp,
) -> ThermoProp {
    ThermoProp {
        temperature: t as i64,
        pressure: p_sat as i64,
        density: harmonic_density(dl, dv, q) as i64,
        enthalpy: lerp(liq.enthalpy as int, vap.enthalpy as int, q) as i64,
        entropy: lerp(liq.entropy as int, vap.entropy as int, q) as i64,
        cv: lerp(liq.cv as int, vap.cv as int, q) as i64,
        cp: lerp(liq.cp as int, vap.cp as int, q) as i64,
        sound_speed: lerp(liq.sound_speed as int, vap.sound_speed as int, q) as i64,
        quality: q as i64,
        internal_energy: lerp(liq.internal_energy as int, vap.internal_energy as int, q) as i64,
    }
}

/// Interpolates a strictly two-phase state between the saturated-liquid
/// and saturated-vapor evaluations.  Every intensive property is
/// linearly weighted by quality; the density is interpolated
/// harmonically by specific volume.  Temperature and pressure are taken
/// from the saturation lookup, never recomputed from the interpolated
/// density, because recomputation can diverge from the saturation locus
/// for zeotropic mixtures.
pub fn interpolate_two_phase(
    t: i64,
    p_sat: i64,
    dl: i64,
    dv: i64,
    q: i64,
    liq: &ThermoProp,
    vap: &ThermoProp,
) -> (r: ThermoProp)
    requires
        0 < q < 1_000_000,
        0 < dl <= recip_max(),
        0 < dv <= recip_max(),
    ensures
        r == spec_two_phase_state(t as int, p_sat as int, dl as int, dv as int, q as int, *liq, *vap),
{
    ThermoProp {
        temperature: t,
        pressure: p_sat,
        density: harmonic_density_micro(dl, dv, q),
        enthalpy: lerp_micro(liq.enthalpy, vap.enthalpy, q),
        entropy: lerp_micro(liq.entropy, vap.entropy, q),
        cv: lerp_micro(liq.cv, vap.cv, q),
        cp: lerp_micro(liq.cp, vap.cp, q),
        sound_speed: lerp_micro(liq.sound_speed, vap.sound_speed, q),
        quality: q,
        internal_energy: lerp_micro(liq.internal_energy, vap.internal_energy, q),
    }
}

/// For intermediate quality the interpolated enthalpy lies between the
/// liquid and vapor enthalpies: always strictly below the vapor value,
/// never below the liquid value, and strictly above it as soon as the
/// interpolation step amounts to at least one micro-unit (fixed-point
/// flooring can otherwise collapse the value onto the liquid boundary).
pub proof fn law_two_phase_enthalpy_between(liq: ThermoProp, vap: ThermoProp, q: int)
    requires
        0 < q < 1_000_000,
        liq.enthalpy < vap.enthalpy,
    ensures
        liq.enthalpy <= lerp(liq.enthalpy as int, vap.enthalpy as int, q) < vap.enthalpy,
        (vap.enthalpy - liq.enthalpy) * q >= 1_000_000 ==> liq.enthalpy < lerp(
            liq.enthalpy as int,
            vap.enthalpy as int,
            q,
        ),
{
    lemma_lerp_bounds(liq.enthalpy as int, vap.enthalpy as int, q);
    lemma_lerp_strict(liq.enthalpy as int, vap.enthalpy as int, q);
}

} // verus!
