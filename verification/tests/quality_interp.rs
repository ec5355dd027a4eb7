//! Quality interpolation: curve selection, boundary reproduction, and
//! two-phase synthesis.

use refprop::interp::{
    interpolate_two_phase, plan_quality_evaluations, quality_curve, saturation_boundary_state,
};
use refprop::{PhaseCurve, QualityEvalPlan, ThermoProp};

fn liquid_eval() -> ThermoProp {
    ThermoProp {
        temperature: 273_150_000,
        pressure: 294_000_000, // an evaluation may drift off the saturation pressure
        density: 12_950_000,
        enthalpy: 20_000_000_000,
        entropy: 100_000_000,
        cv: 80_000_000,
        cp: 90_000_000,
        sound_speed: 600_000_000,
        quality: 0,
        internal_energy: 19_000_000_000,
    }
}

fn vapor_eval() -> ThermoProp {
    ThermoProp {
        temperature: 273_150_000,
        pressure: 292_000_000,
        density: 145_000,
        enthalpy: 40_000_000_000,
        entropy: 170_000_000,
        cv: 60_000_000,
        cp: 70_000_000,
        sound_speed: 145_000_000,
        quality: 1_000_000,
        internal_energy: 38_000_000_000,
    }
}

#[test]
fn curve_selection_uses_half_as_tie_break() {
    assert_eq!(quality_curve(0), PhaseCurve::Bubble);
    assert_eq!(quality_curve(499_999), PhaseCurve::Bubble);
    assert_eq!(quality_curve(500_000), PhaseCurve::Dew);
    assert_eq!(quality_curve(1_000_000), PhaseCurve::Dew);
    assert_eq!(quality_curve(-3_000_000), PhaseCurve::Bubble);
}

#[test]
fn curve_flags_match_engine_encoding() {
    assert_eq!(PhaseCurve::Bubble.flag(), 1);
    assert_eq!(PhaseCurve::Dew.flag(), 2);
}

#[test]
fn evaluation_plan_by_quality_region() {
    let dl = 12_950_000;
    let dv = 145_000;
    assert_eq!(
        plan_quality_evaluations(dl, dv, 0),
        QualityEvalPlan::Liquid { density: dl }
    );
    assert_eq!(
        plan_quality_evaluations(dl, dv, -5_000_000),
        QualityEvalPlan::Liquid { density: dl }
    );
    assert_eq!(
        plan_quality_evaluations(dl, dv, 1_000_000),
        QualityEvalPlan::Vapor { density: dv }
    );
    assert_eq!(
        plan_quality_evaluations(dl, dv, 2_000_000),
        QualityEvalPlan::Vapor { density: dv }
    );
    assert_eq!(
        plan_quality_evaluations(dl, dv, 500_000),
        QualityEvalPlan::Both {
            liquid_density: dl,
            vapor_density: dv
        }
    );
}

#[test]
fn quality_zero_reproduces_liquid_state_exactly() {
    let eval = liquid_eval();
    let p_sat = 293_000_000;
    let state = saturation_boundary_state(&eval, p_sat, false);
    // quality forced to exactly 0, pressure forced to the saturation
    // pressure, everything else reproduced exactly
    assert_eq!(state.quality, 0);
    assert_eq!(state.pressure, p_sat);
    assert_eq!(state.temperature, eval.temperature);
    assert_eq!(state.density, eval.density);
    assert_eq!(state.enthalpy, eval.enthalpy);
    assert_eq!(state.entropy, eval.entropy);
    assert_eq!(state.cv, eval.cv);
    assert_eq!(state.cp, eval.cp);
    assert_eq!(state.sound_speed, eval.sound_speed);
    assert_eq!(state.internal_energy, eval.internal_energy);
}

#[test]
fn quality_one_reproduces_vapor_state_exactly() {
    let eval = vapor_eval();
    let p_sat = 293_000_000;
    let state = saturation_boundary_state(&eval, p_sat, true);
    assert_eq!(state.quality, 1_000_000);
    assert_eq!(state.pressure, p_sat);
    assert_eq!(state.density, eval.density);
    assert_eq!(state.enthalpy, eval.enthalpy);
}

#[test]
fn two_phase_interpolation_at_half_quality() {
    let liq = liquid_eval();
    let vap = vapor_eval();
    let t = 273_150_000;
    let p_sat = 293_000_000;
    let dl = 10_000_000; // 10 mol/L
    let dv = 1_000_000; // 1 mol/L
    let q = 500_000; // 0.5
    let s = interpolate_two_phase(t, p_sat, dl, dv, q, &liq, &vap);
    // temperature and pressure come from the saturation lookup
    assert_eq!(s.temperature, t);
    assert_eq!(s.pressure, p_sat);
    assert_eq!(s.quality, q);
    // intensive properties are arithmetic means at Q = 0.5
    assert_eq!(s.enthalpy, 30_000_000_000);
    assert_eq!(s.entropy, 135_000_000);
    assert_eq!(s.cv, 70_000_000);
    assert_eq!(s.cp, 80_000_000);
    assert_eq!(s.sound_speed, 372_500_000);
    assert_eq!(s.internal_energy, 28_500_000_000);
    // density is harmonic in specific volume:
    // 1 / (0.5/10 + 0.5/1) = 1/0.55 = 1.818181... mol/L
    assert_eq!(s.density, 1_818_181);
}

#[test]
fn interpolated_enthalpy_between_boundaries() {
    let liq = liquid_eval();
    let vap = vapor_eval();
    for q in [1, 250_000, 750_000, 999_999] {
        let s = interpolate_two_phase(
            273_150_000,
            293_000_000,
            12_950_000,
            145_000,
            q,
            &liq,
            &vap,
        );
        assert!(liq.enthalpy <= s.enthalpy && s.enthalpy <= vap.enthalpy);
        if (vap.enthalpy - liq.enthalpy) * q >= 1_000_000 {
            assert!(liq.enthalpy < s.enthalpy);
        }
        assert!(s.enthalpy < vap.enthalpy);
    }
}

#[test]
fn two_phase_weights_lean_toward_the_nearer_boundary() {
    let liq = liquid_eval();
    let vap = vapor_eval();
    let near_liquid = interpolate_two_phase(
        273_150_000,
        293_000_000,
        10_000_000,
        1_000_000,
        100_000, // Q = 0.1
        &liq,
        &vap,
    );
    // h = 20000 + 0.1 * 20000 = 22000 J/mol
    assert_eq!(near_liquid.enthalpy, 22_000_000_000);
}
