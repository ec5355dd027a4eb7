//! Configurable unit conversion between a caller-chosen unit basis and the
//! engine's native basis (K, kPa, mol/L, J/mol, J/(mol·K), µPa·s, W/(m·K)).
//!
//! Values are fixed-point micro-units ([`crate::MICRO`] parts per unit).
//! Conversions between mass and molar bases divide or multiply by the
//! fluid's molar mass, which must be strictly positive.

use vstd::prelude::*;
use vstd::string::StringSliceAdditionalSpecFns;
use crate::fixed::{i64_fits, mul_div, mul_div_floor};
use crate::keys::{parse_key, spec_key, PropertyKey};
use crate::properties::{CriticalProps, SaturationProps, ThermoProp, TransportProps};

verus! {

// ────────────────────────────────────────────────────────────────────
//  Unit enums
// ────────────────────────────────────────────────────────────────────

/// Temperature unit.
#[derive(Debug, Clone, Copy, PartialEq, Eq, Structural)]
pub enum TempUnit {
    /// Kelvin (engine native)
    Kelvin,
    /// Degrees Celsius
    Celsius,
    /// Degrees Fahrenheit
    Fahrenheit,
}

/// Pressure unit.
#[derive(Debug, Clone, Copy, PartialEq, Eq, Structural)]
pub enum PressUnit {
    /// Kilopascal (engine native)
    KPa,
    /// Bar (1 bar = 100 kPa)
    Bar,
    /// Megapascal
    MPa,
    /// Pascal
    Pa,
    /// Standard atmosphere (101.325 kPa)
    Atm,
    /// Pounds per square inch (6.894757 kPa)
    Psi,
}

/// Density unit.
#[derive(Debug, Clone, Copy, PartialEq, Eq, Structural)]
pub enum DensityUnit {
    /// mol/L (engine native)
    MolPerL,
    /// kg/m³ (requires molar mass)
    KgPerM3,
}

/// Energy / enthalpy unit.
#[derive(Debug, Clone, Copy, PartialEq, Eq, Structural)]
pub enum EnergyUnit {
    /// J/mol (engine native)
    JPerMol,
    /// kJ/kg (requires molar mass)
    KJPerKg,
    /// J/kg (requires molar mass)
    JPerKg,
}

/// Entropy / heat-capacity unit (energy per temperature).
#[derive(Debug, Clone, Copy, PartialEq, Eq, Structural)]
pub enum EntropyUnit {
    /// J/(mol·K) (engine native)
    JPerMolK,
    /// kJ/(kg·K) (requires molar mass)
    KJPerKgK,
    /// J/(kg·K) (requires molar mass)
    JPerKgK,
}

/// Dynamic viscosity unit.
#[derive(Debug, Clone, Copy, PartialEq, Eq, Structural)]
pub enum ViscosityUnit {
    /// µPa·s (engine native)
    MicroPaS,
    /// mPa·s (= centipoise)
    MilliPaS,
    /// Pa·s
    PaS,
}

/// Thermal conductivity unit.
#[derive(Debug, Clone, Copy, PartialEq, Eq, Structural)]
pub enum ConductivityUnit {
    /// W/(m·K) (engine native)
    WPerMK,
    /// mW/(m·K)
    MilliWPerMK,
}

// ────────────────────────────────────────────────────────────────────
//  UnitSystem — user configuration (no molar mass needed yet)
// ────────────────────────────────────────────────────────────────────

/// Describes the set of units the caller wants to work in.
///
/// Create one with a preset (`refprop()`, `engineering()`, `si()`) or
/// customise individual properties with the builder methods.
#[derive(Debug, Clone, PartialEq, Eq, Structural)]
pub struct UnitSystem {
    pub temperature: TempUnit,
    pub pressure: PressUnit,
    pub density: DensityUnit,
    pub energy: EnergyUnit,
    pub entropy: EntropyUnit,
    pub viscosity: ViscosityUnit,
    pub conductivity: ConductivityUnit,
}

impl UnitSystem {
    /// Start from engine-native units.  Use the builder methods to change
    /// individual properties.
    pub fn new() -> (r: Self)
        ensures
            r == Self::spec_refprop(),
    {
        Self::refprop()
    }

    /// The engine-native basis as a spec-level constant.
    pub open spec fn spec_refprop() -> Self {
        UnitSystem {
            temperature: TempUnit::Kelvin,
            pressure: PressUnit::KPa,
            density: DensityUnit::MolPerL,
            energy: EnergyUnit::JPerMol,
            entropy: EntropyUnit::JPerMolK,
            viscosity: ViscosityUnit::MicroPaS,
            conductivity: ConductivityUnit::WPerMK,
        }
    }

    /// Engine native: K, kPa, mol/L, J/mol, J/(mol·K), µPa·s, W/(m·K).
    pub fn refprop() -> (r: Self)
        ensures
            r == Self::spec_refprop(),
    {
        UnitSystem {
            temperature: TempUnit::Kelvin,
            pressure: PressUnit::KPa,
            density: DensityUnit::MolPerL,
            energy: EnergyUnit::JPerMol,
            entropy: EntropyUnit::JPerMolK,
            viscosity: ViscosityUnit::MicroPaS,
            conductivity: ConductivityUnit::WPerMK,
        }
    }

    /// The engineering basis as a spec-level constant.
    pub open spec fn spec_engineering() -> Self {
        UnitSystem {
            temperature: TempUnit::Celsius,
            pressure: PressUnit::Bar,
            density: DensityUnit::KgPerM3,
            energy: EnergyUnit::KJPerKg,
            entropy: EntropyUnit::KJPerKgK,
            viscosity: ViscosityUnit::MicroPaS,
            conductivity: ConductivityUnit::WPerMK,
        }
    }

    /// The strict-SI basis as a spec-level constant.
    pub open spec fn spec_si() -> Self {
        UnitSystem {
            temperature: TempUnit::Kelvin,
            pressure: PressUnit::Pa,
            density: DensityUnit::KgPerM3,
            energy: EnergyUnit::JPerKg,
            entropy: EntropyUnit::JPerKgK,
            viscosity: ViscosityUnit::PaS,
            conductivity: ConductivityUnit::WPerMK,
        }
    }

    /// Engineering / HVAC: °C, bar, kg/m³, kJ/kg, kJ/(kg·K).
    pub fn engineering() -> (r: Self)
        ensures
            r == Self::spec_engineering(),
    {
        UnitSystem {
            temperature: TempUnit::Celsius,
            pressure: PressUnit::Bar,
            density: DensityUnit::KgPerM3,
            energy: EnergyUnit::KJPerKg,
            entropy: EntropyUnit::KJPerKgK,
            viscosity: ViscosityUnit::MicroPaS,
            conductivity: ConductivityUnit::WPerMK,
        }
    }

    /// Strict SI: K, Pa, kg/m³, J/kg, J/(kg·K), Pa·s.
    pub fn si() -> (r: Self)
        ensures
            r == Self::spec_si(),
    {
        UnitSystem {
            temperature: TempUnit::Kelvin,
            pressure: PressUnit::Pa,
            density: DensityUnit::KgPerM3,
            energy: EnergyUnit::JPerKg,
            entropy: EntropyUnit::JPerKgK,
            viscosity: ViscosityUnit::PaS,
            conductivity: ConductivityUnit::WPerMK,
        }
    }

    // ── Builder methods ─────────────────────────────────────────────

    pub fn temperature(self, u: TempUnit) -> (r: Self)
        ensures
            r == (UnitSystem { temperature: u, ..self }),
    {
        UnitSystem { temperature: u, ..self }
    }

    pub fn pressure(self, u: PressUnit) -> (r: Self)
        ensures
            r == (UnitSystem { pressure: u, ..self }),
    {
        UnitSystem { pressure: u, ..self }
    }

    pub fn density(self, u: DensityUnit) -> (r: Self)
        ensures
            r == (UnitSystem { density: u, ..self }),
    {
        UnitSystem { density: u, ..self }
    }

    pub fn energy(self, u: EnergyUnit) -> (r: Self)
        ensures
            r == (UnitSystem { energy: u, ..self }),
    {
        UnitSystem { energy: u, ..self }
    }

    pub fn entropy(self, u: EntropyUnit) -> (r: Self)
        ensures
            r == (UnitSystem { entropy: u, ..self }),
    {
        UnitSystem { entropy: u, ..self }
    }

    pub fn viscosity(self, u: ViscosityUnit) -> (r: Self)
        ensures
            r == (UnitSystem { viscosity: u, ..self }),
    {
        UnitSystem { viscosity: u, ..self }
    }

    pub fn conductivity(self, u: ConductivityUnit) -> (r: Self)
        ensures
            r == (UnitSystem { conductivity: u, ..self }),
    {
        UnitSystem { conductivity: u, ..self }
    }
}

impl Default for UnitSystem {
    fn default() -> (r: Self)
        ensures
            r == Self::spec_refprop(),
    {
        Self::refprop()
    }
}

// ────────────────────────────────────────────────────────────────────
//  Conversion formulas (micro-unit arithmetic, floor-rounded)
// ────────────────────────────────────────────────────────────────────

/// Bound on the micro-unit magnitude a conversion accepts; generous
/// enough for every physical quantity while leaving headroom so that
/// intermediate sums cannot overflow an `i64`.
pub open spec fn qty_ok(v: int) -> bool {
    -1_000_000_000_000_000_000 <= v <= 1_000_000_000_000_000_000
}

/// 0 °C in micro-kelvin.
pub const KELVIN_OFFSET: i64 = 273_150_000;

/// 0 °C in micro-degrees Fahrenheit.
pub const FAHRENHEIT_OFFSET: i64 = 32_000_000;

/// Caller temperature → native (K).
pub open spec fn spec_t_to_rp(u: TempUnit, t: int) -> int {
    match u {
        TempUnit::Kelvin => t,
        TempUnit::Celsius => t + 273_150_000,
        TempUnit::Fahrenheit => mul_div(t - 32_000_000, 5, 9) + 273_150_000,
    }
}

/// Native (K) → caller temperature.
pub open spec fn spec_t_from_rp(u: TempUnit, t: int) -> int {
    match u {
        TempUnit::Kelvin => t,
        TempUnit::Celsius => t - 273_150_000,
        TempUnit::Fahrenheit => mul_div(t - 273_150_000, 9, 5) + 32_000_000,
    }
}

/// Caller pressure → native (kPa).
pub open spec fn spec_p_to_rp(u: PressUnit, p: int) -> int {
    match u {
        PressUnit::KPa => p,
        PressUnit::Bar => p * 100,
        PressUnit::MPa => p * 1000,
        PressUnit::Pa => mul_div(p, 1, 1000),
        PressUnit::Atm => mul_div(p, 101_325, 1000),
        PressUnit::Psi => mul_div(p, 6_894_757, 1_000_000),
    }
}

/// Native (kPa) → caller pressure.
pub open spec fn spec_p_from_rp(u: PressUnit, p: int) -> int {
    match u {
        PressUnit::KPa => p,
        PressUnit::Bar => mul_div(p, 1, 100),
        PressUnit::MPa => mul_div(p, 1, 1000),
        PressUnit::Pa => p * 1000,
        PressUnit::Atm => mul_div(p, 1000, 101_325),
        PressUnit::Psi => mul_div(p, 1_000_000, 6_894_757),
    }
}

/// Caller density → native (mol/L); `mm` is the molar mass in µg/mol.
pub open spec fn spec_d_to_rp(u: DensityUnit, mm: int, d: int) -> int {
    match u {
        DensityUnit::MolPerL => d,
        DensityUnit::KgPerM3 => mul_div(d, 1_000_000, mm),
    }
}

/// Native (mol/L) → caller density.
pub open spec fn spec_d_from_rp(u: DensityUnit, mm: int, d: int) -> int {
    match u {
        DensityUnit::MolPerL => d,
        DensityUnit::KgPerM3 => mul_div(d, mm, 1_000_000),
    }
}

/// Caller energy → native (J/mol).
pub open spec fn spec_h_to_rp(u: EnergyUnit, mm: int, h: int) -> int {
    match u {
        EnergyUnit::JPerMol => h,
        EnergyUnit::KJPerKg => mul_div(h, mm, 1_000_000),
        EnergyUnit::JPerKg => mul_div(h, mm, 1_000_000_000),
    }
}

/// Native (J/mol) → caller energy.
pub open spec fn spec_h_from_rp(u: EnergyUnit, mm: int, h: int) -> int {
    match u {
        EnergyUnit::JPerMol => h,
        EnergyUnit::KJPerKg => mul_div(h, 1_000_000, mm),
        EnergyUnit::JPerKg => mul_div(h, 1_000_000_000, mm),
    }
}

/// Caller entropy / heat capacity → native (J/(mol·K)).
pub open spec fn spec_s_to_rp(u: EntropyUnit, mm: int, s: int) -> int {
    match u {
        EntropyUnit::JPerMolK => s,
        EntropyUnit::KJPerKgK => mul_div(s, mm, 1_000_000),
        EntropyUnit::JPerKgK => mul_div(s, mm, 1_000_000_000),
    }
}

/// Native (J/(mol·K)) → caller entropy / heat capacity.
pub open spec fn spec_s_from_rp(u: EntropyUnit, mm: int, s: int) -> int {
    match u {
        EntropyUnit::JPerMolK => s,
        EntropyUnit::KJPerKgK => mul_div(s, 1_000_000, mm),
        EntropyUnit::JPerKgK => mul_div(s, 1_000_000_000, mm),
    }
}

/// Caller viscosity → native (µPa·s).
pub open spec fn spec_eta_to_rp(u: ViscosityUnit, eta: int) -> int {
    match u {
        ViscosityUnit::MicroPaS => eta,
        ViscosityUnit::MilliPaS => eta * 1000,
        ViscosityUnit::PaS => eta * 1_000_000,
    }
}

/// Native (µPa·s) → caller viscosity.
pub open spec fn spec_eta_from_rp(u: ViscosityUnit, eta: int) -> int {
    match u {
        ViscosityUnit::MicroPaS => eta,
        ViscosityUnit::MilliPaS => mul_div(eta, 1, 1000),
        ViscosityUnit::PaS => mul_div(eta, 1, 1_000_000),
    }
}

/// Caller thermal conductivity → native (W/(m·K)).
pub open spec fn spec_tcx_to_rp(u: ConductivityUnit, tcx: int) -> int {
    match u {
        ConductivityUnit::WPerMK => tcx,
        ConductivityUnit::MilliWPerMK => mul_div(tcx, 1, 1000),
    }
}

/// Native (W/(m·K)) → caller thermal conductivity.
pub open spec fn spec_tcx_from_rp(u: ConductivityUnit, tcx: int) -> int {
    match u {
        ConductivityUnit::WPerMK => tcx,
        ConductivityUnit::MilliWPerMK => tcx * 1000,
    }
}

// ────────────────────────────────────────────────────────────────────
//  Converter — UnitSystem + molar mass → ready to convert
// ────────────────────────────────────────────────────────────────────

/// Performs conversions between caller units and the engine's native
/// units.  Created by combining a [`UnitSystem`] with the fluid's molar
/// mass (needed for mol ↔ kg conversions).
#[derive(Debug, Clone, PartialEq, Eq, Structural)]
pub struct Converter {
    pub units: UnitSystem,
    /// Molar mass in µg/mol (micro-units of g/mol; mixture-averaged for
    /// mixtures).  Must be strictly positive.
    pub molar_mass: i64,
}

impl Converter {
    /// Mass ↔ molar translation is defined only for a strictly positive
    /// molar mass.
    pub open spec fn wf(&self) -> bool {
        0 < self.molar_mass
    }

    pub fn new(units: UnitSystem, molar_mass: i64) -> (r: Self)
        requires
            0 < molar_mass,
        ensures
            r == (Converter { units, molar_mass }),
            r.wf(),
    {
        Converter { units, molar_mass }
    }

    /// Identity converter — no conversion at all (engine-native units,
    /// molar mass = 1 g/mol so mass-based formulas still work formally).
    pub fn identity() -> (r: Self)
        ensures
            r == (Converter { units: UnitSystem::spec_refprop(), molar_mass: 1_000_000 }),
            r.wf(),
    {
        Converter { units: UnitSystem::refprop(), molar_mass: 1_000_000 }
    }

    // ── Temperature ─────────────────────────────────────────────────

    /// Caller → native (K)
    pub fn t_to_rp(&self, t: i64) -> (r: i64)
        requires
            qty_ok(t as int),
        ensures
            r == spec_t_to_rp(self.units.temperature, t as int),
    {
        match self.units.temperature {
            TempUnit::Kelvin => t,
            TempUnit::Celsius => t + KELVIN_OFFSET,
            TempUnit::Fahrenheit => {
                proof {
                    assert(i64_fits(mul_div(t - 32_000_000, 5, 9))) by (nonlinear_arith)
                        requires qty_ok(t as int),
                    ;
                }
                mul_div_floor(t - FAHRENHEIT_OFFSET, 5, 9) + KELVIN_OFFSET
            },
        }
    }

    /// Native (K) → caller
    pub fn t_from_rp(&self, t: i64) -> (r: i64)
        requires
            qty_ok(t as int),
        ensures
            r == spec_t_from_rp(self.units.temperature, t as int),
    {
        match self.units.temperature {
            TempUnit::Kelvin => t,
            TempUnit::Celsius => t - KELVIN_OFFSET,
            TempUnit::Fahrenheit => {
                proof {
                    assert(i64_fits(mul_div(t - 273_150_000, 9, 5))) by (nonlinear_arith)
                        requires qty_ok(t as int),
                    ;
                }
                mul_div_floor(t - KELVIN_OFFSET, 9, 5) + FAHRENHEIT_OFFSET
            },
        }
    }

    // ── Pressure ────────────────────────────────────────────────────

    /// Caller → native (kPa)
    pub fn p_to_rp(&self, p: i64) -> (r: i64)
        requires
            qty_ok(p as int),
            i64_fits(spec_p_to_rp(self.units.pressure, p as int)),
        ensures
            r == spec_p_to_rp(self.units.pressure, p as int),
    {
        match self.units.pressure {
            PressUnit::KPa => p,
            PressUnit::Bar => p * 100,
            PressUnit::MPa => p * 1000,
            PressUnit::Pa => {
                proof {
                    assert(i64_fits(mul_div(p as int, 1, 1000))) by (nonlinear_arith)
                        requires qty_ok(p as int),
                    ;
                }
                mul_div_floor(p, 1, 1000)
            },
            PressUnit::Atm => mul_div_floor(p, 101_325, 1000),
            PressUnit::Psi => mul_div_floor(p, 6_894_757, 1_000_000),
        }
    }

    /// Native (kPa) → caller
    pub fn p_from_rp(&self, p: i64) -> (r: i64)
        requires
            qty_ok(p as int),
            i64_fits(spec_p_from_rp(self.units.pressure, p as int)),
        ensures
            r == spec_p_from_rp(self.units.pressure, p as int),
    {
        proof {
            assert(i64_fits(mul_div(p as int, 1, 100)) && i64_fits(mul_div(p as int, 1, 1000))
                && i64_fits(mul_div(p as int, 1000, 101_325))) by (nonlinear_arith)
                requires qty_ok(p as int),
            ;
        }
        match self.units.pressure {
            PressUnit::KPa => p,
            PressUnit::Bar => mul_div_floor(p, 1, 100),
            PressUnit::MPa => mul_div_floor(p, 1, 1000),
            PressUnit::Pa => p * 1000,
            PressUnit::Atm => mul_div_floor(p, 1000, 101_325),
            PressUnit::Psi => mul_div_floor(p, 1_000_000, 6_894_757),
        }
    }

    // ── Density ─────────────────────────────────────────────────────

    /// Caller → native (mol/L)
    pub fn d_to_rp(&self, d: i64) -> (r: i64)
        requires
            self.wf(),
            qty_ok(d as int),
            i64_fits(spec_d_to_rp(self.units.density, self.molar_mass as int, d as int)),
        ensures
            r == spec_d_to_rp(self.units.density, self.molar_mass as int, d as int),
    {
        match self.units.density {
            DensityUnit::MolPerL => d,
            DensityUnit::KgPerM3 => mul_div_floor(d, 1_000_000, self.molar_mass),
        }
    }

    /// Native (mol/L) → caller
    pub fn d_from_rp(&self, d: i64) -> (r: i64)
        requires
            self.wf(),
            qty_ok(d as int),
            i64_fits(spec_d_from_rp(self.units.density, self.molar_mass as int, d as int)),
        ensures
            r == spec_d_from_rp(self.units.density, self.molar_mass as int, d as int),
    {
        match self.units.density {
            DensityUnit::MolPerL => d,
            DensityUnit::KgPerM3 => mul_div_floor(d, self.molar_mass, 1_000_000),
        }
    }

    // ── Energy / Enthalpy / Internal energy ─────────────────────────

    /// Caller → native (J/mol)
    pub fn h_to_rp(&self, h: i64) -> (r: i64)
        requires
            self.wf(),
            qty_ok(h as int),
            i64_fits(spec_h_to_rp(self.units.energy, self.molar_mass as int, h as int)),
        ensures
            r == spec_h_to_rp(self.units.energy, self.molar_mass as int, h as int),
    {
        match self.units.energy {
            EnergyUnit::JPerMol => h,
            EnergyUnit::KJPerKg => mul_div_floor(h, self.molar_mass, 1_000_000),
            EnergyUnit::JPerKg => mul_div_floor(h, self.molar_mass, 1_000_000_000),
        }
    }

    /// Native (J/mol) → caller
    pub fn h_from_rp(&self, h: i64) -> (r: i64)
        requires
            self.wf(),
            qty_ok(h as int),
            i64_fits(spec_h_from_rp(self.units.energy, self.molar_mass as int, h as int)),
        ensures
            r == spec_h_from_rp(self.units.energy, self.molar_mass as int, h as int),
    {
        match self.units.energy {
            EnergyUnit::JPerMol => h,
            EnergyUnit::KJPerKg => mul_div_floor(h, 1_000_000, self.molar_mass),
            EnergyUnit::JPerKg => mul_div_floor(h, 1_000_000_000, self.molar_mass),
        }
    }

    // ── Entropy / Cv / Cp ───────────────────────────────────────────

    /// Caller → native (J/(mol·K))
    pub fn s_to_rp(&self, s: i64) -> (r: i64)
        requires
            self.wf(),
            qty_ok(s as int),
            i64_fits(spec_s_to_rp(self.units.entropy, self.molar_mass as int, s as int)),
        ensures
            r == spec_s_to_rp(self.units.entropy, self.molar_mass as int, s as int),
    {
        match self.units.entropy {
            EntropyUnit::JPerMolK => s,
            EntropyUnit::KJPerKgK => mul_div_floor(s, self.molar_mass, 1_000_000),
            EntropyUnit::JPerKgK => mul_div_floor(s, self.molar_mass, 1_000_000_000),
        }
    }

    /// Native (J/(mol·K)) → caller
    pub fn s_from_rp(&self, s: i64) -> (r: i64)
        requires
            self.wf(),
            qty_ok(s as int),
            i64_fits(spec_s_from_rp(self.units.entropy, self.molar_mass as int, s as int)),
        ensures
            r == spec_s_from_rp(self.units.entropy, self.molar_mass as int, s as int),
    {
        match self.units.entropy {
            EntropyUnit::JPerMolK => s,
            EntropyUnit::KJPerKgK => mul_div_floor(s, 1_000_000, self.molar_mass),
            EntropyUnit::JPerKgK => mul_div_floor(s, 1_000_000_000, self.molar_mass),
        }
    }

    // ── Viscosity ───────────────────────────────────────────────────

    /// Native (µPa·s) → caller
    pub fn eta_from_rp(&self, eta: i64) -> (r: i64)
        requires
            qty_ok(eta as int),
        ensures
            r == spec_eta_from_rp(self.units.viscosity, eta as int),
    {
        proof {
            assert(i64_fits(mul_div(eta as int, 1, 1000))
                && i64_fits(mul_div(eta as int, 1, 1_000_000))) by (nonlinear_arith)
                requires qty_ok(eta as int),
            ;
        }
        match self.units.viscosity {
            ViscosityUnit::MicroPaS => eta,
            ViscosityUnit::MilliPaS => mul_div_floor(eta, 1, 1000),
            ViscosityUnit::PaS => mul_div_floor(eta, 1, 1_000_000),
        }
    }

    /// Caller → native (µPa·s)
    pub fn eta_to_rp(&self, eta: i64) -> (r: i64)
        requires
            qty_ok(eta as int),
            i64_fits(spec_eta_to_rp(self.units.viscosity, eta as int)),
        ensures
            r == spec_eta_to_rp(self.units.viscosity, eta as int),
    {
        match self.units.viscosity {
            ViscosityUnit::MicroPaS => eta,
            ViscosityUnit::MilliPaS => eta * 1000,
            ViscosityUnit::PaS => eta * 1_000_000,
        }
    }

    // ── Thermal conductivity ────────────────────────────────────────

    /// Native (W/(m·K)) → caller
    pub fn tcx_from_rp(&self, tcx: i64) -> (r: i64)
        requires
            qty_ok(tcx as int),
            i64_fits(spec_tcx_from_rp(self.units.conductivity, tcx as int)),
        ensures
            r == spec_tcx_from_rp(self.units.conductivity, tcx as int),
    {
        match self.units.conductivity {
            ConductivityUnit::WPerMK => tcx,
            ConductivityUnit::MilliWPerMK => tcx * 1000,
        }
    }

    /// Caller → native (W/(m·K))
    pub fn tcx_to_rp(&self, tcx: i64) -> (r: i64)
        requires
            qty_ok(tcx as int),
        ensures
            r == spec_tcx_to_rp(self.units.conductivity, tcx as int),
    {
        proof {
            assert(i64_fits(mul_div(tcx as int, 1, 1000))) by (nonlinear_arith)
                requires qty_ok(tcx as int),
            ;
        }
        match self.units.conductivity {
            ConductivityUnit::WPerMK => tcx,
            ConductivityUnit::MilliWPerMK => mul_div_floor(tcx, 1, 1000),
        }
    }
}

// ────────────────────────────────────────────────────────────────────
//  Generic key-based conversion
// ────────────────────────────────────────────────────────────────────

/// Caller value → native, with the conversion class chosen by the
/// property key.  Quality, sound speed and unrecognized keys pass
/// through unchanged (they are dimensionless or already native).
pub open spec fn spec_input_to_rp(c: Converter, key: Option<PropertyKey>, v: int) -> int {
    match key {
        Some(PropertyKey::Temperature) => spec_t_to_rp(c.units.temperature, v),
        Some(PropertyKey::Pressure) => spec_p_to_rp(c.units.pressure, v),
        Some(PropertyKey::Density) => spec_d_to_rp(c.units.density, c.molar_mass as int, v),
        Some(PropertyKey::Enthalpy) => spec_h_to_rp(c.units.energy, c.molar_mass as int, v),
        Some(PropertyKey::InternalEnergy) => spec_h_to_rp(c.units.energy, c.molar_mass as int, v),
        Some(PropertyKey::Entropy) => spec_s_to_rp(c.units.entropy, c.molar_mass as int, v),
        Some(PropertyKey::IsochoricHeatCapacity) => spec_s_to_rp(
            c.units.entropy,
            c.molar_mass as int,
            v,
        ),
        Some(PropertyKey::IsobaricHeatCapacity) => spec_s_to_rp(
            c.units.entropy,
            c.molar_mass as int,
            v,
        ),
        Some(PropertyKey::Viscosity) => spec_eta_to_rp(c.units.viscosity, v),
        Some(PropertyKey::ThermalConductivity) => spec_tcx_to_rp(c.units.conductivity, v),
        Some(PropertyKey::Quality) => v,
        Some(PropertyKey::SoundSpeed) => v,
        None => v,
    }
}

/// Native value → caller units, with the conversion class chosen by the
/// property key; quality, sound speed and unrecognized keys pass through.
pub open spec fn spec_output_from_rp(c: Converter, key: Option<PropertyKey>, v: int) -> int {
    match key {
        Some(PropertyKey::Temperature) => spec_t_from_rp(c.units.temperature, v),
        Some(PropertyKey::Pressure) => spec_p_from_rp(c.units.pressure, v),
        Some(PropertyKey::Density) => spec_d_from_rp(c.units.density, c.molar_mass as int, v),
        Some(PropertyKey::Enthalpy) => spec_h_from_rp(c.units.energy, c.molar_mass as int, v),
        Some(PropertyKey::InternalEnergy) => spec_h_from_rp(
            c.units.energy,
            c.molar_mass as int,
            v,
        ),
        Some(PropertyKey::Entropy) => spec_s_from_rp(c.units.entropy, c.molar_mass as int, v),
        Some(PropertyKey::IsochoricHeatCapacity) => spec_s_from_rp(
            c.units.entropy,
            c.molar_mass as int,
            v,
        ),
        Some(PropertyKey::IsobaricHeatCapacity) => spec_s_from_rp(
            c.units.entropy,
            c.molar_mass as int,
            v,
        ),
        Some(PropertyKey::Viscosity) => spec_eta_from_rp(c.units.viscosity, v),
        Some(PropertyKey::ThermalConductivity) => spec_tcx_from_rp(c.units.conductivity, v),
        Some(PropertyKey::Quality) => v,
        Some(PropertyKey::SoundSpeed) => v,
        None => v,
    }
}

impl Converter {
    /// Convert a caller-provided input value to native units, choosing
    /// the right conversion based on the property key (e.g. `"T"`,
    /// `"P"`, `"H"`, ...).  Unrecognized keys pass the value through
    /// unchanged (covers `Q`, `W`, and other dimensionless quantities).
    pub fn input_to_rp(&self, key: &str, val: i64) -> (r: i64)
        requires
            self.wf(),
            qty_ok(val as int),
            i64_fits(spec_input_to_rp(*self, spec_key(key.spec_bytes()), val as int)),
        ensures
            r == spec_input_to_rp(*self, spec_key(key.spec_bytes()), val as int),
    {
        match parse_key(key) {
            Some(PropertyKey::Temperature) => self.t_to_rp(val),
            Some(PropertyKey::Pressure) => self.p_to_rp(val),
            Some(PropertyKey::Density) => self.d_to_rp(val),
            Some(PropertyKey::Enthalpy) => self.h_to_rp(val),
            Some(PropertyKey::InternalEnergy) => self.h_to_rp(val),
            Some(PropertyKey::Entropy) => self.s_to_rp(val),
            Some(PropertyKey::IsochoricHeatCapacity) => self.s_to_rp(val),
            Some(PropertyKey::IsobaricHeatCapacity) => self.s_to_rp(val),
            Some(PropertyKey::Viscosity) => self.eta_to_rp(val),
            Some(PropertyKey::ThermalConductivity) => self.tcx_to_rp(val),
            Some(PropertyKey::Quality) => val,
            Some(PropertyKey::SoundSpeed) => val,
            None => val,
        }
    }

    /// Convert a native output value to caller units, choosing the
    /// conversion by the property key; unrecognized keys pass through.
    pub fn output_from_rp(&self, key: &str, val: i64) -> (r: i64)
        requires
            self.wf(),
            qty_ok(val as int),
            i64_fits(spec_output_from_rp(*self, spec_key(key.spec_bytes()), val as int)),
        ensures
            r == spec_output_from_rp(*self, spec_key(key.spec_bytes()), val as int),
    {
        match parse_key(key) {
            Some(PropertyKey::Temperature) => self.t_from_rp(val),
            Some(PropertyKey::Pressure) => self.p_from_rp(val),
            Some(PropertyKey::Density) => self.d_from_rp(val),
            Some(PropertyKey::Enthalpy) => self.h_from_rp(val),
            Some(PropertyKey::InternalEnergy) => self.h_from_rp(val),
            Some(PropertyKey::Entropy) => self.s_from_rp(val),
            Some(PropertyKey::IsochoricHeatCapacity) => self.s_from_rp(val),
            Some(PropertyKey::IsobaricHeatCapacity) => self.s_from_rp(val),
            Some(PropertyKey::Viscosity) => self.eta_from_rp(val),
            Some(PropertyKey::ThermalConductivity) => self.tcx_from_rp(val),
            Some(PropertyKey::Quality) => val,
            Some(PropertyKey::SoundSpeed) => val,
            None => val,
        }
    }
}

// ────────────────────────────────────────────────────────────────────
//  Whole-record conversions (native → caller units)
// ────────────────────────────────────────────────────────────────────

/// A native-unit thermodynamic state converted to caller units.  Sound
/// speed and quality are never converted (m/s and a fraction).
pub open spec fn spec_thermo_from_rp(c: Converter, raw: ThermoProp) -> ThermoProp {
    ThermoProp {
        temperature: spec_t_from_rp(c.units.temperature, raw.temperature as int) as i64,
        pressure: spec_p_from_rp(c.units.pressure, raw.pressure as int) as i64,
        density: spec_d_from_rp(c.units.density, c.molar_mass as int, raw.density as int) as i64,
        enthalpy: spec_h_from_rp(c.units.energy, c.molar_mass as int, raw.enthalpy as int) as i64,
        entropy: spec_s_from_rp(c.units.entropy, c.molar_mass as int, raw.entropy as int) as i64,
        cv: spec_s_from_rp(c.units.entropy, c.molar_mass as int, raw.cv as int) as i64,
        cp: spec_s_from_rp(c.units.entropy, c.molar_mass as int, raw.cp as int) as i64,
        sound_speed: raw.sound_speed,
        quality: raw.quality,
        internal_energy: spec_h_from_rp(
            c.units.energy,
            c.molar_mass as int,
            raw.internal_energy as int,
        ) as i64,
    }
}

/// All fields of a native state are small enough to convert.
pub open spec fn spec_thermo_from_rp_ok(c: Converter, raw: ThermoProp) -> bool {
    &&& qty_ok(raw.temperature as int) && qty_ok(raw.pressure as int) && qty_ok(
        raw.density as int,
    )
    &&& qty_ok(raw.enthalpy as int) && qty_ok(raw.entropy as int) && qty_ok(raw.cv as int)
    &&& qty_ok(raw.cp as int) && qty_ok(raw.internal_energy as int)
    &&& i64_fits(spec_p_from_rp(c.units.pressure, raw.pressure as int))
    &&& i64_fits(spec_d_from_rp(c.units.density, c.molar_mass as int, raw.density as int))
    &&& i64_fits(spec_h_from_rp(c.units.energy, c.molar_mass as int, raw.enthalpy as int))
    &&& i64_fits(spec_s_from_rp(c.units.entropy, c.molar_mass as int, raw.entropy as int))
    &&& i64_fits(spec_s_from_rp(c.units.entropy, c.molar_mass as int, raw.cv as int))
    &&& i64_fits(spec_s_from_rp(c.units.entropy, c.molar_mass as int, raw.cp as int))
    &&& i64_fits(
        spec_h_from_rp(c.units.energy, c.molar_mass as int, raw.internal_energy as int),
    )
}

/// A native-unit saturation record converted to caller units.
pub open spec fn spec_sat_from_rp(c: Converter, raw: SaturationProps) -> SaturationProps {
    SaturationProps {
        temperature: spec_t_from_rp(c.units.temperature, raw.temperature as int) as i64,
        pressure: spec_p_from_rp(c.units.pressure, raw.pressure as int) as i64,
        density_liquid: spec_d_from_rp(
            c.units.density,
            c.molar_mass as int,
            raw.density_liquid as int,
        ) as i64,
        density_vapor: spec_d_from_rp(
            c.units.density,
            c.molar_mass as int,
            raw.density_vapor as int,
        ) as i64,
    }
}

/// All fields of a native saturation record are small enough to convert.
pub open spec fn spec_sat_from_rp_ok(c: Converter, raw: SaturationProps) -> bool {
    &&& qty_ok(raw.temperature as int) && qty_ok(raw.pressure as int)
    &&& qty_ok(raw.density_liquid as int) && qty_ok(raw.density_vapor as int)
    &&& i64_fits(spec_p_from_rp(c.units.pressure, raw.pressure as int))
    &&& i64_fits(
        spec_d_from_rp(c.units.density, c.molar_mass as int, raw.density_liquid as int),
    )
    &&& i64_fits(
        spec_d_from_rp(c.units.density, c.molar_mass as int, raw.density_vapor as int),
    )
}

impl Converter {
    /// Converts every field of a native-unit flash result to caller
    /// units: temperature, pressure, density, enthalpy, entropy, both
    /// heat capacities and the internal energy by their classes; sound
    /// speed and quality pass through.
    pub fn convert_thermo(&self, raw: &ThermoProp) -> (r: ThermoProp)
        requires
            self.wf(),
            spec_thermo_from_rp_ok(*self, *raw),
        ensures
            r == spec_thermo_from_rp(*self, *raw),
    {
        ThermoProp {
            temperature: self.t_from_rp(raw.temperature),
            pressure: self.p_from_rp(raw.pressure),
            density: self.d_from_rp(raw.density),
            enthalpy: self.h_from_rp(raw.enthalpy),
            entropy: self.s_from_rp(raw.entropy),
            cv: self.s_from_rp(raw.cv),
            cp: self.s_from_rp(raw.cp),
            sound_speed: raw.sound_speed,
            quality: raw.quality,
            internal_energy: self.h_from_rp(raw.internal_energy),
        }
    }

    /// Converts every field of a native-unit saturation record to
    /// caller units.
    pub fn convert_sat(&self, raw: &SaturationProps) -> (r: SaturationProps)
        requires
            self.wf(),
            spec_sat_from_rp_ok(*self, *raw),
        ensures
            r == spec_sat_from_rp(*self, *raw),
    {
        SaturationProps {
            temperature: self.t_from_rp(raw.temperature),
            pressure: self.p_from_rp(raw.pressure),
            density_liquid: self.d_from_rp(raw.density_liquid),
            density_vapor: self.d_from_rp(raw.density_vapor),
        }
    }

    /// Converts a native-unit critical point to caller units.
    pub fn convert_critical(&self, raw: &CriticalProps) -> (r: CriticalProps)
        requires
            self.wf(),
            qty_ok(raw.temperature as int),
            qty_ok(raw.pressure as int),
            qty_ok(raw.density as int),
            i64_fits(spec_p_from_rp(self.units.pressure, raw.pressure as int)),
            i64_fits(spec_d_from_rp(self.units.density, self.molar_mass as int, raw.density as int)),
        ensures
            r == (CriticalProps {
                temperature: spec_t_from_rp(self.units.temperature, raw.temperature as int) as i64,
                pressure: spec_p_from_rp(self.units.pressure, raw.pressure as int) as i64,
                density: spec_d_from_rp(
                    self.units.density,
                    self.molar_mass as int,
                    raw.density as int,
                ) as i64,
            }),
    {
        CriticalProps {
            temperature: self.t_from_rp(raw.temperature),
            pressure: self.p_from_rp(raw.pressure),
            density: self.d_from_rp(raw.density),
        }
    }

    /// Converts a native-unit transport record to caller units.
    pub fn convert_transport(&self, raw: &TransportProps) -> (r: TransportProps)
        requires
            qty_ok(raw.viscosity as int),
            qty_ok(raw.thermal_conductivity as int),
            i64_fits(spec_tcx_from_rp(self.units.conductivity, raw.thermal_conductivity as int)),
        ensures
            r == (TransportProps {
                viscosity: spec_eta_from_rp(self.units.viscosity, raw.viscosity as int) as i64,
                thermal_conductivity: spec_tcx_from_rp(
                    self.units.conductivity,
                    raw.thermal_conductivity as int,
                ) as i64,
            }),
    {
        TransportProps {
            viscosity: self.eta_from_rp(raw.viscosity),
            thermal_conductivity: self.tcx_from_rp(raw.thermal_conductivity),
        }
    }
}

// ────────────────────────────────────────────────────────────────────
//  Unit-system equivalence
// ────────────────────────────────────────────────────────────────────

/// Two converters agree on everything the given property key's
/// conversion depends on: the unit chosen for its quantity class and,
/// for mass-based classes, the molar mass.
pub open spec fn spec_units_agree_for(a: Converter, b: Converter, key: Option<PropertyKey>)
    -> bool {
    match key {
        Some(PropertyKey::Temperature) => a.units.temperature == b.units.temperature,
        Some(PropertyKey::Pressure) => a.units.pressure == b.units.pressure,
        Some(PropertyKey::Density) => a.units.density == b.units.density && a.molar_mass
            == b.molar_mass,
        Some(PropertyKey::Enthalpy) => a.units.energy == b.units.energy && a.molar_mass
            == b.molar_mass,
        Some(PropertyKey::InternalEnergy) => a.units.energy == b.units.energy && a.molar_mass
            == b.molar_mass,
        Some(PropertyKey::Entropy) => a.units.entropy == b.units.entropy && a.molar_mass
            == b.molar_mass,
        Some(PropertyKey::IsochoricHeatCapacity) => a.units.entropy == b.units.entropy
            && a.molar_mass == b.molar_mass,
        Some(PropertyKey::IsobaricHeatCapacity) => a.units.entropy == b.units.entropy
            && a.molar_mass == b.molar_mass,
        Some(PropertyKey::Viscosity) => a.units.viscosity == b.units.viscosity,
        Some(PropertyKey::ThermalConductivity) => a.units.conductivity == b.units.conductivity,
        Some(PropertyKey::Quality) => true,
        Some(PropertyKey::SoundSpeed) => true,
        None => true,
    }
}

/// Unit-system equivalence: a conversion depends only on the unit
/// chosen for the key's quantity class (and the molar mass, for
/// mass-based classes).  Two unit systems that agree there produce
/// identical caller values from the same native value, and identical
/// native values from the same caller value — whatever else they
/// differ in.
pub proof fn law_unit_system_equivalence(
    a: Converter,
    b: Converter,
    key: Option<PropertyKey>,
    v: int,
)
    requires
        spec_units_agree_for(a, b, key),
    ensures
        spec_output_from_rp(a, key, v) == spec_output_from_rp(b, key, v),
        spec_input_to_rp(a, key, v) == spec_input_to_rp(b, key, v),
{
}

/// The identity converter converts nothing: under the engine-native
/// unit system every keyed conversion, in either direction, returns its
/// argument unchanged.
pub proof fn law_identity_converter_is_identity(key: Option<PropertyKey>, v: int)
    ensures
        spec_input_to_rp(Converter { units: UnitSystem::spec_refprop(), molar_mass: 1_000_000 }, key, v) == v,
        spec_output_from_rp(Converter { units: UnitSystem::spec_refprop(), molar_mass: 1_000_000 }, key, v) == v,
{
}

/// The engineering and strict-SI presets both measure density in
/// kg/m³, so for the same physical state (same native value and molar
/// mass) they report the same density.
pub proof fn law_density_same_in_engineering_and_si(mm: i64, v: int)
    ensures
        spec_output_from_rp(
            Converter { units: UnitSystem::spec_engineering(), molar_mass: mm },
            Some(PropertyKey::Density),
            v,
        ) == spec_output_from_rp(
            Converter { units: UnitSystem::spec_si(), molar_mass: mm },
            Some(PropertyKey::Density),
            v,
        ),
{
    law_unit_system_equivalence(
        Converter { units: UnitSystem::spec_engineering(), molar_mass: mm },
        Converter { units: UnitSystem::spec_si(), molar_mass: mm },
        Some(PropertyKey::Density),
        v,
    );
}

} // verus!
