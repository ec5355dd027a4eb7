//! Result records of flash, saturation, transport, critical-point and
//! static-information queries.  Every numeric field is a fixed-point
//! micro-unit value (`i64`, millionths of the carried unit); unless a
//! converter is applied the units are the engine-native ones.

use vstd::prelude::*;

verus! {

/// Full thermodynamic state produced by one flash calculation.
///
/// **Native units (molar basis):**
///
/// | Field            | Unit       |
/// |------------------|------------|
/// | temperature      | K          |
/// | pressure         | kPa        |
/// | density          | mol/L      |
/// | enthalpy         | J/mol      |
/// | entropy          | J/(mol·K)  |
/// | cv               | J/(mol·K)  |
/// | cp               | J/(mol·K)  |
/// | sound_speed      | m/s        |
/// | quality          | molar vapor fraction (0–1; outside that range = single phase) |
/// | internal_energy  | J/mol      |
#[derive(Debug, Clone, Copy, PartialEq, Eq, Structural)]
pub struct ThermoProp {
    pub temperature: i64,
    pub pressure: i64,
    pub density: i64,
    pub enthalpy: i64,
    pub entropy: i64,
    pub cv: i64,
    pub cp: i64,
    pub sound_speed: i64,
    pub quality: i64,
    pub internal_energy: i64,
}

/// Saturation-line properties at a single saturation locus (bubble or
/// dew curve).  Densities are in mol/L.
#[derive(Debug, Clone, Copy, PartialEq, Eq, Structural)]
pub struct SaturationProps {
    /// Saturation temperature (K)
    pub temperature: i64,
    /// Saturation pressure (kPa)
    pub pressure: i64,
    /// Saturated-liquid density (mol/L)
    pub density_liquid: i64,
    /// Saturated-vapor density (mol/L)
    pub density_vapor: i64,
}

/// Viscosity and thermal conductivity at a given (T, D) state point.
#[derive(Debug, Clone, Copy, PartialEq, Eq, Structural)]
pub struct TransportProps {
    /// Dynamic viscosity (µPa·s)
    pub viscosity: i64,
    /// Thermal conductivity (W/(m·K))
    pub thermal_conductivity: i64,
}

/// Critical point of the configured fluid or mixture.
#[derive(Debug, Clone, Copy, PartialEq, Eq, Structural)]
pub struct CriticalProps {
    /// Critical temperature (K)
    pub temperature: i64,
    /// Critical pressure (kPa)
    pub pressure: i64,
    /// Critical density (mol/L)
    pub density: i64,
}

/// Static information about a pure component.  These are intrinsic
/// substance constants and are always reported in native units,
/// whatever unit system the caller chose.
#[derive(Debug, Clone, Copy, PartialEq, Eq, Structural)]
pub struct FluidInfo {
    /// Molar mass (g/mol)
    pub molar_mass: i64,
    /// Triple-point temperature (K)
    pub triple_point_temp: i64,
    /// Normal boiling point (K)
    pub normal_boiling_point: i64,
    /// Critical temperature (K)
    pub critical_temperature: i64,
    /// Critical pressure (kPa)
    pub critical_pressure: i64,
    /// Critical density (mol/L)
    pub critical_density: i64,
    /// Critical compressibility factor Z_c
    pub compressibility_factor: i64,
    /// Acentric factor
    pub acentric_factor: i64,
    /// Dipole moment (debye)
    pub dipole_moment: i64,
    /// Gas constant R for this fluid (J/(mol·K))
    pub gas_constant: i64,
}

} // verus!
