//! Property keys: the closed set of thermodynamic quantities the library
//! speaks about, and the case-insensitive string parsing (with synonym
//! folding) that maps caller-supplied key strings onto it.

use vstd::prelude::*;
use vstd::string::StringSliceAdditionalSpecFns;

verus! {

/// A thermodynamic property, as named by a caller-facing key string.
#[derive(Debug, Clone, Copy, PartialEq, Eq, Structural)]
pub enum PropertyKey {
    /// `T`
    Temperature,
    /// `P`
    Pressure,
    /// `D` or `RHO`
    Density,
    /// `H`
    Enthalpy,
    /// `S`
    Entropy,
    /// `Q`
    Quality,
    /// `CV`
    IsochoricHeatCapacity,
    /// `CP`
    IsobaricHeatCapacity,
    /// `W` or `A`
    SoundSpeed,
    /// `E` or `U`
    InternalEnergy,
    /// `ETA`, `V` or `VIS`
    Viscosity,
    /// `TCX`, `L` or `LAMBDA`
    ThermalConductivity,
}

/// ASCII upper-case folding of one byte.
pub open spec fn spec_upper_byte(b: u8) -> u8 {
    if 97 <= b <= 122 {
        (b - 32) as u8
    } else {
        b
    }
}

/// The property named by a key string's bytes, after upper-case folding;
/// `None` for anything outside the recognized set.
pub open spec fn spec_key(s: Seq<u8>) -> Option<PropertyKey> {
    if s.len() == 1 {
        let c = spec_upper_byte(s[0]);
        if c == 84 {  // T
            Some(PropertyKey::Temperature)
        } else if c == 80 {  // P
            Some(PropertyKey::Pressure)
        } else if c == 68 {  // D
            Some(PropertyKey::Density)
        } else if c == 72 {  // H
            Some(PropertyKey::Enthalpy)
        } else if c == 83 {  // S
            Some(PropertyKey::Entropy)
        } else if c == 81 {  // Q
            Some(PropertyKey::Quality)
        } else if c == 87 || c == 65 {  // W, A
            Some(PropertyKey::SoundSpeed)
        } else if c == 69 || c == 85 {  // E, U
            Some(PropertyKey::InternalEnergy)
        } else if c == 86 {  // V
            Some(PropertyKey::Viscosity)
        } else if c == 76 {  // L
            Some(PropertyKey::ThermalConductivity)
        } else {
            None
        }
    } else if s.len() == 2 {
        let c0 = spec_upper_byte(s[0]);
        let c1 = spec_upper_byte(s[1]);
        if c0 == 67 && c1 == 86 {  // CV
            Some(PropertyKey::IsochoricHeatCapacity)
        } else if c0 == 67 && c1 == 80 {  // CP
            Some(PropertyKey::IsobaricHeatCapacity)
        } else {
            None
        }
    } else if s.len() == 3 {
        let c0 = spec_upper_byte(s[0]);
        let c1 = spec_upper_byte(s[1]);
        let c2 = spec_upper_byte(s[2]);
        if c0 == 82 && c1 == 72 && c2 == 79 {  // RHO
            Some(PropertyKey::Density)
        } else if c0 == 69 && c1 == 84 && c2 == 65 {  // ETA
            Some(PropertyKey::Viscosity)
        } else if c0 == 86 && c1 == 73 && c2 == 83 {  // VIS
            Some(PropertyKey::Viscosity)
        } else if c0 == 84 && c1 == 67 && c2 == 88 {  // TCX
            Some(PropertyKey::ThermalConductivity)
        } else {
            None
        }
    } else if s.len() == 6 {
        if spec_upper_byte(s[0]) == 76 && spec_upper_byte(s[1]) == 65
            && spec_upper_byte(s[2]) == 77 && spec_upper_byte(s[3]) == 66
            && spec_upper_byte(s[4]) == 68 && spec_upper_byte(s[5]) == 65 {  // LAMBDA
            Some(PropertyKey::ThermalConductivity)
        } else {
            None
        }
    } else {
        None
    }
}

/// ASCII upper-case folding of one byte.
pub fn upper_byte(b: u8) -> (r: u8)
    ensures
        r == spec_upper_byte(b),
{
    if b >= 97 && b <= 122 {
        b - 32
    } else {
        b
    }
}

/// Parses a property key string: case-insensitive, with synonyms folded
/// (`RHO` → density, `VIS` → viscosity, ...).  Returns `None` for any
/// string outside the recognized set.
pub fn parse_key(s: &str) -> (r: Option<PropertyKey>)
    ensures
        r == spec_key(s.spec_bytes()),
{
    let b: &[u8] = s.as_bytes();
    if b.len() == 1 {
        let c = upper_byte(b[0]);
        if c == 84 {
            Some(PropertyKey::Temperature)
        } else if c == 80 {
            Some(PropertyKey::Pressure)
        } else if c == 68 {
            Some(PropertyKey::Density)
        } else if c == 72 {
            Some(PropertyKey::Enthalpy)
        } else if c == 83 {
            Some(PropertyKey::Entropy)
        } else if c == 81 {
            Some(PropertyKey::Quality)
        } else if c == 87 || c == 65 {
            Some(PropertyKey::SoundSpeed)
        } else if c == 69 || c == 85 {
            Some(PropertyKey::InternalEnergy)
        } else if c == 86 {
            Some(PropertyKey::Viscosity)
        } else if c == 76 {
            Some(PropertyKey::ThermalConductivity)
        } else {
            None
        }
    } else if b.len() == 2 {
        let c0 = upper_byte(b[0]);
        let c1 = upper_byte(b[1]);
        if c0 == 67 && c1 == 86 {
            Some(PropertyKey::IsochoricHeatCapacity)
        } else if c0 == 67 && c1 == 80 {
            Some(PropertyKey::IsobaricHeatCapacity)
        } else {
            None
        }
    } else if b.len() == 3 {
        let c0 = upper_byte(b[0]);
        let c1 = upper_byte(b[1]);
        let c2 = upper_byte(b[2]);
        if c0 == 82 && c1 == 72 && c2 == 79 {
            Some(PropertyKey::Density)
        } else if c0 == 69 && c1 == 84 && c2 == 65 {
            Some(PropertyKey::Viscosity)
        } else if c0 == 86 && c1 == 73 && c2 == 83 {
            Some(PropertyKey::Viscosity)
        } else if c0 == 84 && c1 == 67 && c2 == 88 {
            Some(PropertyKey::ThermalConductivity)
        } else {
            None
        }
    } else if b.len() == 6 {
        let c0 = upper_byte(b[0]);
        let c1 = upper_byte(b[1]);
        let c2 = upper_byte(b[2]);
        let c3 = upper_byte(b[3]);
        let c4 = upper_byte(b[4]);
        let c5 = upper_byte(b[5]);
        if c0 == 76 && c1 == 65 && c2 == 77 && c3 == 66 && c4 == 68 && c5 == 65 {
            Some(PropertyKey::ThermalConductivity)
        } else {
            None
        }
    } else {
        None
    }
}

} // verus!
