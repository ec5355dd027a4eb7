//! Unit-system presets, builders, and the fixed-point converter.
//!
//! All values are micro-units: an `i64` counts millionths of the unit,
//! so 273.15 K is 273_150_000.

use refprop::converter::Converter;
use refprop::{
    ConductivityUnit, DensityUnit, EnergyUnit, EntropyUnit, PressUnit, TempUnit, UnitSystem,
    ViscosityUnit,
};

#[test]
fn refprop_preset_is_native() {
    let u = UnitSystem::refprop();
    assert_eq!(u.temperature, TempUnit::Kelvin);
    assert_eq!(u.pressure, PressUnit::KPa);
    assert_eq!(u.density, DensityUnit::MolPerL);
    assert_eq!(u.energy, EnergyUnit::JPerMol);
    assert_eq!(u.entropy, EntropyUnit::JPerMolK);
    assert_eq!(u.viscosity, ViscosityUnit::MicroPaS);
    assert_eq!(u.conductivity, ConductivityUnit::WPerMK);
}

#[test]
fn engineering_preset() {
    let u = UnitSystem::engineering();
    assert_eq!(u.temperature, TempUnit::Celsius);
    assert_eq!(u.pressure, PressUnit::Bar);
    assert_eq!(u.density, DensityUnit::KgPerM3);
    assert_eq!(u.energy, EnergyUnit::KJPerKg);
    assert_eq!(u.entropy, EntropyUnit::KJPerKgK);
}

#[test]
fn si_preset() {
    let u = UnitSystem::si();
    assert_eq!(u.temperature, TempUnit::Kelvin);
    assert_eq!(u.pressure, PressUnit::Pa);
    assert_eq!(u.density, DensityUnit::KgPerM3);
    assert_eq!(u.energy, EnergyUnit::JPerKg);
    assert_eq!(u.viscosity, ViscosityUnit::PaS);
}

#[test]
fn new_equals_refprop_and_default() {
    assert_eq!(UnitSystem::new(), UnitSystem::refprop());
    assert_eq!(UnitSystem::default(), UnitSystem::refprop());
}

#[test]
fn builder_overrides_single_classes() {
    let u = UnitSystem::new()
        .temperature(TempUnit::Celsius)
        .pressure(PressUnit::Bar);
    assert_eq!(u.temperature, TempUnit::Celsius);
    assert_eq!(u.pressure, PressUnit::Bar);
    // everything else stays native
    assert_eq!(u.density, DensityUnit::MolPerL);
    assert_eq!(u.energy, EnergyUnit::JPerMol);

    let u2 = UnitSystem::si()
        .density(DensityUnit::MolPerL)
        .energy(EnergyUnit::JPerMol)
        .entropy(EntropyUnit::JPerMolK)
        .viscosity(ViscosityUnit::MilliPaS)
        .conductivity(ConductivityUnit::MilliWPerMK);
    assert_eq!(u2.temperature, TempUnit::Kelvin);
    assert_eq!(u2.pressure, PressUnit::Pa);
    assert_eq!(u2.density, DensityUnit::MolPerL);
    assert_eq!(u2.viscosity, ViscosityUnit::MilliPaS);
    assert_eq!(u2.conductivity, ConductivityUnit::MilliWPerMK);
}

#[test]
fn identity_converter_passes_through() {
    let c = Converter::identity();
    assert_eq!(c.molar_mass, 1_000_000); // 1 g/mol
    assert_eq!(c.t_to_rp(300_000_000), 300_000_000);
    assert_eq!(c.p_to_rp(101_325_000), 101_325_000);
    assert_eq!(c.d_to_rp(14_400_000), 14_400_000);
    assert_eq!(c.h_from_rp(-5_000_000), -5_000_000);
}

#[test]
fn celsius_kelvin_conversion() {
    let c = Converter::new(UnitSystem::engineering(), 100_000_000);
    // 0 °C -> 273.15 K
    assert_eq!(c.t_to_rp(0), 273_150_000);
    // -5 °C -> 268.15 K
    assert_eq!(c.t_to_rp(-5_000_000), 268_150_000);
    // 273.15 K -> 0 °C
    assert_eq!(c.t_from_rp(273_150_000), 0);
    // 293.15 K -> 20 °C
    assert_eq!(c.t_from_rp(293_150_000), 20_000_000);
}

#[test]
fn fahrenheit_conversion() {
    let c = Converter::new(
        UnitSystem::new().temperature(TempUnit::Fahrenheit),
        1_000_000,
    );
    // 32 °F -> 273.15 K
    assert_eq!(c.t_to_rp(32_000_000), 273_150_000);
    // 212 °F -> 373.15 K
    assert_eq!(c.t_to_rp(212_000_000), 373_150_000);
    // 373.15 K -> 212 °F
    assert_eq!(c.t_from_rp(373_150_000), 212_000_000);
}

#[test]
fn pressure_conversions() {
    let bar = Converter::new(UnitSystem::new().pressure(PressUnit::Bar), 1_000_000);
    // 2.93 bar -> 293 kPa
    assert_eq!(bar.p_to_rp(2_930_000), 293_000_000);
    // 1038 kPa -> 10.38 bar
    assert_eq!(bar.p_from_rp(1_038_000_000), 10_380_000);

    let pa = Converter::new(UnitSystem::new().pressure(PressUnit::Pa), 1_000_000);
    // 101325 Pa -> 101.325 kPa
    assert_eq!(pa.p_to_rp(101_325_000_000), 101_325_000);
    // 101.325 kPa -> 101325 Pa
    assert_eq!(pa.p_from_rp(101_325_000), 101_325_000_000);

    let atm = Converter::new(UnitSystem::new().pressure(PressUnit::Atm), 1_000_000);
    // 1 atm -> 101.325 kPa
    assert_eq!(atm.p_to_rp(1_000_000), 101_325_000);

    let psi = Converter::new(UnitSystem::new().pressure(PressUnit::Psi), 1_000_000);
    // 1 psi -> 6.894757 kPa
    assert_eq!(psi.p_to_rp(1_000_000), 6_894_757);

    let mpa = Converter::new(UnitSystem::new().pressure(PressUnit::MPa), 1_000_000);
    // 5 MPa -> 5000 kPa
    assert_eq!(mpa.p_to_rp(5_000_000), 5_000_000_000);
    assert_eq!(mpa.p_from_rp(5_000_000_000), 5_000_000);
}

#[test]
fn density_conversion_uses_molar_mass() {
    // molar mass 100 g/mol
    let c = Converter::new(UnitSystem::engineering(), 100_000_000);
    // 1295 kg/m3 -> 12.95 mol/L
    assert_eq!(c.d_to_rp(1_295_000_000), 12_950_000);
    // 12.95 mol/L -> 1295 kg/m3
    assert_eq!(c.d_from_rp(12_950_000), 1_295_000_000);
}

#[test]
fn energy_conversion_uses_molar_mass() {
    let c = Converter::new(UnitSystem::engineering(), 100_000_000);
    // 400 kJ/kg -> 40000 J/mol (×0.1 kg/mol)
    assert_eq!(c.h_to_rp(400_000_000), 40_000_000_000);
    // 40000 J/mol -> 400 kJ/kg
    assert_eq!(c.h_from_rp(40_000_000_000), 400_000_000);

    let si = Converter::new(UnitSystem::si(), 100_000_000);
    // 400000 J/kg -> 40000 J/mol
    assert_eq!(si.h_to_rp(400_000_000_000), 40_000_000_000);
    // 40000 J/mol -> 400000 J/kg
    assert_eq!(si.h_from_rp(40_000_000_000), 400_000_000_000);
}

#[test]
fn entropy_conversion_uses_molar_mass() {
    let c = Converter::new(UnitSystem::engineering(), 50_000_000);
    // 2 kJ/(kg·K) at 50 g/mol -> 100 J/(mol·K)
    assert_eq!(c.s_to_rp(2_000_000), 100_000_000);
    assert_eq!(c.s_from_rp(100_000_000), 2_000_000);
}

#[test]
fn viscosity_and_conductivity_conversions() {
    let c = Converter::new(
        UnitSystem::new()
            .viscosity(ViscosityUnit::MilliPaS)
            .conductivity(ConductivityUnit::MilliWPerMK),
        1_000_000,
    );
    // 0.012 mPa·s -> 12 µPa·s
    assert_eq!(c.eta_to_rp(12_000), 12_000_000);
    // 12 µPa·s -> 0.012 mPa·s
    assert_eq!(c.eta_from_rp(12_000_000), 12_000);
    // 0.08 W/(m·K) -> 80 mW/(m·K)
    assert_eq!(c.tcx_from_rp(80_000), 80_000_000);
    assert_eq!(c.tcx_to_rp(80_000_000), 80_000);

    let pas = Converter::new(UnitSystem::new().viscosity(ViscosityUnit::PaS), 1_000_000);
    // 12 µPa·s -> 0.000012 Pa·s
    assert_eq!(pas.eta_from_rp(12_000_000), 12);
    assert_eq!(pas.eta_to_rp(12), 12_000_000);
}

#[test]
fn keyed_input_conversion_selects_class() {
    let c = Converter::new(UnitSystem::engineering(), 100_000_000);
    // "T" in °C
    assert_eq!(c.input_to_rp("T", 0), 273_150_000);
    assert_eq!(c.input_to_rp("t", 0), 273_150_000);
    // "P" in bar
    assert_eq!(c.input_to_rp("P", 2_930_000), 293_000_000);
    // "D" and "RHO" both density
    assert_eq!(c.input_to_rp("D", 1_295_000_000), 12_950_000);
    assert_eq!(c.input_to_rp("rho", 1_295_000_000), 12_950_000);
    // "E" and "U" share the energy class
    assert_eq!(c.input_to_rp("E", 400_000_000), 40_000_000_000);
    assert_eq!(c.input_to_rp("u", 400_000_000), 40_000_000_000);
    // "CV"/"CP" share the entropy class
    assert_eq!(c.input_to_rp("Cv", 2_000_000), 200_000_000);
    assert_eq!(c.input_to_rp("CP", 2_000_000), 200_000_000);
    // quality and unknown keys pass through
    assert_eq!(c.input_to_rp("Q", 500_000), 500_000);
    assert_eq!(c.input_to_rp("W", 123), 123);
    assert_eq!(c.input_to_rp("XYZ", 777), 777);
}

#[test]
fn keyed_output_conversion_selects_class() {
    let c = Converter::new(UnitSystem::engineering(), 100_000_000);
    assert_eq!(c.output_from_rp("T", 273_150_000), 0);
    assert_eq!(c.output_from_rp("P", 293_000_000), 2_930_000);
    assert_eq!(c.output_from_rp("D", 12_950_000), 1_295_000_000);
    assert_eq!(c.output_from_rp("H", 40_000_000_000), 400_000_000);
    assert_eq!(c.output_from_rp("S", 100_000_000), 1_000_000);
    // pass-through outputs
    assert_eq!(c.output_from_rp("Q", 500_000), 500_000);
    assert_eq!(c.output_from_rp("W", 145_000_000), 145_000_000);
}

#[test]
fn engineering_and_si_report_same_density() {
    // Unit-system equivalence on the shared kg/m³ basis: the same native
    // state converts to the same caller density under both presets.
    let mm = 102_032_000; // 102.032 g/mol
    let eng = Converter::new(UnitSystem::engineering(), mm);
    let si = Converter::new(UnitSystem::si(), mm);
    let native_density = 14_400_000; // 14.4 mol/L
    assert_eq!(
        eng.output_from_rp("D", native_density),
        si.output_from_rp("D", native_density)
    );
}

#[test]
fn analytic_pressure_equivalence_on_exact_values() {
    // bar and Pa views of one native pressure, compared analytically:
    // 293 kPa is 2.93 bar and 293000 Pa; 1 bar = 100000 Pa.
    let bar = Converter::new(UnitSystem::new().pressure(PressUnit::Bar), 1_000_000);
    let pa = Converter::new(UnitSystem::new().pressure(PressUnit::Pa), 1_000_000);
    let native = 293_000_000; // 293 kPa
    let in_bar = bar.p_from_rp(native);
    let in_pa = pa.p_from_rp(native);
    assert_eq!(in_bar * 100_000, in_pa);
}
