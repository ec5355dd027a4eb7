//! Fluid configuration building, session bookkeeping, and the error
//! taxonomy.

use refprop::config::{
    classify_fluid_source, mix_molar_mass, mixture_config, pure_config,
};
use refprop::error::check_err;
use refprop::session::poisoned_lock_error;
use refprop::{FluidSource, RefpropError, RefpropSysError, SessionState};

#[test]
fn pure_config_names_one_component() {
    let c = pure_config("R134A");
    assert_eq!(c.component_files, "R134A.FLD");
    assert_eq!(c.composition, vec![1_000_000]);
}

#[test]
fn mixture_config_joins_files_with_pipes() {
    let components = vec![
        ("R32".to_string(), 500_000i64),
        ("R125".to_string(), 500_000i64),
    ];
    let c = mixture_config(&components).expect("valid mixture");
    assert_eq!(c.component_files, "R32.FLD|R125.FLD");
    assert_eq!(c.composition, vec![500_000, 500_000]);

    let three = vec![
        ("R32".to_string(), 230_000i64),
        ("R125".to_string(), 250_000i64),
        ("R134A".to_string(), 520_000i64),
    ];
    let c3 = mixture_config(&three).expect("valid mixture");
    assert_eq!(c3.component_files, "R32.FLD|R125.FLD|R134A.FLD");
    assert_eq!(c3.composition, vec![230_000, 250_000, 520_000]);
}

#[test]
fn mixture_config_rejects_empty_and_oversized_lists() {
    let empty: Vec<(String, i64)> = Vec::new();
    assert!(matches!(
        mixture_config(&empty),
        Err(RefpropError::InvalidInput(_))
    ));

    let oversized: Vec<(String, i64)> = (0..21)
        .map(|i| (format!("C{i}"), 47_619i64))
        .collect();
    match mixture_config(&oversized) {
        Err(RefpropError::InvalidInput(m)) => {
            assert_eq!(m, "number of mixture components must be between 1 and 20");
        }
        other => panic!("expected invalid-input error, got {:?}", other),
    }

    let twenty: Vec<(String, i64)> = (0..20)
        .map(|i| (format!("C{i}"), 50_000i64))
        .collect();
    assert!(mixture_config(&twenty).is_ok());
}

#[test]
fn fluid_source_classification() {
    // a predefined-mixture file takes precedence
    assert_eq!(
        classify_fluid_source("R407C", true, false).unwrap(),
        FluidSource::PredefinedMixture
    );
    assert_eq!(
        classify_fluid_source("R407C", true, true).unwrap(),
        FluidSource::PredefinedMixture
    );
    assert_eq!(
        classify_fluid_source("R134A", false, true).unwrap(),
        FluidSource::PureFluid
    );
    match classify_fluid_source("NOSUCH", false, false) {
        Err(RefpropError::FluidNotFound(m)) => {
            assert_eq!(m, "NOSUCH (no .FLD in fluids/ and no .MIX in mixtures/)");
        }
        other => panic!("expected fluid-not-found error, got {:?}", other),
    }
}

#[test]
fn mixture_averaged_molar_mass() {
    // 50/50 of 52.024 and 120.021 g/mol -> 86.0225 g/mol
    let fracs = vec![500_000i64, 500_000i64];
    let masses = vec![52_024_000i64, 120_021_000i64];
    assert_eq!(mix_molar_mass(&fracs, &masses), 86_022_500);

    // pure fluid: fraction one reproduces the component mass
    assert_eq!(
        mix_molar_mass(&vec![1_000_000], &vec![102_032_000]),
        102_032_000
    );
}

#[test]
fn engine_status_codes_are_classified() {
    // positive: hard failure, propagated with code and message verbatim
    match check_err(249, "pressure out of range".to_string()) {
        Err(RefpropError::Refprop { code, message }) => {
            assert_eq!(code, 249);
            assert_eq!(message, "pressure out of range");
        }
        other => panic!("expected engine error, got {:?}", other),
    }
    // zero: success
    assert!(check_err(0, String::new()).is_ok());
    // negative: advisory warning, result stays usable
    assert!(check_err(-103, "warning".to_string()).is_ok());
}

#[test]
fn error_messages_name_their_kind() {
    let e = RefpropError::Refprop {
        code: 4,
        message: "bad composition".to_string(),
    };
    assert_eq!(e.message(), "engine error: bad composition");
    let w = RefpropError::Warning {
        code: -103,
        message: "near critical".to_string(),
    };
    assert_eq!(w.message(), "engine warning: near critical");
    assert_eq!(
        RefpropError::LibraryNotFound("/opt/missing".to_string()).message(),
        "engine library not found: /opt/missing"
    );
    assert_eq!(
        RefpropError::FluidNotFound("R999".to_string()).message(),
        "fluid file not found: R999"
    );
    assert_eq!(
        RefpropError::InvalidInput("quality must be finite".to_string()).message(),
        "invalid input: quality must be finite"
    );
    assert_eq!(
        RefpropError::CalculationFailed("no convergence".to_string()).message(),
        "calculation failed: no convergence"
    );
}

#[test]
fn loader_error_messages_name_their_kind() {
    assert_eq!(
        RefpropSysError::LibraryLoadFailed("wrong architecture".to_string()).message(),
        "engine library load failed: wrong architecture"
    );
    assert_eq!(
        RefpropSysError::SymbolNotFound("SETUPdll".to_string()).message(),
        "symbol not found in engine library: SETUPdll"
    );
}

#[test]
fn session_reconfigures_only_on_change() {
    let mut s = SessionState::new();
    assert_eq!(s.active_id, 0);
    // nothing configured yet: any real configuration needs setup
    assert!(s.needs_setup(1));
    s.mark_active(1);
    // repeated calls against the active configuration skip setup
    assert!(!s.needs_setup(1));
    assert!(s.needs_setup(2));
    s.mark_active(2);
    assert!(!s.needs_setup(2));
    assert!(s.needs_setup(1));
}

#[test]
fn poisoned_lock_is_a_distinct_fatal_error() {
    match poisoned_lock_error() {
        RefpropError::CalculationFailed(m) => {
            assert_eq!(m, "global engine lock is poisoned (a previous call panicked)");
        }
        other => panic!("expected calculation-failed error, got {:?}", other),
    }
}
