//! Flash dispatch: maps an unordered pair of named property constraints
//! onto the engine's flash primitives, normalizing argument order, and
//! plans a generic `get` query — conversion of the inputs to native
//! units, pair resolution, and output-key validation — rejecting
//! unsupported requests before any engine call.

use vstd::prelude::*;
use vstd::string::StringExecFns;
use vstd::string::StringSliceAdditionalSpecFns;
use crate::converter::{qty_ok, spec_input_to_rp, Converter};
use crate::error::RefpropError;
use crate::fixed::i64_fits;
use crate::keys::{parse_key, spec_key, PropertyKey};
use crate::properties::ThermoProp;

verus! {

/// The flash primitives the engine offers, one per supported constraint
/// pair.  `TQ` and `PQ` are not engine primitives; they are synthesized
/// from a saturation lookup plus quality interpolation.
#[derive(Debug, Clone, Copy, PartialEq, Eq, Structural)]
pub enum FlashPair {
    /// temperature–pressure
    TP,
    /// pressure–enthalpy
    PH,
    /// pressure–entropy
    PS,
    /// temperature–density
    TD,
    /// pressure–density
    PD,
    /// temperature–enthalpy
    TH,
    /// temperature–entropy
    TS,
    /// density–enthalpy
    DH,
    /// density–entropy
    DS,
    /// enthalpy–entropy
    HS,
    /// temperature–quality (saturation + interpolation)
    TQ,
    /// pressure–quality (saturation + interpolation)
    PQ,
}

/// One resolved flash invocation: the primitive to call and its two
/// arguments, already in the primitive's required order and in native
/// units.
#[derive(Debug, Clone, Copy, PartialEq, Eq, Structural)]
pub struct FlashRequest {
    pub pair: FlashPair,
    /// First argument of the primitive (native units).
    pub first: i64,
    /// Second argument of the primitive (native units).
    pub second: i64,
}

/// Resolves an unordered constraint pair to a flash request, reordering
/// the two values into the primitive's required order.  `None` for any
/// pair outside the supported set.
pub open spec fn spec_resolve_pair(
    k1: PropertyKey,
    v1: i64,
    k2: PropertyKey,
    v2: i64,
) -> Option<FlashRequest> {
    match (k1, k2) {
        (PropertyKey::Temperature, PropertyKey::Pressure) => Some(
            FlashRequest { pair: FlashPair::TP, first: v1, second: v2 },
        ),
        (PropertyKey::Pressure, PropertyKey::Temperature) => Some(
            FlashRequest { pair: FlashPair::TP, first: v2, second: v1 },
        ),
        (PropertyKey::Pressure, PropertyKey::Enthalpy) => Some(
            FlashRequest { pair: FlashPair::PH, first: v1, second: v2 },
        ),
        (PropertyKey::Enthalpy, PropertyKey::Pressure) => Some(
            FlashRequest { pair: FlashPair::PH, first: v2, second: v1 },
        ),
        (PropertyKey::Pressure, PropertyKey::Entropy) => Some(
            FlashRequest { pair: FlashPair::PS, first: v1, second: v2 },
        ),
        (PropertyKey::Entropy, PropertyKey::Pressure) => Some(
            FlashRequest { pair: FlashPair::PS, first: v2, second: v1 },
        ),
        (PropertyKey::Temperature, PropertyKey::Quality) => Some(
            FlashRequest { pair: FlashPair::TQ, first: v1, second: v2 },
        ),
        (PropertyKey::Quality, PropertyKey::Temperature) => Some(
            FlashRequest { pair: FlashPair::TQ, first: v2, second: v1 },
        ),
        (PropertyKey::Pressure, PropertyKey::Quality) => Some(
            FlashRequest { pair: FlashPair::PQ, first: v1, second: v2 },
        ),
        (PropertyKey::Quality, PropertyKey::Pressure) => Some(
            FlashRequest { pair: FlashPair::PQ, first: v2, second: v1 },
        ),
        (PropertyKey::Temperature, PropertyKey::Density) => Some(
            FlashRequest { pair: FlashPair::TD, first: v1, second: v2 },
        ),
        (PropertyKey::Density, PropertyKey::Temperature) => Some(
            FlashRequest { pair: FlashPair::TD, first: v2, second: v1 },
        ),
        (PropertyKey::Temperature, PropertyKey::Enthalpy) => Some(
            FlashRequest { pair: FlashPair::TH, first: v1, second: v2 },
        ),
        (PropertyKey::Enthalpy, PropertyKey::Temperature) => Some(
            FlashRequest { pair: FlashPair::TH, first: v2, second: v1 },
        ),
        (PropertyKey::Temperature, PropertyKey::Entropy) => Some(
            FlashRequest { pair: FlashPair::TS, first: v1, second: v2 },
        ),
        (PropertyKey::Entropy, PropertyKey::Temperature) => Some(
            FlashRequest { pair: FlashPair::TS, first: v2, second: v1 },
        ),
        (PropertyKey::Pressure, PropertyKey::Density) => Some(
            FlashRequest { pair: FlashPair::PD, first: v1, second: v2 },
        ),
        (PropertyKey::Density, PropertyKey::Pressure) => Some(
            FlashRequest { pair: FlashPair::PD, first: v2, second: v1 },
        ),
        (PropertyKey::Density, PropertyKey::Enthalpy) => Some(
            FlashRequest { pair: FlashPair::DH, first: v1, second: v2 },
        ),
        (PropertyKey::Enthalpy, PropertyKey::Density) => Some(
            FlashRequest { pair: FlashPair::DH, first: v2, second: v1 },
        ),
        (PropertyKey::Density, PropertyKey::Entropy) => Some(
            FlashRequest { pair: FlashPair::DS, first: v1, second: v2 },
        ),
        (PropertyKey::Entropy, PropertyKey::Density) => Some(
            FlashRequest { pair: FlashPair::DS, first: v2, second: v1 },
        ),
        (PropertyKey::Enthalpy, PropertyKey::Entropy) => Some(
            FlashRequest { pair: FlashPair::HS, first: v1, second: v2 },
        ),
        (PropertyKey::Entropy, PropertyKey::Enthalpy) => Some(
            FlashRequest { pair: FlashPair::HS, first: v2, second: v1 },
        ),
        _ => None,
    }
}

/// `spec_resolve_pair` lifted over unparsed keys: a key string outside
/// the constraint set resolves nothing.
pub open spec fn spec_resolve_opt(
    k1: Option<PropertyKey>,
    v1: i64,
    k2: Option<PropertyKey>,
    v2: i64,
) -> Option<FlashRequest> {
    match (k1, k2) {
        (Some(a), Some(b)) => spec_resolve_pair(a, v1, b, v2),
        _ => None,
    }
}

/// Resolves an unordered constraint pair to the flash primitive that
/// serves it, with the two values reordered into the primitive's
/// required argument order.
pub fn resolve_pair(k1: PropertyKey, v1: i64, k2: PropertyKey, v2: i64) -> (r: Option<
    FlashRequest,
>)
    ensures
        r == spec_resolve_pair(k1, v1, k2, v2),
{
    match (k1, k2) {
        (PropertyKey::Temperature, PropertyKey::Pressure) => Some(
            FlashRequest { pair: FlashPair::TP, first: v1, second: v2 },
        ),
        (PropertyKey::Pressure, PropertyKey::Temperature) => Some(
            FlashRequest { pair: FlashPair::TP, first: v2, second: v1 },
        ),
        (PropertyKey::Pressure, PropertyKey::Enthalpy) => Some(
            FlashRequest { pair: FlashPair::PH, first: v1, second: v2 },
        ),
        (PropertyKey::Enthalpy, PropertyKey::Pressure) => Some(
            FlashRequest { pair: FlashPair::PH, first: v2, second: v1 },
        ),
        (PropertyKey::Pressure, PropertyKey::Entropy) => Some(
            FlashRequest { pair: FlashPair::PS, first: v1, second: v2 },
        ),
        (PropertyKey::Entropy, PropertyKey::Pressure) => Some(
            FlashRequest { pair: FlashPair::PS, first: v2, second: v1 },
        ),
        (PropertyKey::Temperature, PropertyKey::Quality) => Some(
            FlashRequest { pair: FlashPair::TQ, first: v1, second: v2 },
        ),
        (PropertyKey::Quality, PropertyKey::Temperature) => Some(
            FlashRequest { pair: FlashPair::TQ, first: v2, second: v1 },
        ),
        (PropertyKey::Pressure, PropertyKey::Quality) => Some(
            FlashRequest { pair: FlashPair::PQ, first: v1, second: v2 },
        ),
        (PropertyKey::Quality, PropertyKey::Pressure) => Some(
            FlashRequest { pair: FlashPair::PQ, first: v2, second: v1 },
        ),
        (PropertyKey::Temperature, PropertyKey::Density) => Some(
            FlashRequest { pair: FlashPair::TD, first: v1, second: v2 },
        ),
        (PropertyKey::Density, PropertyKey::Temperature) => Some(
            FlashRequest { pair: FlashPair::TD, first: v2, second: v1 },
        ),
        (PropertyKey::Temperature, PropertyKey::Enthalpy) => Some(
            FlashRequest { pair: FlashPair::TH, first: v1, second: v2 },
        ),
        (PropertyKey::Enthalpy, PropertyKey::Temperature) => Some(
            FlashRequest { pair: FlashPair::TH, first: v2, second: v1 },
        ),
        (PropertyKey::Temperature, PropertyKey::Entropy) => Some(
            FlashRequest { pair: FlashPair::TS, first: v1, second: v2 },
        ),
        (PropertyKey::Entropy, PropertyKey::Temperature) => Some(
            FlashRequest { pair: FlashPair::TS, first: v2, second: v1 },
        ),
        (PropertyKey::Pressure, PropertyKey::Density) => Some(
            FlashRequest { pair: FlashPair::PD, first: v1, second: v2 },
        ),
        (PropertyKey::Density, PropertyKey::Pressure) => Some(
            FlashRequest { pair: FlashPair::PD, first: v2, second: v1 },
        ),
        (PropertyKey::Density, PropertyKey::Enthalpy) => Some(
            FlashRequest { pair: FlashPair::DH, first: v1, second: v2 },
        ),
        (PropertyKey::Enthalpy, PropertyKey::Density) => Some(
            FlashRequest { pair: FlashPair::DH, first: v2, second: v1 },
        ),
        (PropertyKey::Density, PropertyKey::Entropy) => Some(
            FlashRequest { pair: FlashPair::DS, first: v1, second: v2 },
        ),
        (PropertyKey::Entropy, PropertyKey::Density) => Some(
            FlashRequest { pair: FlashPair::DS, first: v2, second: v1 },
        ),
        (PropertyKey::Enthalpy, PropertyKey::Entropy) => Some(
            FlashRequest { pair: FlashPair::HS, first: v1, second: v2 },
        ),
        (PropertyKey::Entropy, PropertyKey::Enthalpy) => Some(
            FlashRequest { pair: FlashPair::HS, first: v2, second: v1 },
        ),
        _ => None,
    }
}

/// Physically there is one state per pair of independent constraints, so
/// resolution must not depend on the order in which the two constraints
/// are given: swapping the (key, value) pairs resolves to the same
/// primitive with the same ordered arguments, or fails identically.
pub proof fn law_resolve_pair_commutes(k1: PropertyKey, v1: i64, k2: PropertyKey, v2: i64)
    ensures
        spec_resolve_pair(k1, v1, k2, v2) == spec_resolve_pair(k2, v2, k1, v1),
{
}

// ────────────────────────────────────────────────────────────────────
//  Planning a generic `get` query
// ────────────────────────────────────────────────────────────────────

/// A fully validated `get` query: the flash to run (inputs already in
/// native units and primitive order) and the property to extract from
/// its result.
#[derive(Debug, Clone, Copy, PartialEq, Eq, Structural)]
pub struct GetPlan {
    pub request: FlashRequest,
    pub output: PropertyKey,
}

/// What planning yields once both input keys have been parsed and both
/// values converted to native units: a plan exactly when the constraint
/// pair is supported and the output key is known.
pub open spec fn spec_plan_get(
    o: Option<PropertyKey>,
    k1: Option<PropertyKey>,
    n1: i64,
    k2: Option<PropertyKey>,
    n2: i64,
) -> Option<GetPlan> {
    match spec_resolve_opt(k1, n1, k2, n2) {
        Some(request) => match o {
            Some(output) => Some(GetPlan { request, output }),
            None => None,
        },
        None => None,
    }
}

/// Message of the error rejecting an unsupported constraint pair,
/// naming both keys as given and the exhaustive supported set.
pub open spec fn spec_pair_error_message(k1: Seq<char>, k2: Seq<char>) -> Seq<char> {
    "unsupported input pair ("@ + k1 + ", "@ + k2
        + "); supported: (T,P) (T,D) (T,H) (T,S) (T,Q) (P,D) (P,H) (P,S) (P,Q) (D,H) (D,S) (H,S)"@
}

/// Message of the error rejecting an unknown output key, naming the
/// supported output key set.
pub open spec fn spec_output_error_message(o: Seq<char>) -> Seq<char> {
    "unknown output property "@ + o + "; supported: T P D H S Q CV CP W E ETA TCX"@
}

/// Plans a generic property query: converts both caller-unit inputs to
/// native units (by their keys' quantity classes), resolves the
/// constraint pair to a flash primitive, and validates the output key —
/// all before any engine work.  Returns the plan, or an invalid-input
/// error: one naming both keys and the supported pairs when the pair is
/// unsupported, else one naming the supported outputs when the output
/// key is unknown.
pub fn plan_get(conv: &Converter, output: &str, key1: &str, val1: i64, key2: &str, val2: i64)
    -> (r: Result<GetPlan, RefpropError>)
    requires
        conv.wf(),
        qty_ok(val1 as int),
        qty_ok(val2 as int),
        i64_fits(spec_input_to_rp(*conv, spec_key(key1.spec_bytes()), val1 as int)),
        i64_fits(spec_input_to_rp(*conv, spec_key(key2.spec_bytes()), val2 as int)),
    ensures
        ({
            let o = spec_key(output.spec_bytes());
            let k1 = spec_key(key1.spec_bytes());
            let k2 = spec_key(key2.spec_bytes());
            let n1 = spec_input_to_rp(*conv, k1, val1 as int);
            let n2 = spec_input_to_rp(*conv, k2, val2 as int);
            &&& match r {
                Ok(p) => Some(p) == spec_plan_get(o, k1, n1 as i64, k2, n2 as i64),
                Err(e) => {
                    &&& spec_plan_get(o, k1, n1 as i64, k2, n2 as i64) is None
                    &&& match e {
                        RefpropError::InvalidInput(m) => {
                            if spec_resolve_opt(k1, n1 as i64, k2, n2 as i64) is None {
                                m@ == spec_pair_error_message(key1@, key2@)
                            } else {
                                m@ == spec_output_error_message(output@)
                            }
                        },
                        _ => false,
                    }
                },
            }
        }),
{
    let n1 = conv.input_to_rp(key1, val1);
    let n2 = conv.input_to_rp(key2, val2);
    let pk1 = parse_key(key1);
    let pk2 = parse_key(key2);
    let resolved = match (pk1, pk2) {
        (Some(a), Some(b)) => resolve_pair(a, n1, b, n2),
        _ => None,
    };
    match resolved {
        Some(request) => match parse_key(output) {
            Some(out) => Ok(GetPlan { request, output: out }),
            None => Err(
                RefpropError::InvalidInput(
                    String::from_str("unknown output property ").concat(output).concat(
                        "; supported: T P D H S Q CV CP W E ETA TCX",
                    ),
                ),
            ),
        },
        None => Err(
            RefpropError::InvalidInput(
                String::from_str("unsupported input pair (").concat(key1).concat(", ").concat(
                    key2,
                ).concat(
                    "); supported: (T,P) (T,D) (T,H) (T,S) (T,Q) (P,D) (P,H) (P,S) (P,Q) (D,H) (D,S) (H,S)",
                ),
            ),
        ),
    }
}

/// Swapping the two (key, value) constraint arguments of a `get` query
/// never changes the plan: the same primitive is selected with the same
/// ordered arguments, and the same output is extracted — so the whole
/// query commutes in its constraints.
pub proof fn law_plan_get_commutes(
    o: Option<PropertyKey>,
    k1: Option<PropertyKey>,
    n1: i64,
    k2: Option<PropertyKey>,
    n2: i64,
)
    ensures
        spec_plan_get(o, k1, n1, k2, n2) == spec_plan_get(o, k2, n2, k1, n1),
{
    match (k1, k2) {
        (Some(a), Some(b)) => law_resolve_pair_commutes(a, n1, b, n2),
        _ => (),
    }
}

// ────────────────────────────────────────────────────────────────────
//  Output extraction
// ────────────────────────────────────────────────────────────────────

/// What a resolved state yields for a requested output: either the
/// value itself, or the (T, density) point at which one additional
/// transport-property evaluation is needed.
#[derive(Debug, Clone, Copy, PartialEq, Eq, Structural)]
pub enum GetOutcome {
    /// The requested property, read off the state (native units).
    Value(i64),
    /// Viscosity and thermal conductivity are not part of a flash
    /// result; they need one transport evaluation at this state point.
    NeedsTransport { temperature: i64, density: i64 },
}

/// Field selection of `spec_extract_output`.
pub open spec fn spec_extract_output(output: PropertyKey, props: ThermoProp) -> GetOutcome {
    match output {
        PropertyKey::Temperature => GetOutcome::Value(props.temperature),
        PropertyKey::Pressure => GetOutcome::Value(props.pressure),
        PropertyKey::Density => GetOutcome::Value(props.density),
        PropertyKey::Enthalpy => GetOutcome::Value(props.enthalpy),
        PropertyKey::Entropy => GetOutcome::Value(props.entropy),
        PropertyKey::Quality => GetOutcome::Value(props.quality),
        PropertyKey::IsochoricHeatCapacity => GetOutcome::Value(props.cv),
        PropertyKey::IsobaricHeatCapacity => GetOutcome::Value(props.cp),
        PropertyKey::SoundSpeed => GetOutcome::Value(props.sound_speed),
        PropertyKey::InternalEnergy => GetOutcome::Value(props.internal_energy),
        PropertyKey::Viscosity => GetOutcome::NeedsTransport {
            temperature: props.temperature,
            density: props.density,
        },
        PropertyKey::ThermalConductivity => GetOutcome::NeedsTransport {
            temperature: props.temperature,
            density: props.density,
        },
    }
}

/// Selects the requested output from a resolved thermodynamic state:
/// the matching field, or — for viscosity and thermal conductivity —
/// the state point at which a transport evaluation must be run.
pub fn extract_output(output: PropertyKey, props: &ThermoProp) -> (r: GetOutcome)
    ensures
        r == spec_extract_output(output, *props),
{
    match output {
        PropertyKey::Temperature => GetOutcome::Value(props.temperature),
        PropertyKey::Pressure => GetOutcome::Value(props.pressure),
        PropertyKey::Density => GetOutcome::Value(props.density),
        PropertyKey::Enthalpy => GetOutcome::Value(props.enthalpy),
        PropertyKey::Entropy => GetOutcome::Value(props.entropy),
        PropertyKey::Quality => GetOutcome::Value(props.quality),
        PropertyKey::IsochoricHeatCapacity => GetOutcome::Value(props.cv),
        PropertyKey::IsobaricHeatCapacity => GetOutcome::Value(props.cp),
        PropertyKey::SoundSpeed => GetOutcome::Value(props.sound_speed),
        PropertyKey::InternalEnergy => GetOutcome::Value(props.internal_energy),
        PropertyKey::Viscosity => GetOutcome::NeedsTransport {
            temperature: props.temperature,
            density: props.density,
        },
        PropertyKey::ThermalConductivity => GetOutcome::NeedsTransport {
            temperature: props.temperature,
            density: props.density,
        },
    }
}

} // verus!
