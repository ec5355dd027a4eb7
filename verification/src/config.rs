//! Logical fluid configurations: an ordered list of component fluid
//! files plus, for mixtures, a mole-fraction composition vector.  The
//! engine's setup call takes the file list as one pipe-separated string
//! (`"R32.FLD|R125.FLD"`); this module builds and validates that
//! description.  Component names are taken file-name-ready (already
//! upper-cased at the boundary that discovered the files).

use vstd::prelude::*;
use vstd::string::StringExecFns;
use crate::error::RefpropError;
use crate::fixed::{mul_div, mul_div_floor};

verus! {

/// The engine accepts at most this many mixture components.
pub const MAX_COMPONENTS: usize = 20;

/// A logical fluid configuration, immutable once constructed: the
/// pipe-separated fluid file list handed to the engine's setup call,
/// and the molar composition (millionths; a pure fluid is `[10^6]`).
#[derive(Debug, Clone)]
pub struct FluidConfig {
    /// Pipe-separated fluid file string, e.g. `"R134A.FLD"` or
    /// `"R32.FLD|R125.FLD"`.
    pub component_files: String,
    /// Mole fractions in millionths, one per component.
    pub composition: Vec<i64>,
}

impl FluidConfig {
    /// A valid configuration names between 1 and `MAX_COMPONENTS`
    /// components.
    pub open spec fn wf(&self) -> bool {
        1 <= self.composition.len() <= 20
    }
}

/// The pipe-separated file list of a component name sequence: each name
/// suffixed `.FLD`, names separated by `|`.
pub open spec fn spec_file_list(names: Seq<Seq<char>>) -> Seq<char>
    decreases names.len(),
{
    if names.len() == 0 {
        Seq::empty()
    } else if names.len() == 1 {
        names.last() + ".FLD"@
    } else {
        spec_file_list(names.drop_last()) + "|"@ + names.last() + ".FLD"@
    }
}

/// Builds the configuration of a pure fluid: one component file, mole
/// fraction exactly one.
pub fn pure_config(name: &str) -> (r: FluidConfig)
    ensures
        r.component_files@ == name@ + ".FLD"@,
        r.composition@ == seq![1_000_000i64],
        r.wf(),
{
    let mut files = String::from_str(name);
    files.append(".FLD");
    let mut composition: Vec<i64> = Vec::new();
    composition.push(1_000_000);
    proof {
        assert(composition@ == seq![1_000_000i64]);
    }
    FluidConfig { component_files: files, composition }
}

/// Builds the configuration of a custom mixture from (component name,
/// mole fraction) pairs.  Rejects an empty list and one longer than the
/// engine's component limit; the fractions themselves are not validated
/// here — the engine checks the composition it is handed.
pub fn mixture_config(components: &Vec<(String, i64)>) -> (r: Result<FluidConfig, RefpropError>)
    ensures
        ({
            let names = components@.map_values(|p: (String, i64)| p.0@);
            let fracs = components@.map_values(|p: (String, i64)| p.1);
            match r {
                Ok(c) => {
                    &&& 1 <= components@.len() <= 20
                    &&& c.component_files@ == spec_file_list(names)
                    &&& c.composition@ == fracs
                    &&& c.wf()
                },
                Err(e) => {
                    &&& (components@.len() == 0 || components@.len() > 20)
                    &&& e matches RefpropError::InvalidInput(m)
                        && m@ == "number of mixture components must be between 1 and 20"@
                },
            }
        }),
{
    let n = components.len();
    if n == 0 || n > MAX_COMPONENTS {
        return Err(
            RefpropError::InvalidInput(
                String::from_str("number of mixture components must be between 1 and 20"),
            ),
        );
    }
    let ghost names = components@.map_values(|p: (String, i64)| p.0@);
    let ghost fracs = components@.map_values(|p: (String, i64)| p.1);
    let mut files = String::from_str("");
    let mut composition: Vec<i64> = Vec::new();
    proof {
        reveal_strlit("");
        assert(files@ =~= spec_file_list(names.take(0)));
        assert(composition@ =~= fracs.take(0));
    }
    let mut i: usize = 0;
    while i < n
        invariant
            n == components@.len() <= 20,
            0 <= i <= n,
            names == components@.map_values(|p: (String, i64)| p.0@),
            fracs == components@.map_values(|p: (String, i64)| p.1),
            files@ == spec_file_list(names.take(i as int)),
            composition@ == fracs.take(i as int),
        decreases n - i,
    {
        if i > 0 {
            files.append("|");
        }
        files.append(components[i].0.as_str());
        files.append(".FLD");
        composition.push(components[i].1);
        proof {
            assert(names.take(i + 1).drop_last() =~= names.take(i as int));
            assert(names.take(i + 1).last() == names[i as int]);
            if i == 0 {
                assert(spec_file_list(names.take(1)) == names[0] + ".FLD"@);
                assert(files@ =~= names[0] + ".FLD"@);
            } else {
                assert(files@ =~= spec_file_list(names.take(i as int)) + "|"@ + names[i as int]
                    + ".FLD"@);
            }
            assert(composition@ =~= fracs.take(i + 1));
        }
        i = i + 1;
    }
    proof {
        assert(names.take(n as int) =~= names);
        assert(fracs.take(n as int) =~= fracs);
    }
    Ok(FluidConfig { component_files: files, composition })
}

/// How a fluid name maps onto the engine's definition files, decided
/// from what the filesystem lookup found: a predefined-mixture file
/// takes precedence over a pure-fluid file; neither is an error.
#[derive(Debug, Clone, Copy, PartialEq, Eq, Structural)]
pub enum FluidSource {
    /// A `.MIX` file was found: load the predefined mixture.
    PredefinedMixture,
    /// A `.FLD` file was found: load the pure fluid.
    PureFluid,
}

/// Classifies what the filesystem discovery found for a fluid name.
pub fn classify_fluid_source(name: &str, mix_file_found: bool, fluid_file_found: bool) -> (r:
    Result<FluidSource, RefpropError>)
    ensures
        mix_file_found ==> r == Result::<FluidSource, RefpropError>::Ok(
            FluidSource::PredefinedMixture,
        ),
        !mix_file_found && fluid_file_found ==> r == Result::<FluidSource, RefpropError>::Ok(
            FluidSource::PureFluid,
        ),
        !mix_file_found && !fluid_file_found ==> (r matches Err(e) && e matches
            RefpropError::FluidNotFound(m) && m@ == name@
            + " (no .FLD in fluids/ and no .MIX in mixtures/)"@),
{
    if mix_file_found {
        Ok(FluidSource::PredefinedMixture)
    } else if fluid_file_found {
        Ok(FluidSource::PureFluid)
    } else {
        Err(
            RefpropError::FluidNotFound(
                String::from_str(name).concat(" (no .FLD in fluids/ and no .MIX in mixtures/)"),
            ),
        )
    }
}

/// The mixture-averaged molar mass: the composition-weighted sum of the
/// component molar masses, each term floored to a micro-unit.
pub open spec fn spec_mix_molar_mass(fracs: Seq<i64>, masses: Seq<i64>) -> int
    decreases fracs.len(),
{
    if fracs.len() == 0 {
        0
    } else {
        spec_mix_molar_mass(fracs.drop_last(), masses.drop_last()) + mul_div(
            fracs.last() as int,
            masses.last() as int,
            1_000_000,
        )
    }
}

/// Computes the mixture-averaged molar mass (µg/mol) from per-component
/// mole fractions (millionths) and molar masses (µg/mol).  For a pure
/// fluid this returns the component's molar mass.
pub fn mix_molar_mass(fracs: &Vec<i64>, masses: &Vec<i64>) -> (r: i64)
    requires
        fracs.len() == masses.len(),
        fracs.len() <= 20,
        forall|j: int| 0 <= j < fracs.len() ==> 0 <= #[trigger] fracs@[j] <= 1_000_000,
        forall|j: int|
            0 <= j < masses.len() ==> 0 <= #[trigger] masses@[j] <= 1_000_000_000_000,
    ensures
        r == spec_mix_molar_mass(fracs@, masses@),
{
    let n = fracs.len();
    let mut total: i64 = 0;
    let mut i: usize = 0;
    while i < n
        invariant
            n == fracs@.len() == masses@.len() <= 20,
            0 <= i <= n,
            forall|j: int| 0 <= j < n ==> 0 <= #[trigger] fracs@[j] <= 1_000_000,
            forall|j: int| 0 <= j < n ==> 0 <= #[trigger] masses@[j] <= 1_000_000_000_000,
            total == spec_mix_molar_mass(fracs@.take(i as int), masses@.take(i as int)),
            0 <= total <= i * 1_000_000_000_000,
        decreases n - i,
    {
        proof {
            assert(0 <= mul_div(fracs@[i as int] as int, masses@[i as int] as int, 1_000_000)
                <= 1_000_000_000_000) by (nonlinear_arith)
                requires
                    0 <= fracs@[i as int] <= 1_000_000,
                    0 <= masses@[i as int] <= 1_000_000_000_000,
            ;
        }
        let term = mul_div_floor(fracs[i], masses[i], 1_000_000);
        proof {
            assert(fracs@.take(i + 1).drop_last() =~= fracs@.take(i as int));
            assert(masses@.take(i + 1).drop_last() =~= masses@.take(i as int));
        }
        total = total + term;
        i = i + 1;
    }
    proof {
        assert(fracs@.take(n as int) =~= fracs@);
        assert(masses@.take(n as int) =~= masses@);
    }
    total
}

} // verus!
