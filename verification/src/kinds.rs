//! The enumerations of the CEA interface.

use vstd::prelude::*;
use crate::error::{check, checked, CeaResult};

verus! {

/// How much CEA reports while it works.
#[derive(Debug, Clone, Copy, PartialEq, Eq, Structural)]
pub enum LogLevel {
    Critical,
    Error,
    Warning,
    Info,
    Debug,
    /// Nothing is reported (the C library's `CEA_LOG_NONE`).
    Off,
}

/// The pair of state variables that an equilibrium problem holds fixed.
#[derive(Debug, Clone, Copy, PartialEq, Eq, Structural)]
pub enum EquilibriumType {
    Tp,
    Hp,
    Sp,
    Tv,
    Uv,
    Sv,
}

/// A property of a mixture or of an equilibrium solution.
#[derive(Debug, Clone, Copy, PartialEq, Eq, Structural)]
pub enum PropertyType {
    Temperature,
    Pressure,
    Volume,
    Density,
    M,
    Mw,
    Enthalpy,
    Energy,
    Entropy,
    GibbsEnergy,
    GammaS,
    FrozenCp,
    FrozenCv,
    EquilibriumCp,
    EquilibriumCv,
    Viscosity,
    FrozenConductivity,
    EquilibriumConductivity,
    FrozenPrandtl,
    EquilibriumPrandtl,
}

impl PropertyType {
    /// Transport properties, which a solution has only when it was solved with transport.
    pub open spec fn spec_is_transport(self) -> bool {
        match self {
            PropertyType::Viscosity | PropertyType::FrozenConductivity
            | PropertyType::EquilibriumConductivity | PropertyType::FrozenPrandtl
            | PropertyType::EquilibriumPrandtl => true,
            _ => false,
        }
    }

    #[verifier::when_used_as_spec(spec_is_transport)]
    pub fn is_transport(self) -> (b: bool)
        ensures
            b == self.spec_is_transport(),
    {
        match self {
            PropertyType::Viscosity | PropertyType::FrozenConductivity
            | PropertyType::EquilibriumConductivity | PropertyType::FrozenPrandtl
            | PropertyType::EquilibriumPrandtl => true,
            _ => false,
        }
    }
}

/// Starts CEA. `start` runs the library's start-up (once per process) and answers with its
/// status.
pub fn init<F>(start: F) -> (r: CeaResult<()>)
    where
        F: Fn() -> i32,
    requires
        start.requires(()),
    ensures
        exists|code: i32| start.ensures((), code) && checked(r, code, "cea_init"@),
{
    let code = start();
    check(code, "cea_init")
}

/// Sets how much CEA reports. `set` hands the level to the library and answers with its
/// status.
pub fn set_log_level<F>(level: LogLevel, set: F) -> (r: CeaResult<()>)
    where
        F: Fn(LogLevel) -> i32,
    requires
        set.requires((level,)),
    ensures
        exists|code: i32| set.ensures((level,), code) && checked(r, code, "cea_set_log_level"@),
{
    let code = set(level);
    check(code, "cea_set_log_level")
}

} // verus!
