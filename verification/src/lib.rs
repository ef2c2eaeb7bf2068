//! Verified core of a safe interface to NASA's CEA (Chemical Equilibrium with Applications).

pub mod error;

pub use error::{check, invalid_input, CeaResult, Error, ErrorView, CEA_SUCCESS};
pub use eqsolver::{EqPartials, EqSolution, EqSolver, SolverOptions};
pub use high_level::{
    solve_tp, solve_tp_equivalence_moles, Equilibrium, EquilibriumBuilder, EquilibriumProperties,
    EquilibriumResult, TpCase, TpEquivalenceMolesCase,
};
pub use kinds::{init, set_log_level, EquilibriumType, LogLevel, PropertyType};
pub use mixture::Mixture;
pub mod args;
pub mod handle;
pub mod kinds;
pub mod mixture;
pub mod eqsolver;
pub mod high_level;
pub mod parallel;
