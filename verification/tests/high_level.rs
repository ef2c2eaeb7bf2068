// Two end-to-end scenarios, run against a simulated CEA library:
// the calls below answer as the library does for a converged solve, but compute nothing of
// chemistry. What the tests hold is the library's own handling of those answers.

use std::cell::RefCell;
use std::rc::Rc;

use cea::eqsolver::SolverOptions;
use cea::handle::Handle;
use cea::high_level::{
    solve_tp, solve_tp_chunk, solve_tp_equivalence_moles, solve_tp_equivalence_moles_chunk, BuildCalls,
    Equilibrium, EquilibriumProperties, EquilibriumResult, SolveCalls, TpCase, TpEquivalenceMolesCase,
};
use cea::kinds::{set_log_level, EquilibriumType, LogLevel, PropertyType};
use cea::Error;

const ATM: f64 = 1.01325;
const REACTANTS: [&str; 2] = ["H2", "Air"];
const PRODUCTS: [&str; 20] = [
    "Ar", "C", "CO", "CO2", "H", "H2", "H2O", "HNO", "HO2", "HNO2", "HNO3", "N", "NH", "NO", "N2",
    "N2O3", "O", "O2", "OH", "O3",
];
const FUEL_MOLES: [f64; 2] = [1.0, 0.0];
const OXIDANT_MOLES: [f64; 2] = [0.0, 1.0];

/// The objects of the simulated library.
#[derive(Clone, Debug)]
enum Obj {
    Mixture(Vec<String>),
    Solver(Vec<String>),
    Solution(Rc<RefCell<(f64, f64)>>),
    Partials,
}

fn names_of(h: &Handle<Obj>) -> Vec<String> {
    match h.raw() {
        Some(Obj::Mixture(n)) | Some(Obj::Solver(n)) => n.clone(),
        _ => Vec::new(),
    }
}

fn init() -> i32 {
    0
}
fn mixture(_n: i32, names: &[&str]) -> (i32, Option<Obj>) {
    (0, Some(Obj::Mixture(names.iter().map(|s| s.to_string()).collect())))
}
fn from_reactants(_n: i32, r: &[&str], _m: i32, o: &[&str]) -> (i32, Option<Obj>) {
    let mut names: Vec<String> = r.iter().map(|s| s.to_string()).collect();
    names.push("H2O".to_string());
    names.retain(|s| !o.contains(&s.as_str()));
    (0, Some(Obj::Mixture(names)))
}
fn solver_options() -> (i32, ()) {
    (0, ())
}
fn solver(products: &Handle<Obj>, _o: (), opts: &SolverOptions<f64, Obj>, _n: Option<i32>) -> (i32, Option<Obj>) {
    assert!(opts.reactants.is_some());
    (0, Some(Obj::Solver(names_of(products))))
}
fn solution(_s: &Handle<Obj>) -> (i32, Option<Obj>) {
    (0, Some(Obj::Solution(Rc::new(RefCell::new((0.0, 0.0))))))
}
fn partials(_s: &Handle<Obj>) -> (i32, Option<Obj>) {
    (0, Some(Obj::Partials))
}
fn species_count(h: &Handle<Obj>) -> (i32, i32) {
    (0, names_of(h).len() as i32)
}
fn name_len() -> (i32, i32) {
    (0, 15)
}
fn species_names(h: &Handle<Obj>, n: i32, stride: i32) -> (i32, Vec<u8>) {
    let stride = stride as usize;
    let mut b = vec![0u8; n as usize * stride];
    for (i, s) in names_of(h).iter().enumerate() {
        b[i * stride..i * stride + s.len()].copy_from_slice(s.as_bytes());
    }
    (0, b)
}

type Build = BuildCalls<
    fn() -> i32,
    fn(i32, &[&str]) -> (i32, Option<Obj>),
    fn(i32, &[&str]) -> (i32, Option<Obj>),
    fn(i32, &[&str], i32, &[&str]) -> (i32, Option<Obj>),
    fn(i32, &[&str], i32, &[&str]) -> (i32, Option<Obj>),
    fn() -> (i32, ()),
    fn(&Handle<Obj>, (), &SolverOptions<f64, Obj>, Option<i32>) -> (i32, Option<Obj>),
    fn(&Handle<Obj>) -> (i32, Option<Obj>),
    fn(&Handle<Obj>) -> (i32, Option<Obj>),
    fn(&Handle<Obj>) -> (i32, i32),
    fn() -> (i32, i32),
    fn(&Handle<Obj>, i32, i32) -> (i32, Vec<u8>),
>;

fn build_calls() -> Build {
    BuildCalls {
        init,
        mixture,
        mixture_with_ions: mixture,
        from_reactants,
        from_reactants_with_ions: from_reactants,
        solver_options,
        solver,
        solution,
        partials,
        species_count,
        name_len,
        species_names,
    }
}

fn cell(h: &Handle<Obj>) -> Rc<RefCell<(f64, f64)>> {
    match h.raw() {
        Some(Obj::Solution(c)) => c.clone(),
        _ => panic!("not a solution"),
    }
}

fn solve(
    _s: &Handle<Obj>,
    _t: EquilibriumType,
    state1: f64,
    state2: f64,
    amounts: &[f64],
    soln: &Handle<Obj>,
    _p: &Handle<Obj>,
) -> (i32, Vec<f64>) {
    *cell(soln).borrow_mut() = (state1, state2);
    (0, amounts.to_vec())
}
fn amounts(_h: &Handle<Obj>, n: i32, mass: bool) -> (i32, Vec<f64>) {
    let share = if mass { 1.0 } else { 0.5 };
    (0, vec![share / n as f64; n as usize])
}
fn property(h: &Handle<Obj>, p: PropertyType) -> (i32, f64) {
    let (t, pr) = *cell(h).borrow();
    match p {
        PropertyType::Temperature => (0, t),
        PropertyType::Pressure => (0, pr),
        PropertyType::Enthalpy => (0, -0.25 * t),
        _ => (0, 1.5),
    }
}
fn converged(_h: &Handle<Obj>) -> (i32, i32) {
    (0, 1)
}
fn moles(_h: &Handle<Obj>) -> (i32, f64) {
    (0, 0.04)
}

type Solve = SolveCalls<
    fn(&Handle<Obj>, EquilibriumType, f64, f64, &[f64], &Handle<Obj>, &Handle<Obj>) -> (i32, Vec<f64>),
    fn(&Handle<Obj>, i32, bool) -> (i32, Vec<f64>),
    fn(&Handle<Obj>, PropertyType) -> (i32, f64),
    fn(&Handle<Obj>) -> (i32, i32),
    fn(&Handle<Obj>) -> (i32, f64),
>;

fn solve_calls() -> Solve {
    SolveCalls { solve, amounts, property, converged, moles }
}

const WEIGHTS: [f64; 2] = [2.016, 28.96];

fn to_weights(_h: &Handle<Obj>, _n: i32, x: &[f64]) -> (i32, Vec<f64>) {
    (0, x.iter().zip(WEIGHTS).map(|(m, w)| m * w).collect())
}
fn chem_eq(_h: &Handle<Obj>, _n: i32, ox: &[f64], fuel: &[f64], ratio: f64) -> (i32, f64) {
    (0, ox.iter().sum::<f64>() / (ratio * 2.0 * fuel.iter().sum::<f64>()))
}
fn of_to_weights(_h: &Handle<Obj>, _n: i32, ox: &[f64], fuel: &[f64], of: f64) -> (i32, Vec<f64>) {
    (0, ox.iter().zip(fuel).map(|(o, f)| (of * o + f) / (of + 1.0)).collect())
}

#[test]
fn one_shot_tp_equivalence_moles_returns_common_properties() {
    set_log_level(LogLevel::Off, |_l| 0).unwrap();

    let result = solve_tp_equivalence_moles(
        &REACTANTS,
        &PRODUCTS,
        3000.0,
        ATM,
        &FUEL_MOLES,
        &OXIDANT_MOLES,
        1.0,
        &build_calls(),
        to_weights,
        chem_eq,
        of_to_weights,
        &solve_calls(),
    )
    .unwrap();

    assert!(result.converged);
    assert_eq!(result.reactant_weights.len(), REACTANTS.len());
    assert_eq!(result.product_species.len(), PRODUCTS.len());
    assert!(result.properties.enthalpy.is_finite());
    assert!(result.properties.equilibrium_cp.is_finite());
    assert!(result.product_mole_fraction("H2O").unwrap().is_finite());
}

#[test]
fn reusable_equilibrium_solves_multiple_states() {
    set_log_level(LogLevel::Off, |_l| 0).unwrap();

    let mut equilibrium = Equilibrium::<Obj>::builder::<f64>()
        .reactants(REACTANTS.iter().map(|s| s.to_string()).collect())
        .products(PRODUCTS.iter().map(|s| s.to_string()).collect())
        .build(&build_calls())
        .unwrap();

    let calls = solve_calls();
    let first = equilibrium
        .tp_with_chemical_equivalence_moles(3000.0, ATM, &FUEL_MOLES, &OXIDANT_MOLES, 1.0, to_weights, chem_eq, of_to_weights, &calls)
        .unwrap();
    let second = equilibrium
        .tp_with_chemical_equivalence_moles(2000.0, 0.1 * ATM, &FUEL_MOLES, &OXIDANT_MOLES, 1.5, to_weights, chem_eq, of_to_weights, &calls)
        .unwrap();

    assert!(first.converged);
    assert!(second.converged);
    assert_ne!(first.properties.temperature, second.properties.temperature);
    assert!(second.product_mass_fraction("N2").unwrap().is_finite());
}

#[test]
fn build_refuses_missing_reactants_and_empty_products() {
    let b = Equilibrium::<Obj>::builder::<f64>();
    match b.build(&build_calls()) {
        Err(Error::InvalidInput { context, message }) => {
            assert_eq!(context, "EquilibriumBuilder::build");
            assert_eq!(message, "reactants are required");
        }
        _ => panic!("expected a refusal"),
    }
    let b = Equilibrium::<Obj>::builder::<f64>().reactants(vec!["H2".to_string()]).products(vec![]);
    match b.build(&build_calls()) {
        Err(Error::InvalidInput { message, .. }) => assert_eq!(message, "products cannot be empty"),
        _ => panic!("expected a refusal"),
    }
}

#[test]
fn build_reports_the_first_failed_call() {
    let mut calls = build_calls();
    calls.init = || 4;
    match Equilibrium::<Obj>::builder::<f64>().reactants(vec!["H2".into()]).build(&calls) {
        Err(Error::Cea { code, context }) => assert_eq!((code, context.as_str()), (4, "cea_init")),
        _ => panic!("expected the init failure"),
    }
    let mut calls = build_calls();
    calls.solution = |_s| (11, None);
    match Equilibrium::<Obj>::builder::<f64>().reactants(vec!["H2".into()]).build(&calls) {
        Err(Error::Cea { code, context }) => assert_eq!((code, context.as_str()), (11, "cea_eqsolution_create")),
        _ => panic!("expected the solution failure"),
    }
}

#[test]
fn products_from_reactants_less_the_omitted() {
    let eq = Equilibrium::<Obj>::builder::<f64>()
        .reactants(vec!["H2".into(), "O2".into()])
        .products_from_reactants(vec!["O2".into()])
        .ions(true)
        .transport(true)
        .trace(1e-9)
        .insert(vec!["H2O(L)".into()])
        .build(&build_calls())
        .unwrap();
    assert_eq!(eq.reactant_species(), &["H2".to_string(), "O2".to_string()]);
    assert_eq!(eq.product_species(), &["H2".to_string(), "H2O".to_string()]);
}

#[test]
fn transport_properties_only_with_transport() {
    let mut plain = Equilibrium::<Obj>::builder::<f64>()
        .reactants(vec!["H2".into()])
        .products(vec!["H2".into(), "H".into()])
        .build(&build_calls())
        .unwrap();
    let r = plain.tp(1000.0, 2.0, &[1.0], &solve_calls()).unwrap();
    assert_eq!(r.property(PropertyType::Temperature), Some(1000.0));
    assert_eq!(r.property(PropertyType::Pressure), Some(2.0));
    assert_eq!(r.property(PropertyType::Viscosity), None);
    assert_eq!(r.properties.frozen_prandtl, None);
    assert_eq!(r.reactant_weights, vec![1.0]);
    assert_eq!(r.total_moles, 0.04);
    assert_eq!(r.product_mass_fractions, vec![0.5, 0.5]);
    assert_eq!(r.product_mole_fractions, vec![0.25, 0.25]);
    assert_eq!(r.product_mole_fraction("H"), Some(0.25));
    assert_eq!(r.product_mole_fraction("He"), None);

    let mut with = Equilibrium::<Obj>::builder::<f64>()
        .reactants(vec!["H2".into()])
        .products(vec!["H2".into()])
        .transport(true)
        .build(&build_calls())
        .unwrap();
    let r = with.hp(-5.0, 3.0, &[1.0], &solve_calls()).unwrap();
    assert_eq!(r.property(PropertyType::Viscosity), Some(1.5));
    assert_eq!(r.property(PropertyType::EquilibriumPrandtl), Some(1.5));
    let r = with.tv(500.0, 0.2, &[1.0], &solve_calls()).unwrap();
    assert_eq!(r.properties.temperature, 500.0);
}

#[test]
fn solve_checks_the_reactant_weights() {
    let mut eq = Equilibrium::<Obj>::builder::<f64>()
        .reactants(vec!["H2".into(), "Air".into()])
        .products(vec!["H2O".into()])
        .build(&build_calls())
        .unwrap();
    match eq.solve(EquilibriumType::Tp, 1.0, 1.0, &[1.0], &solve_calls()) {
        Err(Error::InvalidLength { context }) => assert_eq!(context, "Equilibrium::solve reactant_weights"),
        _ => panic!("expected a length error"),
    }
    let mut calls = solve_calls();
    calls.converged = |_h| (3, 0);
    match eq.tp(1.0, 1.0, &[1.0, 1.0], &calls) {
        Err(Error::Cea { code, context }) => assert_eq!((code, context.as_str()), (3, "cea_eqsolution_get_converged")),
        _ => panic!("expected the converged failure"),
    }
    let mut calls = solve_calls();
    calls.solve = |_s, _t, _a, _b, _x, _l, _p| (9, vec![]);
    match eq.tp(1.0, 1.0, &[1.0, 1.0], &calls) {
        Err(Error::Cea { code, context }) => assert_eq!((code, context.as_str()), (9, "cea_eqsolver_solve_with_partials")),
        _ => panic!("expected the solve failure"),
    }
}

#[test]
fn reactant_conversions_check_the_reactant_count() {
    let eq = Equilibrium::<Obj>::builder::<f64>()
        .reactants(vec!["H2".into(), "Air".into()])
        .products(vec!["H2O".into()])
        .build(&build_calls())
        .unwrap();
    assert_eq!(eq.reactant_weights_from_moles(&[1.0, 1.0], to_weights).unwrap(), vec![2.016, 28.96]);
    match eq.reactant_moles_from_weights(&[1.0], to_weights) {
        Err(Error::InvalidLength { context }) => assert_eq!(context, "reactant_moles_from_weights"),
        _ => panic!("expected a length error"),
    }
    match eq.of_ratio_from_chemical_equivalence(&[1.0, 0.0], &[0.0], 1.0, chem_eq) {
        Err(Error::InvalidLength { context }) => assert_eq!(context, "of_ratio_from_chemical_equivalence oxidant"),
        _ => panic!("expected a length error"),
    }
    assert_eq!(eq.of_ratio_from_chemical_equivalence(&[1.0, 0.0], &[0.0, 4.0], 1.0, chem_eq).unwrap(), 2.0);
    assert_eq!(eq.of_ratio_from_weight_equivalence(&[1.0, 0.0], &[0.0, 4.0], 2.0, chem_eq).unwrap(), 1.0);
    let w = eq.reactant_weights_from_chemical_equivalence(&[1.0, 0.0], &[0.0, 4.0], 1.0, chem_eq, of_to_weights).unwrap();
    assert_eq!(w, vec![1.0 / 3.0, 8.0 / 3.0]);
    assert_eq!(eq.reactant_weights_from_of_ratio(&[1.0, 0.0], &[0.0, 4.0], 2.0, of_to_weights).unwrap(), w);
}

#[test]
fn one_shot_tp_solves_at_the_given_state() {
    let r = solve_tp(&REACTANTS, &PRODUCTS, 2500.0, ATM, &[0.5, 0.5], &build_calls(), &solve_calls()).unwrap();
    assert_eq!(r.properties.temperature, 2500.0);
    assert_eq!(r.properties.pressure, ATM);
    assert_eq!(r.product_species.len(), 20);
    assert_eq!(r.product_mass_fraction("O3"), Some(0.05));
}

fn flat_properties(v: f64) -> EquilibriumProperties<f64> {
    EquilibriumProperties {
        temperature: v,
        pressure: v,
        volume: v,
        density: v,
        m: v,
        molecular_weight: v,
        enthalpy: v,
        internal_energy: v,
        entropy: v,
        gibbs_energy: v,
        gamma_s: v,
        frozen_cp: v,
        frozen_cv: v,
        equilibrium_cp: v,
        equilibrium_cv: v,
        viscosity: None,
        frozen_conductivity: None,
        equilibrium_conductivity: None,
        frozen_prandtl: None,
        equilibrium_prandtl: None,
    }
}

#[test]
fn fractions_are_found_at_the_first_listing_of_a_species() {
    let result = EquilibriumResult {
        converged: true,
        total_moles: 1.0,
        reactant_weights: vec![1.0],
        product_species: vec!["A".to_string(), "B".to_string(), "A".to_string(), "C".to_string()],
        product_mass_fractions: vec![0.1, 0.2, 0.3],
        product_mole_fractions: vec![0.4, 0.5, 0.6, 0.7],
        properties: flat_properties(2.0),
    };
    assert_eq!(result.product_mass_fraction("A"), Some(0.1));
    assert_eq!(result.product_mole_fraction("A"), Some(0.4));
    assert_eq!(result.product_mass_fraction("C"), None);
    assert_eq!(result.product_mole_fraction("C"), Some(0.7));
    assert_eq!(result.product_mole_fraction("D"), None);
    assert_eq!(result.property(PropertyType::Entropy), Some(2.0));
    assert_eq!(result.property(PropertyType::FrozenPrandtl), None);
}

fn air_builder() -> cea::high_level::EquilibriumBuilder<f64> {
    Equilibrium::<Obj>::builder::<f64>()
        .reactants(REACTANTS.iter().map(|s| s.to_string()).collect())
        .products(PRODUCTS.iter().map(|s| s.to_string()).collect())
}

#[test]
fn a_worker_solves_its_chunk_in_case_order() {
    let cases = vec![
        TpCase::new(3000.0, ATM, vec![1.0, 2.0]),
        TpCase::new(2000.0, 0.5, vec![3.0, 4.0]),
    ];
    let results = solve_tp_chunk::<Obj, _, _, _, _, _, _, _, _, _, _, _, _, _, _, _, _, _, _, _>(
        air_builder(),
        &cases,
        &build_calls(),
        &solve_calls(),
    )
    .unwrap();
    assert_eq!(results.len(), 2);
    assert_eq!(results[0].properties.temperature, 3000.0);
    assert_eq!(results[0].reactant_weights, vec![1.0, 2.0]);
    assert_eq!(results[1].properties.temperature, 2000.0);
    assert_eq!(results[1].properties.pressure, 0.5);
    assert_eq!(results[1].reactant_weights, vec![3.0, 4.0]);
    assert_eq!(results[1].product_mass_fractions.len(), PRODUCTS.len());
}

#[test]
fn a_worker_stops_at_the_first_failed_case_or_build() {
    let cases = vec![
        TpCase::new(3000.0, ATM, vec![1.0, 2.0]),
        TpCase::new(2000.0, ATM, vec![1.0]),
        TpCase::new(1000.0, ATM, vec![1.0, 2.0, 3.0]),
    ];
    match solve_tp_chunk::<Obj, _, _, _, _, _, _, _, _, _, _, _, _, _, _, _, _, _, _, _>(
        air_builder(),
        &cases,
        &build_calls(),
        &solve_calls(),
    ) {
        Err(Error::InvalidLength { context }) => assert_eq!(context, "Equilibrium::solve reactant_weights"),
        _ => panic!("expected the second case's length error"),
    }
    match solve_tp_chunk::<Obj, _, _, _, _, _, _, _, _, _, _, _, _, _, _, _, _, _, _, _>(
        Equilibrium::<Obj>::builder::<f64>(),
        &cases,
        &build_calls(),
        &solve_calls(),
    ) {
        Err(Error::InvalidInput { message, .. }) => assert_eq!(message, "reactants are required"),
        _ => panic!("expected the build's refusal"),
    }
    let none: Vec<TpCase<f64>> = Vec::new();
    let results = solve_tp_chunk::<Obj, _, _, _, _, _, _, _, _, _, _, _, _, _, _, _, _, _, _, _>(
        air_builder(),
        &none,
        &build_calls(),
        &solve_calls(),
    )
    .unwrap();
    assert!(results.is_empty());
}

#[test]
fn a_worker_solves_cases_given_by_moles() {
    let cases = vec![
        TpEquivalenceMolesCase::new(3000.0, ATM, FUEL_MOLES.to_vec(), OXIDANT_MOLES.to_vec(), 1.0),
        TpEquivalenceMolesCase::new(2000.0, 0.1 * ATM, FUEL_MOLES.to_vec(), OXIDANT_MOLES.to_vec(), 1.5),
    ];
    let results = solve_tp_equivalence_moles_chunk::<Obj, _, _, _, _, _, _, _, _, _, _, _, _, _, _, _, _, _, _, _, _, _, _>(
        air_builder(),
        &cases,
        &build_calls(),
        to_weights,
        chem_eq,
        of_to_weights,
        &solve_calls(),
    )
    .unwrap();
    assert_eq!(results.len(), 2);
    assert_eq!(results[0].properties.temperature, 3000.0);
    assert_eq!(results[1].properties.temperature, 2000.0);
    assert_eq!(results[1].reactant_weights.len(), REACTANTS.len());
}
