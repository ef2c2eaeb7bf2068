use cea::eqsolver::{EqPartials, EqSolution, EqSolver, SolverOptions};
use cea::handle::Handle;
use cea::kinds::{EquilibriumType, PropertyType};
use cea::mixture::Mixture;
use cea::Error;

type Species = Vec<String>;

fn make(_n: i32, names: &[&str]) -> (i32, Option<Species>) {
    (0, Some(names.iter().map(|s| s.to_string()).collect()))
}

fn products() -> Mixture<Species> {
    Mixture::new(&["H2", "O2", "H2O"], make).unwrap()
}

fn solver() -> EqSolver<usize> {
    EqSolver::new(&products(), |h: &Handle<Species>| (0, Some(h.raw().unwrap().len()))).unwrap()
}

fn cea_error(e: Error) -> (i32, String) {
    match e {
        Error::Cea { code, context } => (code, context),
        other => panic!("expected a CEA error, got {:?}", other),
    }
}

#[test]
fn solvers_hold_what_create_made() {
    let s = solver();
    assert_eq!(s.handle().raw(), Some(&3usize));
    let p = products();
    let r = Mixture::new(&["H2", "O2"], make).unwrap();
    let s = EqSolver::with_reactants(&p, &r, |a: &Handle<Species>, b: &Handle<Species>| {
        (0, Some(a.raw().unwrap().len() * 10 + b.raw().unwrap().len()))
    })
    .unwrap();
    assert_eq!(s.handle().raw(), Some(&32usize));
}

#[test]
fn solver_creation_reports_the_routine() {
    let (code, context) =
        cea_error(EqSolver::<u8>::new(&products(), |_h: &Handle<Species>| (4, None)).err().unwrap());
    assert_eq!((code, context.as_str()), (4, "cea_eqsolver_create"));
    let p = products();
    let (code, context) = cea_error(
        EqSolver::<u8>::with_reactants(&p, &p, |_a: &Handle<Species>, _b: &Handle<Species>| (9, None))
            .err()
            .unwrap(),
    );
    assert_eq!((code, context.as_str()), (9, "cea_eqsolver_create_with_reactants"));
}

fn create_with(
    _h: &Handle<Species>,
    defaults: u32,
    options: &SolverOptions<'_, f64, Species>,
    count: Option<i32>,
) -> (i32, Option<(u32, bool, bool, Option<i32>)>) {
    (0, Some((defaults, options.ions, options.transport, count)))
}

#[test]
fn options_pass_the_defaults_and_the_insert_count() {
    let p = products();
    let mut options: SolverOptions<'_, f64, Species> = SolverOptions::default();
    options.ions = true;
    let s = EqSolver::with_options(&p, options, || (0, 77u32), create_with).unwrap();
    assert_eq!(s.handle().raw(), Some(&(77, true, false, None)));

    let mut options: SolverOptions<'_, f64, Species> = SolverOptions::default();
    options.transport = true;
    options.insert = vec!["C(gr)", "H2O(L)"];
    let s = EqSolver::with_options(&p, options, || (0, 1u32), create_with).unwrap();
    assert_eq!(s.handle().raw(), Some(&(1, false, true, Some(2))));
}

#[test]
fn options_are_checked_before_the_solver_is_made() {
    let p = products();
    let options: SolverOptions<'_, f64, Species> = SolverOptions::default();
    let (code, context) =
        cea_error(EqSolver::with_options(&p, options, || (6, 0u32), create_with).err().unwrap());
    assert_eq!((code, context.as_str()), (6, "cea_solver_opts_init"));

    let mut options: SolverOptions<'_, f64, Species> = SolverOptions::default();
    options.insert = vec!["C\0"];
    match EqSolver::with_options(&p, options, || (0, 0u32), create_with) {
        Err(Error::Nul { context }) => assert_eq!(context, "SolverOptions insert"),
        _ => panic!("expected a NUL error"),
    }

    let options: SolverOptions<'_, f64, Species> = SolverOptions::default();
    let failed = EqSolver::with_options(
        &p,
        options,
        || (0, 0u32),
        |_h: &Handle<Species>, _d: u32, _o: &SolverOptions<'_, f64, Species>, _n: Option<i32>| {
            (2, None::<u8>)
        },
    );
    let (code, context) = cea_error(failed.err().unwrap());
    assert_eq!((code, context.as_str()), (2, "cea_eqsolver_create_with_options"));
}

fn solution(s: &EqSolver<usize>) -> EqSolution<usize> {
    EqSolution::new(s, |h: &Handle<usize>| (0, Some(*h.raw().unwrap() + 100))).unwrap()
}

#[test]
fn solve_writes_back_what_the_routine_wrote() {
    let s = solver();
    let soln = solution(&s);
    assert_eq!(soln.handle().raw(), Some(&103usize));
    let mut amounts = [1.0, 2.0, 3.0];
    let r = s.solve(
        EquilibriumType::Tp,
        3000.0,
        1.0,
        &mut amounts,
        &soln,
        |_s: &Handle<usize>, t: EquilibriumType, a: f64, b: f64, x: &[f64], _o: &Handle<usize>| {
            assert_eq!(t, EquilibriumType::Tp);
            (0, x.iter().map(|v| v * a * b).collect())
        },
    );
    assert!(r.is_ok());
    assert_eq!(amounts, [3000.0, 6000.0, 9000.0]);

    let r = s.solve(
        EquilibriumType::Hp,
        1.0,
        1.0,
        &mut amounts,
        &soln,
        |_s: &Handle<usize>, _t: EquilibriumType, _a: f64, _b: f64, _x: &[f64], _o: &Handle<usize>| {
            (8, vec![0.0, 0.5])
        },
    );
    let (code, context) = cea_error(r.err().unwrap());
    assert_eq!((code, context.as_str()), (8, "cea_eqsolver_solve"));
    assert_eq!(amounts, [0.0, 0.5, 9000.0]);
}

#[test]
fn solve_with_partials_fills_only_what_was_written() {
    let s = solver();
    let soln = solution(&s);
    let partials: EqPartials<u8> =
        EqPartials::new(&s, |_h: &Handle<usize>| (0, Some(5u8))).unwrap();
    assert_eq!(partials.handle().raw(), Some(&5u8));
    let mut amounts = [1.0, 2.0, 3.0];
    let r = s.solve_with_partials(
        EquilibriumType::Tv,
        1.0,
        2.0,
        &mut amounts,
        &soln,
        &partials,
        |_s: &Handle<usize>,
         _t: EquilibriumType,
         _a: f64,
         _b: f64,
         _x: &[f64],
         _o: &Handle<usize>,
         _p: &Handle<u8>| (0, vec![9.0]),
    );
    assert!(r.is_ok());
    assert_eq!(amounts, [9.0, 2.0, 3.0]);
    let failed = EqPartials::<u8>::new(&s, |_h: &Handle<usize>| (3, None));
    let (code, context) = cea_error(failed.err().unwrap());
    assert_eq!((code, context.as_str()), (3, "cea_eqpartials_create"));
}

#[test]
fn solution_reads_answer_or_report_their_routine() {
    let s = solver();
    let soln = solution(&s);
    let t = soln.get_property(PropertyType::Temperature, |_h: &Handle<usize>, p: PropertyType| {
        (0, if p == PropertyType::Temperature { 3000.0 } else { 0.0 })
    });
    assert_eq!(t.unwrap(), 3000.0);
    let (code, context) = cea_error(
        soln.get_property(PropertyType::Viscosity, |_h: &Handle<usize>, _p: PropertyType| (11, 0.0))
            .err()
            .unwrap(),
    );
    assert_eq!((code, context.as_str()), (11, "cea_eqsolution_get_property"));

    let mass = soln.species_mass_fractions(2, |_h: &Handle<usize>, n: i32, mass: bool| {
        (0, vec![if mass { 0.25 } else { 0.5 }; n as usize])
    });
    assert_eq!(mass.unwrap(), vec![0.25, 0.25]);
    let mole = soln.species_mole_fractions(3, |_h: &Handle<usize>, n: i32, mass: bool| {
        (0, vec![if mass { 0.25 } else { 0.5 }; n as usize])
    });
    assert_eq!(mole.unwrap(), vec![0.5, 0.5, 0.5]);
    // one amount per requested species, whatever the routine wrote
    let short = soln.species_mass_fractions(3, |_h: &Handle<usize>, _n: i32, _m: bool| (0, vec![0.75]));
    assert_eq!(short.unwrap(), vec![0.75, 0.0, 0.0]);
    let (code, context) = cea_error(
        soln.species_mole_fractions(1, |_h: &Handle<usize>, _n: i32, _m: bool| (1, Vec::<f64>::new()))
            .err()
            .unwrap(),
    );
    assert_eq!((code, context.as_str()), (1, "cea_eqsolution_get_species_amounts"));

    assert_eq!(soln.moles(|_h: &Handle<usize>| (0, 1.5)).unwrap(), 1.5);
    assert_eq!(soln.converged(|_h: &Handle<usize>| (0, 1)).unwrap(), true);
    assert_eq!(soln.converged(|_h: &Handle<usize>| (0, 0)).unwrap(), false);
    let (code, context) = cea_error(soln.converged(|_h: &Handle<usize>| (13, 1)).err().unwrap());
    assert_eq!((code, context.as_str()), (13, "cea_eqsolution_get_converged"));
}

#[test]
fn destroying_solver_objects_leaves_them_null() {
    let mut s = solver();
    let mut soln = solution(&s);
    assert_eq!(soln.destroy(|h: usize| if h == 103 { 0 } else { 1 }), Some(0));
    assert!(soln.handle().is_null());
    assert_eq!(soln.destroy(|_h: usize| 1), None);
    assert_eq!(s.destroy(|h: usize| h as i32), Some(3));
    assert!(s.handle().is_null());
}
