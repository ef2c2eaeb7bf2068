use cea::handle::Handle;
use cea::kinds::PropertyType;
use cea::mixture::Mixture;
use cea::Error;

type Species = Vec<String>;

fn make(n: i32, names: &[&str]) -> (i32, Option<Species>) {
    assert_eq!(n as usize, names.len());
    (0, Some(names.iter().map(|s| s.to_string()).collect()))
}

fn refuse(_n: i32, _names: &[&str]) -> (i32, Option<Species>) {
    (7, None)
}

fn species(h: &Handle<Species>) -> &Species {
    h.raw().unwrap()
}

fn mixture(names: &[&str]) -> Mixture<Species> {
    Mixture::new(names, make).unwrap()
}

fn double(h: &Handle<Species>, n: i32, x: &[f64]) -> (i32, Vec<f64>) {
    assert_eq!(species(h).len(), n as usize);
    (0, x.iter().map(|v| 2.0 * v).collect())
}

fn failing(_h: &Handle<Species>, _n: i32, _x: &[f64]) -> (i32, Vec<f64>) {
    (5, vec![])
}

fn cea_error(e: Error) -> (i32, String) {
    match e {
        Error::Cea { code, context } => (code, context),
        other => panic!("expected a CEA error, got {:?}", other),
    }
}

fn length_context(e: Error) -> String {
    match e {
        Error::InvalidLength { context } => context,
        other => panic!("expected a length error, got {:?}", other),
    }
}

#[test]
fn new_mixture_holds_the_created_handle() {
    let m = mixture(&["H2", "Air"]);
    assert_eq!(species(m.handle()), &vec!["H2".to_string(), "Air".to_string()]);
    let m = Mixture::new_with_ions(&["H2"], make).unwrap();
    assert_eq!(species(m.handle()).len(), 1);
}

#[test]
fn new_mixture_reports_create_failures_and_nul_names() {
    let (code, context) = cea_error(Mixture::new(&["H2"], refuse).err().unwrap());
    assert_eq!(code, 7);
    assert_eq!(context, "cea_mixture_create");
    let (code, context) = cea_error(Mixture::new_with_ions(&["H2"], refuse).err().unwrap());
    assert_eq!(code, 7);
    assert_eq!(context, "cea_mixture_create_w_ions");
    match Mixture::new(&["H\02"], make) {
        Err(Error::Nul { context }) => assert_eq!(context, "Mixture::new species"),
        _ => panic!("expected a NUL error"),
    }
}

fn from_reactants(n: i32, r: &[&str], m: i32, o: &[&str]) -> (i32, Option<Species>) {
    assert_eq!(n as usize, r.len());
    assert_eq!(m as usize, o.len());
    let all = ["H2", "O2", "H2O", "OH"];
    (0, Some(all.iter().filter(|s| !o.contains(s)).map(|s| s.to_string()).collect()))
}

#[test]
fn products_from_reactants_pass_both_lists() {
    let m = Mixture::from_reactants(&["H2", "O2"], &["OH"], from_reactants).unwrap();
    assert_eq!(species(m.handle()).len(), 3);
    match Mixture::from_reactants_with_ions(&["H2"], &["O\0H"], from_reactants) {
        Err(Error::Nul { context }) => assert_eq!(context, "Mixture::from_reactants_with_ions omit"),
        _ => panic!("expected a NUL error"),
    }
    match Mixture::from_reactants(&["H\02"], &["O\0H"], from_reactants) {
        Err(Error::Nul { context }) => assert_eq!(context, "Mixture::from_reactants reactants"),
        _ => panic!("expected a NUL error"),
    }
}

#[test]
fn conversions_copy_what_the_routine_wrote() {
    let m = mixture(&["H2", "Air"]);
    let mut w = [0.0; 2];
    m.moles_to_weights(&[1.0, 3.0], &mut w, double).unwrap();
    assert_eq!(w, [2.0, 6.0]);
    assert_eq!(m.weights_to_moles_vec(&[1.0, 0.5], double).unwrap(), vec![2.0, 1.0]);
    assert_eq!(m.per_mole_to_per_weight_vec(&[4.0, 0.0], double).unwrap(), vec![8.0, 0.0]);
    assert_eq!(m.per_weight_to_per_mole_vec(&[1.0, 1.0], double).unwrap(), vec![2.0, 2.0]);
    assert_eq!(m.moles_to_weights_vec(&[1.0, 2.0], double).unwrap(), vec![2.0, 4.0]);
}

#[test]
fn conversions_check_lengths_and_status() {
    let m = mixture(&["H2", "Air"]);
    let mut w = [9.0; 3];
    let e = m.moles_to_weights(&[1.0, 3.0], &mut w, double).unwrap_err();
    assert_eq!(length_context(e), "moles_to_weights");
    assert_eq!(w, [9.0; 3]);
    let mut w = [9.0; 2];
    let (code, context) = cea_error(m.per_weight_to_per_mole(&[1.0, 3.0], &mut w, failing).unwrap_err());
    assert_eq!(code, 5);
    assert_eq!(context, "cea_mixture_per_weight_to_per_mole");
    assert_eq!(w, [9.0; 2]);
    let (code, context) = cea_error(m.weights_to_moles_vec(&[1.0], failing).unwrap_err());
    assert_eq!((code, context.as_str()), (5, "cea_mixture_weights_to_moles"));
}

fn first_only(_h: &Handle<Species>, _n: i32, x: &[f64]) -> (i32, Vec<f64>) {
    (0, vec![10.0 * x[0], 1.0, 2.0, 3.0][..1].to_vec())
}

fn partial_failure(_h: &Handle<Species>, _n: i32, _x: &[f64]) -> (i32, Vec<f64>) {
    (6, vec![-1.0])
}

#[test]
fn conversions_answer_one_value_per_input() {
    let m = mixture(&["H2", "Air"]);
    // a routine that wrote fewer values leaves the rest of the fresh buffer at zero
    assert_eq!(m.moles_to_weights_vec(&[1.0, 3.0], first_only).unwrap(), vec![10.0, 0.0]);
    let mut w = [7.0, 8.0];
    m.weights_to_moles(&[1.0, 3.0], &mut w, first_only).unwrap();
    assert_eq!(w, [10.0, 8.0]);
    // what a failing routine wrote stays in the caller's buffer
    let mut w = [7.0, 8.0];
    let (code, _) = cea_error(m.moles_to_weights(&[1.0, 3.0], &mut w, partial_failure).unwrap_err());
    assert_eq!(code, 6);
    assert_eq!(w, [-1.0, 8.0]);
}

fn of_ratio(_h: &Handle<Species>, _n: i32, ox: &[f64], fuel: &[f64], ratio: f64) -> (i32, f64) {
    let o: f64 = ox.iter().sum();
    let f: f64 = fuel.iter().sum();
    (0, ratio * o / f)
}

fn weights(_h: &Handle<Species>, _n: i32, ox: &[f64], fuel: &[f64], of: f64) -> (i32, Vec<f64>) {
    (0, ox.iter().zip(fuel).map(|(o, f)| (of * o + f) / (of + 1.0)).collect())
}

#[test]
fn ratios_pass_oxidant_then_fuel() {
    let m = mixture(&["H2", "Air"]);
    let ox = [0.0, 4.0];
    let fuel = [2.0, 0.0];
    assert_eq!(m.chem_eq_ratio_to_of_ratio(&ox, &fuel, 1.0, of_ratio).unwrap(), 2.0);
    assert_eq!(m.weight_eq_ratio_to_of_ratio(&ox, &fuel, 0.5, of_ratio).unwrap(), 1.0);
    let e = m.chem_eq_ratio_to_of_ratio(&ox, &[1.0], 1.0, of_ratio).unwrap_err();
    assert_eq!(length_context(e), "chem_eq_ratio_to_of_ratio");
    assert_eq!(m.weights_from_of_ratio(&ox, &fuel, 1.0, weights).unwrap(), vec![1.0, 2.0]);
    let mut out = [0.0; 2];
    m.of_ratio_to_weights(&ox, &fuel, 3.0, &mut out, weights).unwrap();
    assert_eq!(out, [0.5, 3.0]);
    let mut short = [0.0; 1];
    let e = m.of_ratio_to_weights(&ox, &fuel, 3.0, &mut short, weights).unwrap_err();
    assert_eq!(length_context(e), "of_ratio_to_weights");
    let e = m.weights_from_of_ratio(&ox, &[1.0], 3.0, weights).unwrap_err();
    assert_eq!(length_context(e), "of_ratio_to_weights");
    let one = |_h: &Handle<Species>, _n: i32, _o: &[f64], _f: &[f64], _r: f64| (0, vec![0.25]);
    assert_eq!(m.weights_from_of_ratio(&ox, &fuel, 3.0, one).unwrap(), vec![0.25, 0.0]);
}

fn property(_h: &Handle<Species>, p: PropertyType, n: i32, w: &[f64], t: f64) -> (i32, f64) {
    if p == PropertyType::Temperature { (0, t) } else { (0, n as f64 + w[0]) }
}

fn property_multi(_h: &Handle<Species>, _p: PropertyType, n: i32, w: &[f64], tn: i32, t: &[f64]) -> (i32, f64) {
    assert_eq!(n, tn);
    (0, w.iter().zip(t).map(|(a, b)| a * b).sum())
}

fn property_tp(_h: &Handle<Species>, _p: PropertyType, _n: i32, _w: &[f64], t: f64, p: f64) -> (i32, f64) {
    (0, t * p)
}

fn property_tp_multi(_h: &Handle<Species>, _p: PropertyType, _n: i32, _w: &[f64], _tn: i32, t: &[f64], p: f64) -> (i32, f64) {
    (0, t.iter().sum::<f64>() + p)
}

#[test]
fn properties_of_a_mixture() {
    let m = mixture(&["H2", "Air"]);
    assert_eq!(m.calc_property(PropertyType::Temperature, &[1.0, 1.0], 300.0, property).unwrap(), 300.0);
    assert_eq!(m.calc_property(PropertyType::Enthalpy, &[1.5, 1.0], 300.0, property).unwrap(), 3.5);
    assert_eq!(
        m.calc_property_multitemp(PropertyType::Enthalpy, &[1.0, 2.0], &[10.0, 20.0], property_multi).unwrap(),
        50.0
    );
    let e = m.calc_property_multitemp(PropertyType::Enthalpy, &[1.0, 2.0], &[10.0], property_multi).unwrap_err();
    assert_eq!(length_context(e), "calc_property_multitemp");
    assert_eq!(m.calc_property_tp(PropertyType::Density, &[1.0], 2.0, 3.0, property_tp).unwrap(), 6.0);
    assert_eq!(
        m.calc_property_tp_multitemp(PropertyType::Density, &[1.0, 1.0], &[1.0, 2.0], 4.0, property_tp_multi).unwrap(),
        7.0
    );
    let e = m.calc_property_tp_multitemp(PropertyType::Density, &[1.0], &[1.0, 2.0], 4.0, property_tp_multi).unwrap_err();
    assert_eq!(length_context(e), "calc_property_tp_multitemp");
}

fn count(h: &Handle<Species>) -> (i32, i32) {
    (0, species(h).len() as i32)
}

fn name_len() -> (i32, i32) {
    (0, 5)
}

fn name_buf(h: &Handle<Species>, index: i32, stride: i32) -> (i32, Vec<u8>) {
    let mut b = vec![0u8; stride as usize];
    let name = species(h)[index as usize].as_bytes();
    b[..name.len()].copy_from_slice(name);
    (0, b)
}

fn names_buf(h: &Handle<Species>, n: i32, stride: i32) -> (i32, Vec<u8>) {
    let stride = stride as usize;
    let mut b = vec![0u8; n as usize * stride];
    for (i, s) in species(h).iter().enumerate() {
        b[i * stride..i * stride + s.len()].copy_from_slice(s.as_bytes());
    }
    (0, b)
}

#[test]
fn species_names_are_read_from_the_name_buffer() {
    let m = mixture(&["H2", "H2O", "N2"]);
    assert_eq!(m.num_species(count).unwrap(), 3);
    assert_eq!(m.species_name(1, name_len, name_buf).unwrap(), "H2O");
    assert_eq!(m.species_names(count, name_len, names_buf).unwrap(), vec!["H2", "H2O", "N2"]);
    let empty = mixture(&[]);
    assert_eq!(empty.species_names(count, name_len, names_buf).unwrap(), Vec::<String>::new());
    let (code, context) = cea_error(m.species_names(|_h: &Handle<Species>| (2, 0), name_len, names_buf).unwrap_err());
    assert_eq!((code, context.as_str()), (2, "cea_mixture_get_num_species"));
    let (code, context) = cea_error(m.species_names(count, || (6, 0), names_buf).unwrap_err());
    assert_eq!((code, context.as_str()), (6, "cea_species_name_len"));
    let (code, context) =
        cea_error(m.species_name(0, name_len, |_h: &Handle<Species>, _i: i32, _s: i32| (8, vec![])).unwrap_err());
    assert_eq!((code, context.as_str()), (8, "cea_mixture_get_species_name_buf"));
}

#[test]
fn destroying_a_mixture_leaves_it_null() {
    let mut m = mixture(&["H2"]);
    assert_eq!(m.destroy(|_s: Species| 0), Some(0));
    assert!(m.handle().is_null());
    assert_eq!(m.destroy(|_s: Species| 0), None);
}
