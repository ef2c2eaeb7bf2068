// The lifecycle of CEA handles: a create call fills a null handle, a destroy call empties it.
// The library itself is not linked into these tests; the calls below stand in for
// `cea_shock_solution_create` / `cea_detonation_solution_create` and their destroy
// counterparts, answering as the C library does on success.

use cea::handle::Handle;

#[derive(Debug, Clone, Copy, PartialEq, Eq)]
struct ShockSolution(u32);

#[derive(Debug, Clone, Copy, PartialEq, Eq)]
struct DetonationSolution(u32);

fn assert_ok(err: i32, what: &str) {
    assert_eq!(err, 0, "{what} failed: err={}", err);
}

#[test]
fn can_create_and_destroy_shock_solution() {
    let (err, mut soln) = Handle::create(|| (0, Some(ShockSolution(1))));
    assert_ok(err, "cea_shock_solution_create");
    assert!(!soln.is_null(), "shock solution handle should not be null after create");
    let destroyed = soln.destroy(|_h: ShockSolution| 0);
    assert_ok(destroyed.unwrap_or(-1), "cea_shock_solution_destroy");
    assert!(soln.is_null(), "shock solution handle should be null after destroy");
}

#[test]
fn can_create_and_destroy_detonation_solution() {
    let (err, mut soln) = Handle::create(|| (0, Some(DetonationSolution(7))));
    assert_ok(err, "cea_detonation_solution_create");
    assert!(!soln.is_null(), "detonation solution handle should not be null after create");
    let destroyed = soln.destroy(|_h: DetonationSolution| 0);
    assert_ok(destroyed.unwrap_or(-1), "cea_detonation_solution_destroy");
    assert!(soln.is_null(), "detonation solution handle should be null after destroy");
}

#[test]
fn destroying_a_null_handle_calls_nothing() {
    let mut h: Handle<u8> = Handle::null();
    assert!(h.is_null());
    assert_eq!(h.destroy(|_h: u8| panic!("must not be called")), None);
    assert!(h.is_null());
}

#[test]
fn handle_keeps_what_create_wrote() {
    let (err, h) = Handle::create(|| (3, None::<u8>));
    assert_eq!(err, 3);
    assert!(h.is_null());
    let (err, h) = Handle::create(|| (0, Some(42u8)));
    assert_eq!(err, 0);
    assert_eq!(h.raw(), Some(&42u8));
}

#[test]
fn from_reply_checks_the_status() {
    let ok = Handle::from_reply((0, Some(5u8)), "cea_x_create").unwrap();
    assert_eq!(ok.raw(), Some(&5u8));
    match Handle::<u8>::from_reply((12, None), "cea_x_create") {
        Err(cea::Error::Cea { code, context }) => {
            assert_eq!(code, 12);
            assert_eq!(context, "cea_x_create");
        }
        _ => panic!("expected a CEA error"),
    }
}
