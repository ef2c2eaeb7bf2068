use cea::args::{
    check_c_strings, check_len_match, read_c_string, read_c_strings, species_name_stride,
    stride_from_reply, to_cea_int,
};
use cea::kinds::{init, set_log_level, LogLevel, PropertyType};
use cea::{check, invalid_input, Error, CEA_SUCCESS};

fn context_of(e: &Error) -> &str {
    match e {
        Error::Cea { context, .. }
        | Error::InvalidLength { context }
        | Error::Nul { context }
        | Error::InvalidInput { context, .. }
        | Error::ThreadPanic { context } => context,
    }
}

#[test]
fn check_passes_success_and_names_the_routine_otherwise() {
    assert_eq!(CEA_SUCCESS, 0);
    assert!(check(0, "cea_init").is_ok());
    match check(-3, "cea_init") {
        Err(Error::Cea { code, context }) => {
            assert_eq!(code, -3);
            assert_eq!(context, "cea_init");
        }
        other => panic!("unexpected {:?}", other),
    }
}

#[test]
fn invalid_input_keeps_both_texts() {
    match invalid_input("EquilibriumBuilder::build", "reactants are required") {
        Error::InvalidInput { context, message } => {
            assert_eq!(context, "EquilibriumBuilder::build");
            assert_eq!(message, "reactants are required");
        }
        other => panic!("unexpected {:?}", other),
    }
}

#[test]
fn to_cea_int_accepts_up_to_i32_max() {
    assert_eq!(to_cea_int(0, "x").unwrap(), 0);
    assert_eq!(to_cea_int(20, "x").unwrap(), 20);
    assert_eq!(to_cea_int(i32::MAX as usize, "x").unwrap(), i32::MAX);
    let e = to_cea_int(i32::MAX as usize + 1, "species_amounts").unwrap_err();
    assert!(matches!(e, Error::InvalidLength { .. }));
    assert_eq!(context_of(&e), "species_amounts");
}

#[test]
fn check_len_match_refuses_different_lengths() {
    assert!(check_len_match(3, 3, "moles_to_weights").is_ok());
    let e = check_len_match(2, 3, "moles_to_weights").unwrap_err();
    assert!(matches!(e, Error::InvalidLength { .. }));
    assert_eq!(context_of(&e), "moles_to_weights");
}

#[test]
fn c_strings_refuse_nul_bytes() {
    assert!(check_c_strings(&["H2", "Air"], "Mixture::new species").is_ok());
    assert!(check_c_strings(&[], "Mixture::new species").is_ok());
    let e = check_c_strings(&["H2", "A\0ir"], "Mixture::new species").unwrap_err();
    assert!(matches!(e, Error::Nul { .. }));
    assert_eq!(context_of(&e), "Mixture::new species");
}

#[test]
fn stride_is_longest_name_plus_nul() {
    assert_eq!(stride_from_reply((0, 15)).unwrap(), 16);
    assert_eq!(stride_from_reply((0, -1)).unwrap(), 0);
    assert_eq!(stride_from_reply((0, i32::MAX)).unwrap(), i32::MAX as usize + 1);
    let e = stride_from_reply((0, -2)).unwrap_err();
    assert_eq!(context_of(&e), "species_name_len");
    match stride_from_reply((4, 15)).unwrap_err() {
        Error::Cea { code, context } => {
            assert_eq!(code, 4);
            assert_eq!(context, "cea_species_name_len");
        }
        other => panic!("unexpected {:?}", other),
    }
    assert_eq!(species_name_stride(|| (0, 23)).unwrap(), 24);
}

#[test]
fn names_are_read_up_to_their_nul() {
    let mut buffer = vec![0u8; 12];
    buffer[..2].copy_from_slice(b"H2");
    buffer[4..7].copy_from_slice(b"H2O");
    buffer[8..12].copy_from_slice(b"N2XY");
    assert_eq!(read_c_string(&buffer, 0), "H2");
    assert_eq!(read_c_string(&buffer, 4), "H2O");
    assert_eq!(read_c_string(&buffer, 5), "2O");
    // no NUL before the end of the buffer: the name ends with the buffer
    assert_eq!(read_c_string(&buffer, 8), "N2XY");
    assert_eq!(read_c_strings(&buffer, 3, 4), vec!["H2", "H2O", "N2XY"]);
    // names past the end of the buffer are empty
    assert_eq!(read_c_strings(&buffer, 4, 4), vec!["H2", "H2O", "N2XY", ""]);
}

#[test]
fn a_name_that_fills_its_slot_runs_on_into_the_next() {
    let mut buffer = vec![0u8; 8];
    buffer[..4].copy_from_slice(b"ABCD");
    buffer[4..6].copy_from_slice(b"EF");
    assert_eq!(read_c_strings(&buffer, 2, 4), vec!["ABCDEF", "EF"]);
}

#[test]
fn invalid_utf8_names_are_decoded_lossily() {
    let buffer = [b'O', 0xff, 0u8, 0u8];
    assert_eq!(read_c_string(&buffer, 0), "O\u{fffd}");
    assert!(!read_c_string(&[0xc3, 0xff, 0x80], 0).contains('\0'));
}

#[test]
fn init_and_log_level_check_the_status() {
    assert!(init(|| 0).is_ok());
    match init(|| 9) {
        Err(Error::Cea { code, context }) => {
            assert_eq!(code, 9);
            assert_eq!(context, "cea_init");
        }
        other => panic!("unexpected {:?}", other),
    }
    assert!(set_log_level(LogLevel::Off, |l| if l == LogLevel::Off { 0 } else { 1 }).is_ok());
    match set_log_level(LogLevel::Debug, |_| 2) {
        Err(Error::Cea { code, context }) => {
            assert_eq!(code, 2);
            assert_eq!(context, "cea_set_log_level");
        }
        other => panic!("unexpected {:?}", other),
    }
}

#[test]
fn transport_properties_are_the_last_five() {
    assert!(!PropertyType::Temperature.is_transport());
    assert!(!PropertyType::EquilibriumCv.is_transport());
    assert!(PropertyType::Viscosity.is_transport());
    assert!(PropertyType::FrozenConductivity.is_transport());
    assert!(PropertyType::EquilibriumConductivity.is_transport());
    assert!(PropertyType::FrozenPrandtl.is_transport());
    assert!(PropertyType::EquilibriumPrandtl.is_transport());
}
