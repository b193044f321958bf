use rest_dftd3::error::DFTD3Error;
use rest_dftd3::gcp::DFTD3GCP;
use rest_dftd3::model::DFTD3Model;
use rest_dftd3::param::{DFTD3Param, Damping};
use rest_dftd3::structure::DFTD3Structure;

fn clear() -> DFTD3Error {
    DFTD3Error::new(1)
}

fn flagged(text: &[u8]) -> DFTD3Error {
    let mut error = DFTD3Error::new(1);
    error.observe(1, text.to_vec());
    error
}

fn water() -> DFTD3Structure {
    DFTD3Structure::new(3, &[8, 1, 1], &[0.0f64; 9], &[0.0f64; 9], &[false; 3], 40, clear())
}

#[test]
fn model_is_bound_to_its_structure() {
    let s = water();
    let m = DFTD3Model::new_f(&s, 41, clear()).unwrap();
    assert_eq!(m.get_c_ptr(), 41);
    assert_eq!(m.get_structure_ptr(), 40);
    let m = DFTD3Model::new(&s, 42, clear());
    assert_eq!(m.get_c_ptr(), 42);
    assert_eq!(m.get_structure_ptr(), 40);
    assert_eq!(m.release(), 42);
}

#[test]
fn model_creation_fails_on_flagged_sink() {
    let s = water();
    match DFTD3Model::new_f(&s, 0, flagged(b"No model\0")) {
        Err(e) => assert_eq!(e.get_message(), "No model"),
        Ok(_) => panic!("a flagged sink must fail the creation"),
    }
}

#[test]
fn model_cutoff_follows_the_sink() {
    let m = DFTD3Model::new(&water(), 42, clear());
    assert!(m.set_realspace_cutoff_f(clear()).is_ok());
    m.set_realspace_cutoff(clear());
    match m.set_realspace_cutoff_f(flagged(b"Negative cutoff\0")) {
        Err(e) => assert_eq!(e.get_message(), "Negative cutoff"),
        Ok(()) => panic!("a flagged sink must fail the call"),
    }
    assert_eq!(m.get_c_ptr(), 42);
}

#[test]
fn explicit_parameters_record_their_damping() {
    let p = DFTD3Param::new_zero_damping_f(1, clear()).unwrap();
    assert_eq!((p.get_c_ptr(), p.get_damping()), (1, Damping::Zero));
    let p = DFTD3Param::new_rational_damping_f(2, clear()).unwrap();
    assert_eq!((p.get_c_ptr(), p.get_damping()), (2, Damping::Rational));
    let p = DFTD3Param::new_mzero_damping_f(3, clear()).unwrap();
    assert_eq!((p.get_c_ptr(), p.get_damping()), (3, Damping::MZero));
    let p = DFTD3Param::new_mrational_damping_f(4, clear()).unwrap();
    assert_eq!((p.get_c_ptr(), p.get_damping()), (4, Damping::MRational));
    let p = DFTD3Param::new_optimizedpower_damping_f(5, clear()).unwrap();
    assert_eq!((p.get_c_ptr(), p.get_damping()), (5, Damping::OptimizedPower));
    assert_eq!(p.release(), 5);
}

#[test]
fn strict_explicit_parameters_record_their_damping() {
    assert_eq!(DFTD3Param::new_zero_damping(1, clear()).get_damping(), Damping::Zero);
    assert_eq!(DFTD3Param::new_rational_damping(2, clear()).get_damping(), Damping::Rational);
    assert_eq!(DFTD3Param::new_mzero_damping(3, clear()).get_damping(), Damping::MZero);
    assert_eq!(DFTD3Param::new_mrational_damping(4, clear()).get_damping(), Damping::MRational);
    let p = DFTD3Param::new_optimizedpower_damping(5, clear());
    assert_eq!((p.get_c_ptr(), p.get_damping()), (5, Damping::OptimizedPower));
}

#[test]
fn explicit_parameters_fail_on_flagged_sink() {
    assert!(DFTD3Param::new_zero_damping_f(1, flagged(b"x\0")).is_err());
    assert!(DFTD3Param::new_rational_damping_f(1, flagged(b"x\0")).is_err());
    assert!(DFTD3Param::new_mzero_damping_f(1, flagged(b"x\0")).is_err());
    assert!(DFTD3Param::new_mrational_damping_f(1, flagged(b"x\0")).is_err());
    match DFTD3Param::new_optimizedpower_damping_f(1, flagged(b"Bad coefficient\0")) {
        Err(e) => assert_eq!(e.get_message(), "Bad coefficient"),
        Ok(_) => panic!("a flagged sink must fail the creation"),
    }
}

#[test]
fn coefficient_counts_follow_the_variant() {
    assert_eq!(Damping::Zero.coefficient_count(), 6);
    assert_eq!(Damping::Rational.coefficient_count(), 6);
    assert_eq!(Damping::MRational.coefficient_count(), 6);
    assert_eq!(Damping::MZero.coefficient_count(), 7);
    assert_eq!(Damping::OptimizedPower.coefficient_count(), 7);
}

#[test]
fn lookup_request_terminates_the_name() {
    match DFTD3Param::load_request("PW6B95", true) {
        Ok(call) => {
            assert_eq!(call.method, b"PW6B95\0".to_vec());
            assert!(call.atm);
        }
        Err(_) => panic!("a plain name must be accepted"),
    }
    match DFTD3Param::load_request("B3\0LYP", false) {
        Err(DFTD3Error::Rust(msg)) => assert_eq!(msg, "Invalid name, it contains a NUL byte"),
        _ => panic!("a name with a NUL byte must fail locally"),
    }
}

#[test]
fn lookups_record_their_damping() {
    let p = DFTD3Param::load_zero_damping_f("B3LYP", false, 1, clear()).unwrap();
    assert_eq!((p.get_c_ptr(), p.get_damping()), (1, Damping::Zero));
    let p = DFTD3Param::load_rational_damping_f("B3LYP", true, 2, clear()).unwrap();
    assert_eq!((p.get_c_ptr(), p.get_damping()), (2, Damping::Rational));
    let p = DFTD3Param::load_mzero_damping_f("B3LYP", false, 3, clear()).unwrap();
    assert_eq!((p.get_c_ptr(), p.get_damping()), (3, Damping::MZero));
    let p = DFTD3Param::load_mrational_damping_f("B3LYP", true, 4, clear()).unwrap();
    assert_eq!((p.get_c_ptr(), p.get_damping()), (4, Damping::MRational));
    let p = DFTD3Param::load_optimizedpower_damping_f("B3LYP", false, 5, clear()).unwrap();
    assert_eq!((p.get_c_ptr(), p.get_damping()), (5, Damping::OptimizedPower));
}

#[test]
fn strict_lookups_record_their_damping() {
    assert_eq!(DFTD3Param::load_zero_damping("B3LYP", false, 1, clear()).get_damping(), Damping::Zero);
    assert_eq!(
        DFTD3Param::load_rational_damping("B3LYP", false, 1, clear()).get_damping(),
        Damping::Rational
    );
    assert_eq!(DFTD3Param::load_mzero_damping("B3LYP", false, 1, clear()).get_damping(), Damping::MZero);
    assert_eq!(
        DFTD3Param::load_mrational_damping("B3LYP", false, 1, clear()).get_damping(),
        Damping::MRational
    );
    let p = DFTD3Param::load_optimizedpower_damping("B3LYP", false, 8, clear());
    assert_eq!((p.get_c_ptr(), p.get_damping()), (8, Damping::OptimizedPower));
}

#[test]
fn unknown_method_is_a_native_error() {
    let text = b"No entry for 'Hello' present\0";
    let results = [
        DFTD3Param::load_zero_damping_f("Hello", false, 0, flagged(text)),
        DFTD3Param::load_rational_damping_f("Hello", false, 0, flagged(text)),
        DFTD3Param::load_mzero_damping_f("Hello", false, 0, flagged(text)),
        DFTD3Param::load_mrational_damping_f("Hello", false, 0, flagged(text)),
        DFTD3Param::load_optimizedpower_damping_f("Hello", false, 0, flagged(text)),
    ];
    for r in results {
        match r {
            Err(DFTD3Error::C(sink)) => {
                assert_eq!(sink.status, 1);
                let e = DFTD3Error::C(sink);
                assert!(e.check());
                assert_eq!(e.get_message(), "No entry for 'Hello' present");
            }
            _ => panic!("an unknown method must give the engine's error"),
        }
    }
}

#[test]
fn lookup_with_nul_in_name_ignores_the_engine() {
    match DFTD3Param::load_rational_damping_f("PW\06B95", false, 11, clear()) {
        Err(DFTD3Error::Rust(msg)) => assert_eq!(msg, "Invalid name, it contains a NUL byte"),
        _ => panic!("a name with a NUL byte must fail locally"),
    }
    match DFTD3Param::load_zero_damping_f("\0", true, 11, flagged(b"engine\0")) {
        Err(DFTD3Error::Rust(msg)) => assert_eq!(msg, "Invalid name, it contains a NUL byte"),
        _ => panic!("a name with a NUL byte must fail locally"),
    }
}

#[test]
fn counterpoise_request_carries_structure_and_names() {
    let s = water();
    match DFTD3GCP::load_request(&s, "b3lyp", "def2-SVP") {
        Ok(call) => {
            assert_eq!(call.structure, 40);
            assert_eq!(call.method, b"b3lyp\0".to_vec());
            assert_eq!(call.basis, b"def2-SVP\0".to_vec());
        }
        Err(_) => panic!("plain names must be accepted"),
    }
    assert!(DFTD3GCP::load_request(&s, "b3\0lyp", "def2-SVP").is_err());
    match DFTD3GCP::load_request(&s, "b3lyp", "def2\0SVP") {
        Err(DFTD3Error::Rust(msg)) => assert_eq!(msg, "Invalid name, it contains a NUL byte"),
        _ => panic!("a name with a NUL byte must fail locally"),
    }
}

#[test]
fn counterpoise_parameters_are_bound_to_their_structure() {
    let s = water();
    let g = DFTD3GCP::load_gcp_param_f(&s, "b3lyp", "def2-SVP", 50, clear()).unwrap();
    assert_eq!(g.get_c_ptr(), 50);
    assert_eq!(g.get_structure_ptr(), 40);
    let g = DFTD3GCP::load_gcp_param(&s, "b3lyp", "def2-SVP", 51, clear());
    assert_eq!(g.get_c_ptr(), 51);
    assert_eq!(g.get_structure_ptr(), 40);
    assert!(g.set_realspace_cutoff_f(clear()).is_ok());
    g.set_realspace_cutoff(clear());
    assert!(g.set_realspace_cutoff_f(flagged(b"Negative cutoff\0")).is_err());
    assert_eq!(g.release(), 51);
}

#[test]
fn counterpoise_lookup_failures() {
    let s = water();
    match DFTD3GCP::load_gcp_param_f(&s, "hello", "world", 0, flagged(b"Unknown basis\0")) {
        Err(e) => assert_eq!(e.get_message(), "Unknown basis"),
        Ok(_) => panic!("an unknown combination must give the engine's error"),
    }
    match DFTD3GCP::load_gcp_param_f(&s, "b3lyp", "\0", 0, flagged(b"Unknown basis\0")) {
        Err(DFTD3Error::Rust(msg)) => assert_eq!(msg, "Invalid name, it contains a NUL byte"),
        _ => panic!("a name with a NUL byte must fail locally"),
    }
}

#[test]
fn test_dftd3_error() {
    let mut error = DFTD3Error::new(1);
    println!("Error check   : {}", error.check());
    println!("Error message : {}", error.get_message());
    assert!(!error.check());
    assert_eq!(error.get_message(), "");
    // the engine is asked for "Hello", which it does not know
    assert!(DFTD3Param::load_request("Hello", false).is_ok());
    error.observe(1, b"No entry for 'Hello' present\0".to_vec());
    println!("Error check   : {}", error.check());
    println!("Error message : {}", error.get_message());
    assert!(error.check());
    assert!(!error.get_message().is_empty());
    // the engine is asked for "B3LYP" with the same sink, which stays flagged
    assert!(DFTD3Param::load_request("B3LYP", false).is_ok());
    error.observe(1, b"No entry for 'Hello' present\0".to_vec());
    println!("Error check   : {}", error.check());
    println!("Error message : {}", error.get_message());
    assert!(error.check());
}
