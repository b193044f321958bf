use rest_dftd3::legacy::{
    calc_dftd3_atm_rest_, damping_by_name, legacy_plan, same_text, widen_numbers, LegacyFault,
};
use rest_dftd3::param::Damping;

#[test]
fn zero_damping_names() {
    for name in ["zero", "d3zero", "d3(zero)", "d3"] {
        assert_eq!(damping_by_name(name), Some(Damping::Zero));
    }
}

#[test]
fn rational_damping_names() {
    for name in ["bj", "d3bj", "d3(bj)", "rational"] {
        assert_eq!(damping_by_name(name), Some(Damping::Rational));
    }
}

#[test]
fn other_damping_names_are_unknown() {
    for name in ["", "Zero", "BJ", "d3 ", "d3(BJ)", "mzero", "d3bjm", "rationa", "zero\0"] {
        assert_eq!(damping_by_name(name), None);
    }
}

#[test]
fn same_text_is_equality() {
    assert!(same_text("", ""));
    assert!(same_text("d3(bj)", "d3(bj)"));
    assert!(!same_text("d3", "d3bj"));
    assert!(!same_text("d3bj", "d3bJ"));
    assert!(same_text("\u{3c9}", "\u{3c9}"));
    assert!(!same_text("\u{3c9}", "\u{3c8}"));
}

#[test]
fn widened_numbers_follow_the_cast() {
    assert_eq!(widen_numbers(&[6, 1, 35]), vec![6usize, 1, 35]);
    assert_eq!(widen_numbers(&[-1, i32::MIN]), vec![-1i32 as usize, i32::MIN as usize]);
    assert_eq!(widen_numbers(&[]), Vec::<usize>::new());
}

#[test]
fn plan_switches_three_body_term_on() {
    let plan = calc_dftd3_atm_rest_(&[8, 1, 1], b"PW6B95", b"d3bj");
    assert_eq!(plan.natoms, 3);
    assert_eq!(plan.numbers, vec![8, 1, 1]);
    assert_eq!(plan.method, "PW6B95");
    assert_eq!(plan.damping, Damping::Rational);
    assert!(plan.atm);
    let plan = calc_dftd3_atm_rest_(&[], b"b3-lyp", b"d3(zero)");
    assert_eq!(plan.natoms, 0);
    assert_eq!(plan.damping, Damping::Zero);
    assert!(plan.atm);
}

#[test]
fn plan_tells_faults_apart() {
    match legacy_plan(&[1], &[0xff], b"d3") {
        Err(fault) => assert_eq!(fault, LegacyFault::MethodNotText),
        Ok(_) => panic!("a method that is not text must be refused"),
    }
    match legacy_plan(&[1], &[0xff], &[0xff]) {
        Err(fault) => assert_eq!(fault, LegacyFault::MethodNotText),
        Ok(_) => panic!("a method that is not text must be refused"),
    }
    match legacy_plan(&[1], b"PBE", &[0xc0]) {
        Err(fault) => assert_eq!(fault, LegacyFault::DampingNotText),
        Ok(_) => panic!("a damping name that is not text must be refused"),
    }
    match legacy_plan(&[1], b"PBE", b"d4") {
        Err(fault) => assert_eq!(fault, LegacyFault::UnknownDamping),
        Ok(_) => panic!("an unknown damping name must be refused"),
    }
    match legacy_plan(&[1, 1], b"PBE", b"rational") {
        Ok(plan) => {
            assert_eq!(plan.natoms, 2);
            assert_eq!(plan.method, "PBE");
            assert_eq!(plan.damping, Damping::Rational);
            assert!(plan.atm);
        }
        Err(_) => panic!("known names must be accepted"),
    }
}
