use optimization_problems::{is_legal_in_domain, Coord};

fn c(x: f64) -> Coord {
    Coord::from_bits(x.to_bits())
}

fn position(xs: &[f64]) -> Vec<Coord> {
    xs.iter().map(|&x| c(x)).collect()
}

fn square_domain() -> Vec<(Coord, Coord)> {
    vec![(c(-5.0), c(5.0)), (c(-5.0), c(5.0))]
}

#[test]
fn square_scenario() {
    let domain = square_domain();
    assert!(is_legal_in_domain(2, &domain, &position(&[0.0, 0.0])));
    assert!(!is_legal_in_domain(2, &domain, &position(&[5.0, 0.0])));
    assert!(!is_legal_in_domain(2, &domain, &position(&[0.0, 0.0, 0.0])));
    assert!(!is_legal_in_domain(2, &domain, &position(&[-10.0, 0.0])));
}

#[test]
fn wrong_length_is_illegal() {
    let domain = square_domain();
    assert!(!is_legal_in_domain(2, &domain, &position(&[])));
    assert!(!is_legal_in_domain(2, &domain, &position(&[1.0])));
    assert!(!is_legal_in_domain(2, &domain, &position(&[1.0, 1.0, 1.0])));
}

#[test]
fn lower_boundary_is_illegal() {
    let domain = square_domain();
    assert!(!is_legal_in_domain(2, &domain, &position(&[0.0, -5.0])));
    assert!(!is_legal_in_domain(2, &domain, &position(&[-5.0, -5.0])));
}

#[test]
fn upper_boundary_is_illegal() {
    let domain = square_domain();
    assert!(!is_legal_in_domain(2, &domain, &position(&[0.0, 5.0])));
}

#[test]
fn interior_is_legal() {
    let domain = square_domain();
    assert!(is_legal_in_domain(2, &domain, &position(&[4.999, -4.999])));
    assert!(is_legal_in_domain(2, &domain, &position(&[-0.0, 3.25])));
}

#[test]
fn nan_is_illegal() {
    let domain = square_domain();
    assert!(!is_legal_in_domain(2, &domain, &position(&[f64::NAN, 0.0])));
}

#[test]
fn infinite_bounds_admit_finite_values() {
    let domain = vec![(c(f64::NEG_INFINITY), c(f64::INFINITY))];
    assert!(is_legal_in_domain(1, &domain, &position(&[1e300])));
    assert!(!is_legal_in_domain(1, &domain, &position(&[f64::INFINITY])));
}

#[test]
fn short_domain_checks_only_paired_coordinates() {
    let domain = vec![(c(0.0), c(1.0))];
    assert!(is_legal_in_domain(2, &domain, &position(&[0.5, 100.0])));
    assert!(!is_legal_in_domain(2, &domain, &position(&[1.5, 0.5])));
}
