use mhde::key::from_bits;
use mhde::objective::check_terms;
use mhde::MhdeError;

fn keys(values: &[f64]) -> Vec<i64> {
    values.iter().map(|x| from_bits(x.to_bits())).collect()
}

#[test]
fn terms_in_their_domain_are_counted() {
    assert_eq!(check_terms(&keys(&[0.1, 0.02, 3.0]), &keys(&[20.0, 4.0, 4.0])), Ok(3));
    assert_eq!(check_terms(&keys(&[]), &keys(&[])), Ok(0));
}

#[test]
fn a_volume_of_zero_is_in_the_domain() {
    assert_eq!(check_terms(&keys(&[0.5, 0.5]), &keys(&[0.0, -0.0])), Ok(2));
}

#[test]
fn a_density_that_is_not_positive_is_refused() {
    assert_eq!(check_terms(&keys(&[0.1, 0.0]), &keys(&[1.0, 1.0])), Err(MhdeError::DomainError));
    assert_eq!(check_terms(&keys(&[-0.0]), &keys(&[1.0])), Err(MhdeError::DomainError));
    assert_eq!(check_terms(&keys(&[-0.3, 0.1]), &keys(&[1.0, 1.0])), Err(MhdeError::DomainError));
    assert_eq!(check_terms(&keys(&[f64::NAN]), &keys(&[1.0])), Err(MhdeError::DomainError));
}

#[test]
fn a_negative_volume_is_refused() {
    assert_eq!(check_terms(&keys(&[0.1, 0.2]), &keys(&[1.0, -1.0e-9])), Err(MhdeError::DomainError));
    assert_eq!(check_terms(&keys(&[0.1]), &keys(&[f64::NAN])), Err(MhdeError::DomainError));
    assert_eq!(
        check_terms(&keys(&[0.1]), &keys(&[f64::NEG_INFINITY])),
        Err(MhdeError::DomainError)
    );
}

#[test]
fn terms_that_do_not_pair_up_are_refused() {
    assert_eq!(check_terms(&keys(&[0.1, 0.2]), &keys(&[1.0])), Err(MhdeError::DomainError));
    assert_eq!(check_terms(&keys(&[]), &keys(&[1.0])), Err(MhdeError::DomainError));
}
