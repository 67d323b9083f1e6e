use mhde::MhdeError;

fn kinds() -> Vec<MhdeError> {
    vec![
        MhdeError::InsufficientSample,
        MhdeError::InsufficientPoints,
        MhdeError::DomainError,
        MhdeError::NumericalInstability,
        MhdeError::InvalidConfiguration,
    ]
}

#[test]
fn every_kind_has_its_own_message() {
    let all = kinds();
    for (i, a) in all.iter().enumerate() {
        assert!(!a.message().is_empty());
        for (j, b) in all.iter().enumerate() {
            assert_eq!(a == b, i == j);
            assert_eq!(a.message() == b.message(), i == j);
        }
    }
}

#[test]
fn the_messages() {
    assert_eq!(MhdeError::InsufficientSample.message(), "the sample holds too few observations");
    assert_eq!(
        MhdeError::InsufficientPoints.message(),
        "the nearest-neighbour index holds too few points"
    );
    assert_eq!(
        MhdeError::DomainError.message(),
        "a density is not positive or a volume is negative"
    );
    assert_eq!(MhdeError::NumericalInstability.message(), "a model parameter left its domain");
    assert_eq!(
        MhdeError::InvalidConfiguration.message(),
        "the parameters of the sample generator are malformed"
    );
}
