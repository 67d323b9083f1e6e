use linfa_nn::distance::L1Dist;
use linfa_nn::{BallTree, NearestNeighbour};
use mhde::balls::{calculate_balls, partition, NEIGHBOURS};
use mhde::key::{from_bits, to_bits};
use mhde::model::CauchyParams;
use mhde::objective::check_terms;
use mhde::summary::min_median_max;
use mhde::training::{Action, LoopState, Phase, TrainingConfig};
use mhde::MhdeError;
use ndarray::{arr1, Array};
use rand::distributions::Distribution;
use rand_chacha::ChaCha8Rng;
use rand_core::SeedableRng;
use statrs::distribution::Cauchy;
use std::f64::consts::PI;

fn key(x: f64) -> i64 {
    from_bits(x.to_bits())
}

fn number(k: i64) -> f64 {
    f64::from_bits(to_bits(k))
}

fn keys(values: &[f64]) -> Vec<i64> {
    values.iter().map(|x| key(*x)).collect()
}

fn generate(loc: f64, scale: f64, num: usize, seed: u64) -> Result<Vec<f64>, MhdeError> {
    CauchyParams { loc: key(loc), scale: key(scale) }.check_generator()?;
    let mut rng = ChaCha8Rng::seed_from_u64(seed);
    let dist = Cauchy::new(loc, scale).unwrap();
    Ok((0..num).map(|_| dist.sample(&mut rng)).collect())
}

fn ball_volumes(sample: &[f64], split: bool) -> Result<(Vec<f64>, Vec<f64>), MhdeError> {
    let plan = partition(sample.len(), split)?;
    let index = &sample[plan.index_start..plan.index_end];
    let batch = Array::from_shape_vec([index.len(), 1], index.to_vec()).unwrap();
    let tree = BallTree::new().from_batch(&batch, L1Dist).unwrap();
    let found: Vec<Vec<usize>> = sample[plan.query_start..plan.query_end]
        .iter()
        .map(|pt| {
            let near = tree.k_nearest(arr1(&[*pt]).view(), NEIGHBOURS).unwrap();
            near.into_iter().map(|(_, at)| at).collect()
        })
        .collect();
    let balls = calculate_balls(sample.len(), split, &found)?;
    let points = balls.iter().map(|b| sample[b.point]).collect();
    let volumes = balls.iter().map(|b| 2.0 * (sample[b.point] - sample[b.neighbour]).abs()).collect();
    Ok((points, volumes))
}

fn start(sample: &[f64]) -> Result<(f64, f64), MhdeError> {
    let s = min_median_max(&keys(sample))?;
    let median = if s.lower == s.upper {
        number(s.lower)
    } else {
        (number(s.lower) + number(s.upper)) / 2.0
    };
    Ok((median, (number(s.max) - number(s.min)) / (sample.len() as f64)))
}

fn pdf(loc: f64, scale: f64, points: &[f64]) -> Vec<f64> {
    points
        .iter()
        .map(|x| {
            let z = (loc - x) / scale;
            1.0 / ((z * z + 1.0) * scale * PI)
        })
        .collect()
}

/// The objective in its distance form and its gradient by location and scale.
fn objective(
    loc: f64,
    scale: f64,
    points: &[f64],
    volumes: &[f64],
) -> Result<(f64, [f64; 2]), MhdeError> {
    CauchyParams { loc: key(loc), scale: key(scale) }.check_model()?;
    let densities = pdf(loc, scale, points);
    let n = check_terms(&keys(&densities), &keys(volumes))?;
    let factor = -2.0 / ((n as f64) * PI).sqrt();
    let mut sum = 0.0;
    let mut by_loc = 0.0;
    let mut by_scale = 0.0;
    for i in 0..n {
        let root = (densities[i] * volumes[i]).sqrt();
        let z = (points[i] - loc) / scale;
        sum += root;
        by_loc += 0.5 * root * (2.0 * z / (scale * (1.0 + z * z)));
        by_scale += 0.5 * root * ((z * z - 1.0) / (scale * (1.0 + z * z)));
    }
    Ok((factor * sum + 1.0, [factor * by_loc, factor * by_scale]))
}

struct Fit {
    state: LoopState,
    loc: f64,
    scale: f64,
    losses: Vec<f64>,
}

/// Fits a Cauchy model to the sample with Adam steps.
fn fit(sample: &[f64], split: bool, config: &TrainingConfig) -> Result<Fit, MhdeError> {
    let (points, volumes) = ball_volumes(sample, split)?;
    let (loc, scale) = start(sample)?;
    let rate = number(config.learning_rate);
    let beta1 = number(config.optimizer_settings.beta1);
    let beta2 = number(config.optimizer_settings.beta2);
    let eps = number(config.optimizer_settings.epsilon);
    let mut params = [loc, scale];
    let mut first = [0.0; 2];
    let mut second = [0.0; 2];
    let mut losses = Vec::new();
    let mut state = LoopState::start(config);
    while state.is_running() {
        let (loss, grads) = objective(params[0], params[1], &points, &volumes)?;
        losses.push(loss);
        let (next, action) = state.advance(config, &keys(&grads));
        if action == Action::Update {
            let t = (next.steps()) as i32;
            for i in 0..2 {
                first[i] = beta1 * first[i] + (1.0 - beta1) * grads[i];
                second[i] = beta2 * second[i] + (1.0 - beta2) * grads[i] * grads[i];
                let m = first[i] / (1.0 - beta1.powi(t));
                let v = second[i] / (1.0 - beta2.powi(t));
                params[i] -= rate * m / (v.sqrt() + eps);
            }
        }
        state = next;
    }
    Ok(Fit { state, loc: params[0], scale: params[1], losses })
}

#[test]
fn cauchy_fit_converges_near_the_generating_parameters() {
    let sample = generate(5.0, 2.0, 1000, 42).unwrap();
    assert_eq!(sample.len(), 1000);
    let config = TrainingConfig::new();
    let fit = fit(&sample, false, &config).unwrap();
    assert_eq!(fit.state.phase, Phase::Converged);
    assert!(fit.state.ix <= config.num_runs);
    assert_eq!(fit.losses.len(), fit.state.ix);
    assert!((fit.loc - 5.0).abs() < 0.5, "loc {}", fit.loc);
    assert!((fit.scale - 2.0).abs() < 0.5, "scale {}", fit.scale);
}

#[test]
fn cauchy_fit_on_a_split_sample_converges_too() {
    let sample = generate(5.0, 2.0, 1000, 42).unwrap();
    let fit = fit(&sample, true, &TrainingConfig::new()).unwrap();
    assert_eq!(fit.state.phase, Phase::Converged);
    assert!((fit.loc - 5.0).abs() < 0.5, "loc {}", fit.loc);
    assert!((fit.scale - 2.0).abs() < 0.5, "scale {}", fit.scale);
}

#[test]
fn cauchy_fit_returns_the_parameters_at_which_the_gradient_vanished() {
    let sample = generate(5.0, 2.0, 1000, 42).unwrap();
    let config = TrainingConfig::new();
    let fit = fit(&sample, false, &config).unwrap();
    let (points, volumes) = ball_volumes(&sample, false).unwrap();
    let (loss, grads) = objective(fit.loc, fit.scale, &points, &volumes).unwrap();
    let eps = number(config.convergence_epsilon);
    assert!(grads[0].abs() < eps && grads[1].abs() < eps);
    assert_eq!(loss.to_bits(), fit.losses[fit.losses.len() - 1].to_bits());
    assert_eq!(fit.state.steps(), fit.state.ix - 1);
}

#[test]
fn cauchy_fit_is_the_same_on_every_run() {
    let first = fit(&generate(5.0, 2.0, 1000, 42).unwrap(), false, &TrainingConfig::new()).unwrap();
    let second = fit(&generate(5.0, 2.0, 1000, 42).unwrap(), false, &TrainingConfig::new()).unwrap();
    assert_eq!(first.state, second.state);
    assert_eq!(first.loc.to_bits(), second.loc.to_bits());
    assert_eq!(first.scale.to_bits(), second.scale.to_bits());
}

#[test]
fn cauchy_fit_stops_at_a_low_cap() {
    let sample = generate(5.0, 2.0, 1000, 42).unwrap();
    let mut config = TrainingConfig::new();
    config.num_runs = 20;
    let fit = fit(&sample, false, &config).unwrap();
    assert_eq!(fit.state, LoopState { phase: Phase::Exhausted, ix: 20 });
    assert_eq!(fit.state.steps(), 20);
    assert_eq!(fit.losses.len(), 20);
}

#[test]
fn cauchy_loss_falls_over_most_steps() {
    let sample = generate(5.0, 2.0, 1000, 42).unwrap();
    let fit = fit(&sample, false, &TrainingConfig::new()).unwrap();
    let steps = fit.losses.len() - 1;
    let rises = fit.losses.windows(2).filter(|w| w[1] > w[0] + 1.0e-9).count();
    assert!(2 * rises < steps, "{} rises in {} steps", rises, steps);
    assert!(fit.losses[steps] < fit.losses[0]);
    assert!(fit.losses.iter().all(|loss| *loss <= 1.0));
}

#[test]
fn cauchy_start_is_median_and_range_over_count() {
    assert_eq!(start(&[5.0, 1.0, 3.0, 9.0]), Ok((4.0, 2.0)));
    assert_eq!(start(&[7.0, -2.0, 3.5]), Ok((3.5, 3.0)));
    assert_eq!(start(&[]), Err(MhdeError::InsufficientSample));
}

#[test]
fn cauchy_density_at_the_location() {
    let at = pdf(5.0, 2.0, &[5.0, 7.0, 3.0]);
    assert_eq!(at[0], 1.0 / (2.0 * PI));
    assert_eq!(at[1], 1.0 / (4.0 * PI));
    assert_eq!(at[1], at[2]);
}

#[test]
fn cauchy_objective_of_one_term() {
    // One query point at the location, with volume pi * scale: the term is
    // sqrt(1) and the factor -2 / sqrt(pi).
    let (loss, grads) = objective(5.0, 2.0, &[5.0], &[2.0 * PI]).unwrap();
    assert!((loss - (1.0 - 2.0 / PI.sqrt())).abs() < 1.0e-15);
    assert_eq!(grads[0], 0.0);
    assert!((grads[1] - (0.5 / PI.sqrt())).abs() < 1.0e-15);
}

#[test]
fn cauchy_objective_refuses_a_scale_out_of_the_domain() {
    let points = [1.0, 2.0];
    let volumes = [2.0, 2.0];
    assert_eq!(objective(0.0, 0.0, &points, &volumes), Err(MhdeError::NumericalInstability));
    assert_eq!(objective(0.0, -1.0, &points, &volumes), Err(MhdeError::NumericalInstability));
    assert_eq!(objective(0.0, f64::NAN, &points, &volumes), Err(MhdeError::NumericalInstability));
}

#[test]
fn cauchy_objective_refuses_terms_out_of_the_domain() {
    assert_eq!(objective(0.0, 1.0, &[1.0, 2.0], &[2.0, -2.0]), Err(MhdeError::DomainError));
    assert_eq!(objective(0.0, 1.0, &[1.0, 2.0], &[2.0]), Err(MhdeError::DomainError));
    // So far from the location that the density falls to zero.
    assert_eq!(objective(0.0, 1.0e-200, &[1.0e200], &[2.0]), Err(MhdeError::DomainError));
}

#[test]
fn cauchy_generator_refuses_malformed_parameters() {
    assert_eq!(generate(0.0, 0.0, 10, 1), Err(MhdeError::InvalidConfiguration));
    assert_eq!(generate(0.0, -2.0, 10, 1), Err(MhdeError::InvalidConfiguration));
    assert_eq!(generate(f64::NAN, 1.0, 10, 1), Err(MhdeError::InvalidConfiguration));
    assert_eq!(generate(0.0, 1.0, 10, 1).unwrap().len(), 10);
}

#[test]
fn cauchy_fit_of_a_short_sample_is_refused() {
    let config = TrainingConfig::new();
    assert_eq!(fit(&[1.0], false, &config).err(), Some(MhdeError::InsufficientSample));
    assert_eq!(fit(&[1.0, 2.0, 3.0], true, &config).err(), Some(MhdeError::InsufficientSample));
}
