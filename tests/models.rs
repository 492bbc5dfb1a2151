use binoculars::error::ModelError;
use binoculars::method::{LinearMethod, LogisticMethod};
use binoculars::model::{LinearRegressionRust, LogisticRegressionRust};
use binoculars::training::{GradientDescentRun, TrainingStep};

fn sigmoid(z: f64) -> f64 {
    if z >= 0.0 {
        1.0 / (1.0 + (-z).exp())
    } else {
        let e = z.exp();
        e / (1.0 + e)
    }
}

fn dot(a: &[f64], b: &[f64]) -> f64 {
    a.iter().zip(b.iter()).map(|(p, q)| p * q).sum()
}

#[test]
fn linear_model_starts_without_weights() {
    let m: LinearRegressionRust<f64> = LinearRegressionRust::new(LinearMethod::NormalEquation, false);
    assert!(m.get_weights().is_empty());
    assert_eq!(m.method(), LinearMethod::NormalEquation);
    assert!(!m.bias_enabled());
}

#[test]
fn linear_setters() {
    let mut m: LinearRegressionRust<f64> = LinearRegressionRust::new(LinearMethod::LeastSquares, false);
    m.with_bias(true);
    m.with_method(LinearMethod::NormalEquation);
    m.set_weights(vec![0.5, 1.5]);
    assert!(m.bias_enabled());
    assert_eq!(m.method(), LinearMethod::NormalEquation);
    assert_eq!(m.get_weights(), vec![0.5, 1.5]);
}

#[test]
fn linear_prepare_fit_without_bias_keeps_matrix() {
    let m: LinearRegressionRust<f64> = LinearRegressionRust::new(LinearMethod::NormalEquation, false);
    let x = vec![vec![1.0, 1.0], vec![2.0, 1.0], vec![3.0, 1.0]];
    assert_eq!(m.prepare_fit(&x, 3, 1.0), Ok(x.clone()));
    assert_eq!(m.prepare_fit(&x, 4, 1.0), Err(ModelError::DimensionMismatch));
}

#[test]
fn linear_commit_fit_stores_solution() {
    let mut m: LinearRegressionRust<f64> = LinearRegressionRust::new(LinearMethod::NormalEquation, false);
    assert_eq!(m.commit_fit(2, Some(vec![2.0, 0.0])), Ok(()));
    assert_eq!(m.get_weights(), vec![2.0, 0.0]);
}

#[test]
fn linear_singular_fit_keeps_old_weights() {
    let mut m: LinearRegressionRust<f64> = LinearRegressionRust::new(LinearMethod::NormalEquation, true);
    m.set_weights(vec![1.0, 2.0, 3.0]);
    assert_eq!(m.commit_fit(3, None), Err(ModelError::SingularMatrix));
    assert_eq!(m.get_weights(), vec![1.0, 2.0, 3.0]);
    assert_eq!(m.commit_fit(3, Some(vec![1.0])), Err(ModelError::DimensionMismatch));
    assert_eq!(m.get_weights(), vec![1.0, 2.0, 3.0]);
}

#[test]
fn linear_predict_rejects_wrong_weight_length() {
    let mut m: LinearRegressionRust<f64> = LinearRegressionRust::new(LinearMethod::LeastSquares, true);
    m.set_weights(vec![1.0, 2.0]);
    let x = vec![vec![1.0, 1.0], vec![2.0, 1.0]];
    assert_eq!(m.prepare_predict(&x, 1.0), Err(ModelError::DimensionMismatch));
    m.set_weights(vec![1.0, 2.0, 3.0]);
    let xa = m.prepare_predict(&x, 1.0).unwrap();
    assert_eq!(xa, vec![vec![1.0, 1.0, 1.0], vec![2.0, 1.0, 1.0]]);
}

#[test]
fn logistic_rejects_zero_epochs_or_batch() {
    let e = LogisticRegressionRust::new(LogisticMethod::GradientDescent, true, 0, 4, 0.1);
    assert!(matches!(e, Err(ModelError::InvalidConfiguration)));
    let b = LogisticRegressionRust::new(LogisticMethod::GradientDescent, true, 5, 0, 0.1);
    assert!(matches!(b, Err(ModelError::InvalidConfiguration)));
}

#[test]
fn logistic_setters_validate() {
    let mut m = LogisticRegressionRust::new(LogisticMethod::GradientDescent, false, 5, 2, 0.1).unwrap();
    assert_eq!(m.with_epochs(0), Err(ModelError::InvalidConfiguration));
    assert_eq!(m.with_batch_size(0), Err(ModelError::InvalidConfiguration));
    assert_eq!(m.with_epochs(7), Ok(()));
    assert_eq!(m.with_batch_size(3), Ok(()));
    m.with_learning_rate(0.25);
    m.with_bias(true);
    m.with_method(LogisticMethod::GradientDescent);
    assert_eq!(m.learning_rate(), 0.25);
    assert!(m.bias_enabled());
    assert_eq!(m.method(), LogisticMethod::GradientDescent);
    m.set_weights(vec![0.0, 1.0]);
    assert_eq!(m.get_weights(), vec![0.0, 1.0]);
    assert!(m.get_losses().is_empty());
}

#[test]
fn logistic_start_fit_checks_labels_length() {
    let m = LogisticRegressionRust::new(LogisticMethod::GradientDescent, true, 3, 2, 0.1).unwrap();
    let x = vec![vec![0.0], vec![1.0]];
    assert!(matches!(m.start_fit(&x, 3, 1.0, 0.0), Err(ModelError::DimensionMismatch)));
}

#[test]
fn zero_epoch_run_finishes_at_once() {
    let run: GradientDescentRun<f64> = GradientDescentRun::new(4, 2, 0, 4, 0.0);
    assert_eq!(run.next_step(), TrainingStep::Finished);
    let (w, losses) = run.finish();
    assert_eq!(w, vec![0.0, 0.0]);
    assert!(losses.is_empty());
}

#[test]
fn run_visits_batches_then_closes_epoch() {
    let mut run: GradientDescentRun<f64> = GradientDescentRun::new(5, 1, 2, 2, 0.0);
    let mut seen = Vec::new();
    loop {
        match run.next_step() {
            TrainingStep::Batch { start, end } => {
                seen.push((start, end));
                let w = vec![run.weights()[0] + 1.0];
                run.apply_batch(w);
            }
            TrainingStep::EndEpoch => {
                seen.push((usize::MAX, usize::MAX));
                let l = run.losses().len() as f64;
                run.end_epoch(l);
            }
            TrainingStep::Finished => break,
        }
    }
    let end = (usize::MAX, usize::MAX);
    assert_eq!(seen, vec![(0, 2), (2, 4), (4, 5), end, (0, 2), (2, 4), (4, 5), end]);
    let (w, losses) = run.finish();
    assert_eq!(w, vec![6.0]);
    assert_eq!(losses, vec![0.0, 1.0]);
}

#[test]
fn logistic_fit_separates_two_classes() {
    let mut m = LogisticRegressionRust::new(LogisticMethod::GradientDescent, true, 500, 4, 0.1).unwrap();
    let x = vec![vec![0.0], vec![1.0], vec![2.0], vec![3.0]];
    let y = vec![0.0, 0.0, 1.0, 1.0];
    let (xa, mut run) = m.start_fit(&x, y.len(), 1.0, 0.0).unwrap();
    assert_eq!(run.weights(), &vec![0.0, 0.0]);
    let lr = m.learning_rate();
    let mut epoch_loss = 0.0;
    loop {
        match run.next_step() {
            TrainingStep::Batch { start, end } => {
                let w = run.weights().clone();
                let mut grad = vec![0.0; w.len()];
                for i in start..end {
                    let err = sigmoid(dot(&xa[i], &w)) - y[i];
                    for j in 0..w.len() {
                        grad[j] += xa[i][j] * err;
                    }
                }
                let nw: Vec<f64> = w.iter().zip(grad.iter()).map(|(a, g)| a - lr * g).collect();
                for i in start..end {
                    let p = sigmoid(dot(&xa[i], &nw));
                    epoch_loss -= y[i] * p.ln() + (1.0 - y[i]) * (1.0 - p).ln();
                }
                run.apply_batch(nw);
            }
            TrainingStep::EndEpoch => {
                run.end_epoch(epoch_loss);
                epoch_loss = 0.0;
            }
            TrainingStep::Finished => break,
        }
    }
    m.finish_fit(run);
    let losses = m.get_losses();
    assert_eq!(losses.len(), 500);
    for k in 1..losses.len() {
        assert!(losses[k] <= losses[k - 1] + 1e-9);
    }
    let xp = m.prepare_predict(&x, 1.0).unwrap();
    let w = m.get_weights();
    let p: Vec<f64> = xp.iter().map(|r| sigmoid(dot(r, &w))).collect();
    for k in 1..p.len() {
        assert!(p[k] > p[k - 1]);
    }
    assert!(p[0] < 0.5);
    assert!(p[3] > 0.5);
}
