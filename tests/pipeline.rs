use dam_tutorial::blocks::{Activation, Relu, GEMV};
use dam_tutorial::events::{Action, BlockError, Event, Phase};
use dam_tutorial::linalg::{abs_dot_fits, affine, Matrix};

/// Runs a vector-matrix block over `input`, one element per dequeue, until it
/// stops. Returns the emitted (timestamp, value) pairs, the clock readings at
/// which each invocation asked for its first scalar, and the final action.
fn run_gemv(g: &mut GEMV, input: &[i64]) -> (Vec<(u64, i64)>, Vec<u64>, Action) {
    let mut now: u64 = 0;
    let mut next = 0usize;
    let mut ev = Event::Start;
    let mut out = Vec::new();
    let mut starts = Vec::new();
    let mut fresh = true;
    loop {
        assert!(g.accepts(now, &ev));
        match g.step(now, ev) {
            Action::Dequeue => {
                if fresh {
                    starts.push(now);
                    fresh = false;
                }
                ev = if next < input.len() {
                    next += 1;
                    Event::Received { time: now, value: input[next - 1] }
                } else {
                    Event::Closed
                };
            }
            Action::Enqueue { time, value } => {
                out.push((time, value));
                ev = Event::Sent;
            }
            Action::Advance(n) => {
                if g.phase() == Phase::Cooldown {
                    fresh = true;
                }
                now += n;
                ev = Event::Advanced;
            }
            a => return (out, starts, a),
        }
    }
}

/// Runs an activation block over timestamped elements.
fn run_activation(b: &mut Activation<Relu>, input: &[(u64, i64)]) -> (Vec<(u64, i64)>, Action) {
    let mut now: u64 = 0;
    let mut next = 0usize;
    let mut ev = Event::Start;
    let mut out = Vec::new();
    loop {
        assert!(b.accepts(now, &ev));
        match b.step(now, ev) {
            Action::Dequeue => {
                ev = if next < input.len() {
                    let (t, v) = input[next];
                    next += 1;
                    if t > now {
                        now = t;
                    }
                    Event::Received { time: t, value: v }
                } else {
                    Event::Closed
                };
            }
            Action::Enqueue { time, value } => {
                out.push((time, value));
                ev = Event::Sent;
            }
            Action::Advance(n) => {
                now += n;
                ev = Event::Advanced;
            }
            a => return (out, a),
        }
    }
}

fn filled(rows: usize, cols: usize, v: i64) -> Matrix {
    Matrix::from_rows(cols, vec![vec![v; cols]; rows])
}

fn relu(input: f64) -> f64 {
    input.max(0.0)
}

#[test]
fn matmul_relu_test() {
    const NUM_INPUTS: usize = 32;
    const NUM_FEATURES: usize = 1024;
    const NUM_OUTPUTS: usize = 24;

    let mut data = vec![];
    for input_num in 0..NUM_INPUTS {
        for feature_id in 0..NUM_FEATURES {
            let feature_value = input_num * NUM_FEATURES + feature_id;
            data.push(feature_value as f64);
        }
    }
    let input_mat = ndarray::Array::from_shape_vec((NUM_INPUTS, NUM_FEATURES), data.clone()).unwrap();

    // The reference: weights of 0.5 everywhere, biases `output_id - 2`, then ReLU.
    let weights = ndarray::Array2::from_elem((NUM_OUTPUTS, NUM_FEATURES), 0.5);
    let mut bias_vec = vec![];
    for output_id in 0..NUM_OUTPUTS {
        bias_vec.push((output_id as f64) - 2.0);
    }
    let biases = ndarray::Array::from_vec(bias_vec.clone());
    let bias_matrix = biases.into_shape((NUM_OUTPUTS, 1)).unwrap();
    let mut reference_output = weights.dot(&input_mat.t());
    reference_output += &bias_matrix;
    reference_output.mapv_inplace(relu);
    let expected: Vec<f64> = reference_output.t().to_owned().into_iter().collect();

    // The integer pipeline computes twice that: weights of 1, doubled biases.
    let int_data: Vec<i64> = data.iter().map(|v| *v as i64).collect();
    let int_biases: Vec<i64> = bias_vec.iter().map(|b| (2.0 * b) as i64).collect();
    let mut g = GEMV::new(filled(NUM_OUTPUTS, NUM_FEATURES, 1), int_biases, 1);
    let (mid, _, end) = run_gemv(&mut g, &int_data);
    assert_eq!(end, Action::Finish);
    let mut a = Activation::new(1, Relu);
    let (out, end) = run_activation(&mut a, &mid);
    assert_eq!(end, Action::Finish);
    assert_eq!(out.len(), expected.len());
    for (got, want) in out.iter().zip(expected.iter()) {
        assert_eq!(got.1 as f64, 2.0 * want);
    }
    println!("Took {:?} cycles", out.last().map(|p| p.0));
}

#[test]
fn single_vector_through_relu() {
    let mut g = GEMV::new(filled(2, 4, 1), vec![-2, -1], 0);
    let (mid, _, end) = run_gemv(&mut g, &[1, 2, 3, 4]);
    assert_eq!(end, Action::Finish);
    assert_eq!(mid, vec![(5, 8), (6, 9)]);
    let mut a = Activation::new(0, Relu);
    let (out, end) = run_activation(&mut a, &mid);
    assert_eq!(end, Action::Finish);
    assert_eq!(out, vec![(6, 8), (7, 9)]);
    assert!(out[1].0 >= out[0].0 + 1);
}

#[test]
fn relu_clamps_negative_rows() {
    let mut g = GEMV::new(filled(2, 4, 1), vec![-2, -1], 0);
    let (mid, _, _) = run_gemv(&mut g, &[0, 0, 0, 1]);
    assert_eq!(mid.iter().map(|p| p.1).collect::<Vec<_>>(), vec![-1, 0]);
    let mut a = Activation::new(0, Relu);
    let (out, _) = run_activation(&mut a, &mid);
    assert_eq!(out.iter().map(|p| p.1).collect::<Vec<_>>(), vec![0, 0]);
}

#[test]
fn stacked_vectors_back_to_back() {
    let inputs = 32usize;
    let features = 1024usize;
    let outputs = 24usize;
    let data: Vec<i64> = (0..inputs * features).map(|v| v as i64).collect();
    let biases: Vec<i64> = (0..outputs).map(|o| o as i64 - 2).collect();
    let mut g = GEMV::new(filled(outputs, features, 1), biases.clone(), 1);
    let (mid, starts, end) = run_gemv(&mut g, &data);
    assert_eq!(end, Action::Finish);
    assert_eq!(mid.len(), inputs * outputs);
    assert_eq!(starts.len(), inputs + 1);
    let mut a = Activation::new(1, Relu);
    let (out, end) = run_activation(&mut a, &mid);
    assert_eq!(end, Action::Finish);
    assert_eq!(out.len(), inputs * outputs);
    for n in 0..inputs {
        let sum: i64 = data[n * features..(n + 1) * features].iter().sum();
        for o in 0..outputs {
            let expected = (sum + biases[o]).max(0);
            assert_eq!(out[n * outputs + o].1, expected);
        }
    }
}

#[test]
fn closed_before_any_element_is_clean() {
    let mut g = GEMV::new(filled(2, 4, 1), vec![0, 0], 0);
    let (out, _, end) = run_gemv(&mut g, &[]);
    assert_eq!(end, Action::Finish);
    assert!(out.is_empty());
    assert_eq!(g.phase(), Phase::Done);
}

#[test]
fn closed_mid_vector_is_fatal() {
    let mut g = GEMV::new(filled(2, 4, 1), vec![0, 0], 0);
    let (out, _, end) = run_gemv(&mut g, &[1, 2, 3]);
    assert_eq!(end, Action::Fail(BlockError::PrematureClose { invocation: 0, received: 3 }));
    assert!(out.is_empty());
    assert_eq!(g.phase(), Phase::Failed);
}

#[test]
fn closed_mid_second_vector_names_the_invocation() {
    let mut g = GEMV::new(filled(1, 2, 1), vec![0], 0);
    let (out, _, end) = run_gemv(&mut g, &[1, 2, 3]);
    assert_eq!(out, vec![(3, 3)]);
    assert_eq!(end, Action::Fail(BlockError::PrematureClose { invocation: 1, received: 1 }));
}

#[test]
fn interval_spaces_invocations() {
    let mut g = GEMV::new(filled(1, 2, 1), vec![0], 5);
    let (out, starts, end) = run_gemv(&mut g, &[1, 2, 3, 4]);
    assert_eq!(end, Action::Finish);
    assert_eq!(out, vec![(3, 3), (10, 7)]);
    assert_eq!(starts, vec![0, 7, 14]);
    for w in starts.windows(2) {
        assert!(w[1] - w[0] >= 5 + 2);
    }
}

#[test]
fn overflowing_product_fails() {
    let mut g = GEMV::new(filled(1, 1, i64::MAX), vec![0], 0);
    let (out, _, end) = run_gemv(&mut g, &[2]);
    assert_eq!(end, Action::Fail(BlockError::Overflow { invocation: 0 }));
    assert!(out.is_empty());
}

#[test]
fn failed_send_is_fatal() {
    let mut g = GEMV::new(filled(1, 1, 1), vec![0], 0);
    assert_eq!(g.step(0, Event::Start), Action::Dequeue);
    assert_eq!(g.step(0, Event::Received { time: 0, value: 4 }), Action::Advance(1));
    assert_eq!(g.step(1, Event::Advanced), Action::Enqueue { time: 2, value: 4 });
    assert_eq!(g.step(1, Event::SendFailed), Action::Fail(BlockError::SendFailed));
    let mut a = Activation::new(0, Relu);
    assert_eq!(a.step(0, Event::Start), Action::Dequeue);
    assert_eq!(a.step(0, Event::Received { time: 0, value: -3 }), Action::Enqueue { time: 1, value: 0 });
    assert_eq!(a.step(0, Event::SendFailed), Action::Fail(BlockError::SendFailed));
}

#[test]
fn events_out_of_turn_are_refused() {
    let mut g = GEMV::new(filled(1, 1, 1), vec![0], 3);
    assert!(!g.accepts(0, &Event::Sent));
    assert_eq!(g.step(4, Event::Start), Action::Dequeue);
    assert!(!g.accepts(3, &Event::Closed));
    assert!(g.accepts(4, &Event::Closed));
    let a = Activation::new(0, Relu);
    assert!(!a.accepts(0, &Event::Advanced));
}

#[test]
fn activation_stamps_and_interval() {
    let mut a = Activation::new(2, Relu);
    assert_eq!(a.step(0, Event::Start), Action::Dequeue);
    assert_eq!(a.step(4, Event::Received { time: 4, value: 7 }), Action::Enqueue { time: 5, value: 7 });
    assert_eq!(a.step(4, Event::Sent), Action::Advance(2));
    assert!(!a.accepts(5, &Event::Advanced));
    assert_eq!(a.step(6, Event::Advanced), Action::Dequeue);
    assert_eq!(a.step(6, Event::Closed), Action::Finish);
}

#[test]
fn activation_stamp_at_end_of_clock() {
    let mut a = Activation::new(0, Relu);
    a.step(0, Event::Start);
    assert_eq!(
        a.step(0, Event::Received { time: u64::MAX, value: 1 }),
        Action::Fail(BlockError::ClockOverflow)
    );
}

#[test]
fn affine_product_and_bias() {
    let m = Matrix::from_rows(3, vec![vec![1, 2, 3], vec![-1, 0, 4]]);
    assert_eq!(affine(&m, &vec![10, -5], &vec![2, 3, 4]), Some(vec![30, 9]));
    assert_eq!(m.nrows(), 2);
    assert_eq!(m.ncols(), 3);
}

#[test]
fn affine_refuses_overflow() {
    let m = Matrix::from_rows(2, vec![vec![i64::MAX, 1]]);
    assert_eq!(affine(&m, &vec![0], &vec![1, 1]), None);
    assert_eq!(affine(&m, &vec![-1], &vec![1, 0]), Some(vec![i64::MAX - 1]));
    assert_eq!(affine(&m, &vec![1], &vec![1, 0]), None);
}

#[test]
fn magnitude_bound() {
    assert!(abs_dot_fits(&vec![i64::MAX, 0], &vec![1, 5]));
    assert!(!abs_dot_fits(&vec![i64::MAX, -1], &vec![1, 1]));
    assert!(!abs_dot_fits(&vec![i64::MIN], &vec![1]));
    assert!(abs_dot_fits(&vec![], &vec![]));
}
