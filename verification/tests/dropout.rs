use mlx_rs::dropout::{Dropout, Dropout2d, Dropout3d, DropoutStep, DEFAULT_TRAINING};
use mlx_rs::random::Key;

fn mask(step: DropoutStep) -> (Vec<i32>, Key) {
    match step {
        DropoutStep::Mask { shape, key } => (shape, key),
        DropoutStep::Identity => panic!("expected a mask"),
    }
}

#[test]
fn test_dropout() {
    let shape = vec![2, 8, 16];
    let result = mask(Dropout::new().with_seed(959).unwrap().forward(false, &shape).unwrap());
    let repeated = mask(Dropout::new().with_seed(959).unwrap().forward(false, &shape).unwrap());
    assert_eq!(result.0, vec![2, 8, 16]);
    assert_eq!(result, repeated);
}

#[test]
fn test_dropout2d() {
    let shape = vec![2, 8, 16];
    let result = mask(Dropout2d::new().with_seed(695).unwrap().forward(false, &shape).unwrap());
    let repeated = mask(Dropout2d::new().with_seed(695).unwrap().forward(false, &shape).unwrap());
    assert_eq!(result.0, vec![1, 1, 16]);
    assert_eq!(result, repeated);
}

#[test]
fn test_dropout3d() {
    let shape = vec![2, 8, 8, 4];
    let result = mask(Dropout3d::new().with_seed(23).unwrap().forward(false, &shape).unwrap());
    let repeated = mask(Dropout3d::new().with_seed(23).unwrap().forward(false, &shape).unwrap());
    assert_eq!(result.0, vec![1, 1, 1, 4]);
    assert_eq!(result, repeated);
}

#[test]
fn compiled_dropout_advances_and_replays_seeded_state() {
    let shape = vec![256];
    let run = |seed| {
        let mut layer = Dropout::new().with_seed(seed).unwrap();
        let first = mask(layer.forward(false, &shape).unwrap());
        let second = mask(layer.forward(false, &shape).unwrap());
        (first, second)
    };
    let (first, second) = run(42);
    assert_ne!(first, second, "dropout must advance its RNG state");
    assert_eq!((first, second), run(42), "the same seed must replay both masks");
}

#[test]
fn dropout_layers_do_not_consume_global_rng() {
    // A process-wide stream and three layers all seeded alike: drawing from
    // the layers between the stream's draws leaves the stream's keys exactly
    // as they are without them, and each layer draws from its own stream.
    let mut uninterrupted = mlx_rs::random::RandomState::with_seed(1234);
    let expected: Vec<Key> = (0..3).map(|_| uninterrupted.next_key().unwrap()).collect();

    let mut global = mlx_rs::random::RandomState::with_seed(1234);
    let mut d1 = Dropout::new().with_seed(1234).unwrap();
    let mut d2 = Dropout2d::new().with_seed(1234).unwrap();
    let mut d3 = Dropout3d::new().with_seed(1234).unwrap();
    let mut actual = Vec::new();
    for round in 0..3u64 {
        assert_eq!(mask(d1.forward(false, &vec![2, 8, 16]).unwrap()).1, Key { seed: 1234, index: round });
        assert_eq!(mask(d2.forward(false, &vec![2, 8, 16]).unwrap()).1, Key { seed: 1234, index: round });
        assert_eq!(mask(d3.forward(false, &vec![2, 8, 8, 4]).unwrap()).1, Key { seed: 1234, index: round });
        actual.push(global.next_key().unwrap());
    }
    assert_eq!(expected, actual);
}

#[test]
fn dropout_is_identity_when_nothing_is_dropped_or_not_training() {
    let mut layer = Dropout::new().with_seed(1).unwrap();
    assert!(matches!(layer.forward(true, &vec![4]).unwrap(), DropoutStep::Identity));
    layer.training_mode(false);
    assert!(!layer.training());
    assert!(matches!(layer.forward(false, &vec![4]).unwrap(), DropoutStep::Identity));
    layer.training_mode(true);
    // Identity passes did not draw keys.
    let (_, key) = mask(layer.forward(false, &vec![4]).unwrap());
    assert_eq!(key, Key { seed: 1, index: 0 });
}

#[test]
fn new_layers_train_by_default() {
    assert_eq!(DEFAULT_TRAINING, true);
    assert_eq!(Dropout::DEFAULT_TRAINING, true);
    assert_eq!(Dropout2d::DEFAULT_TRAINING, true);
    assert_eq!(Dropout3d::DEFAULT_TRAINING, true);
    assert!(Dropout::new().training());
    assert!(Dropout2d::new().training());
    assert!(Dropout3d::new().training());
}

#[test]
fn dropout2d_refuses_inputs_that_are_not_3d_or_4d() {
    let mut layer = Dropout2d::new().with_seed(0).unwrap();
    let err = layer.forward(false, &vec![2, 8]).unwrap_err();
    assert_eq!(err.what(), "Expecting 3D or 4D input");
    let err = layer.forward(true, &vec![1, 2, 3, 4, 5]).unwrap_err();
    assert_eq!(err.what(), "Expecting 3D or 4D input");
    // The refusal draws no key.
    let (shape, key) = mask(layer.forward(false, &vec![3, 5, 7, 9]).unwrap());
    assert_eq!(shape, vec![3, 1, 1, 9]);
    assert_eq!(key, Key { seed: 0, index: 0 });
}

#[test]
fn dropout3d_refuses_inputs_that_are_not_4d_or_5d() {
    let mut layer = Dropout3d::new().with_seed(0).unwrap();
    let err = layer.forward(false, &vec![2, 8, 16]).unwrap_err();
    assert_eq!(err.what(), "Expecting 4D or 5D input");
    let (shape, _) = mask(layer.forward(false, &vec![2, 3, 4, 5, 6]).unwrap());
    assert_eq!(shape, vec![2, 1, 1, 1, 6]);
}
