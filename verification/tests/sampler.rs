use mlx_rs::error::Exception;
use mlx_rs::random::{
    clock_reading_seed, plan_native_key, Key, KeyCursor, KeyPlan, RandomState,
};
use mlx_rs::sampler::{DefaultSampler, SampleStep};

/// One stochastic step whose logit scaling succeeded.
fn stochastic(sampler: &mut DefaultSampler) -> SampleStep<()> {
    sampler.sample(Some(Ok(()))).unwrap()
}

/// One greedy (zero temperature) step.
fn greedy(sampler: &mut DefaultSampler) -> SampleStep<()> {
    sampler.sample::<()>(None).unwrap()
}

fn draw(mut sampler: DefaultSampler) -> Vec<SampleStep<()>> {
    (0..16).map(|_| stochastic(&mut sampler)).collect()
}

#[test]
fn seeded_sampler_is_reproducible_and_seed_sensitive() {
    let a = draw(DefaultSampler::with_seed(42).unwrap());
    assert_eq!(a, draw(DefaultSampler::with_seed(42).unwrap()));
    assert_ne!(a, draw(DefaultSampler::with_seed(43).unwrap()));
}

#[test]
fn sampler_does_not_consume_global_rng() {
    // A process-wide stream and a sampler seeded alike: sampling between the
    // stream's draws leaves the stream's keys exactly as they are without it,
    // and the sampler draws from its own stream.
    let mut uninterrupted = RandomState::with_seed(1234);
    let expected: Vec<Key> = (0..4).map(|_| uninterrupted.next_key().unwrap()).collect();

    let mut global = RandomState::with_seed(1234);
    let mut sampler = DefaultSampler::with_seed(1234).unwrap();
    let mut actual = Vec::new();
    for round in 0..4u64 {
        for i in 0..8u64 {
            assert_eq!(stochastic(&mut sampler), SampleStep::Categorical((), Key { seed: 1234, index: round * 8 + i }));
        }
        actual.push(global.next_key().unwrap());
    }
    assert_eq!(expected, actual);
}

#[test]
fn greedy_sampling_is_seed_independent() {
    let a = greedy(&mut DefaultSampler::with_seed(1).unwrap());
    let b = greedy(&mut DefaultSampler::with_seed(2).unwrap());
    assert_eq!(a, b);
    assert_eq!(a, SampleStep::Argmax);
}

#[test]
fn seeded_sampler_draws_consecutive_keys_of_its_seed() {
    let steps = draw(DefaultSampler::with_seed(7).unwrap());
    for (i, step) in steps.iter().enumerate() {
        assert_eq!(*step, SampleStep::Categorical((), Key { seed: 7, index: i as u64 }));
    }
}

#[test]
fn greedy_steps_do_not_advance_the_key_stream() {
    let mut sampler = DefaultSampler::with_seed(5).unwrap();
    assert_eq!(greedy(&mut sampler), SampleStep::Argmax);
    assert_eq!(stochastic(&mut sampler), SampleStep::Categorical((), Key { seed: 5, index: 0 }));
    assert_eq!(greedy(&mut sampler), SampleStep::Argmax);
    assert_eq!(stochastic(&mut sampler), SampleStep::Categorical((), Key { seed: 5, index: 1 }));
}

#[test]
fn failed_scaling_is_returned_and_draws_no_key() {
    let mut sampler = DefaultSampler::with_seed(5).unwrap();
    let err = sampler.sample::<()>(Some(Err(Exception::custom("shapes cannot be broadcast")))).unwrap_err();
    assert_eq!(err.what(), "shapes cannot be broadcast");
    assert_eq!(stochastic(&mut sampler), SampleStep::Categorical((), Key { seed: 5, index: 0 }));
    sampler.sample::<()>(Some(Err(Exception::custom("again")))).unwrap_err();
    assert_eq!(stochastic(&mut sampler), SampleStep::Categorical((), Key { seed: 5, index: 1 }));
}

#[test]
fn failed_scaling_does_not_create_the_random_state() {
    let mut fresh = DefaultSampler::new();
    fresh.sample::<()>(Some(Err(Exception::custom("bad logits")))).unwrap_err();
    // The first successful draw is still the first key of a new stream.
    match stochastic(&mut fresh) {
        SampleStep::Categorical((), k) => assert_eq!(k.index, 0),
        SampleStep::Argmax => panic!("a stochastic step must draw a key"),
    }
}

#[test]
fn scaled_logits_are_handed_through() {
    let mut sampler = DefaultSampler::with_seed(3).unwrap();
    let step = sampler.sample(Some(Ok(vec![0.5f32, 1.5]))).unwrap();
    assert_eq!(step, SampleStep::Categorical(vec![0.5f32, 1.5], Key { seed: 3, index: 0 }));
}

#[test]
fn reseeding_restarts_the_key_stream() {
    let mut sampler = DefaultSampler::new();
    sampler.seed(9).unwrap();
    stochastic(&mut sampler);
    stochastic(&mut sampler);
    sampler.seed(9).unwrap();
    assert_eq!(stochastic(&mut sampler), SampleStep::Categorical((), Key { seed: 9, index: 0 }));
}

#[test]
fn unseeded_sampler_starts_its_own_stream_on_first_draw() {
    let mut sampler = DefaultSampler::default();
    let first = stochastic(&mut sampler);
    let second = stochastic(&mut sampler);
    match (first, second) {
        (SampleStep::Categorical((), k0), SampleStep::Categorical((), k1)) => {
            assert_eq!(k0.index, 0);
            assert_eq!(k1.index, 1);
            assert_eq!(k0.seed, k1.seed);
        }
        _ => panic!("stochastic steps must draw keys"),
    }
}

#[test]
fn random_state_keys_follow_their_seed() {
    let mut st = RandomState::with_seed(3);
    assert_eq!(st.next_key().unwrap(), Key { seed: 3, index: 0 });
    assert_eq!(st.next_key().unwrap(), Key { seed: 3, index: 1 });
    st.seed(4);
    assert_eq!(st.next_key().unwrap(), Key { seed: 4, index: 0 });
}

#[test]
fn clock_readings_become_seeds() {
    assert_eq!(clock_reading_seed(None), 0);
    assert_eq!(clock_reading_seed(Some(1_700_000_000_123)), 1_700_000_000_123);
    assert_eq!(clock_reading_seed(Some((1u128 << 64) + 5)), 5);
    assert_eq!(clock_reading_seed(Some(u128::MAX)), u64::MAX);
}

#[test]
fn native_keys_start_a_stream_then_split_forward() {
    let first = Key { seed: 7, index: 0 };
    let (plan, cursor) = plan_native_key(None, first);
    assert_eq!(plan, KeyPlan { restart: true, splits: 1 });
    assert_eq!(cursor, KeyCursor { seed: 7, next: 1 });

    // The next key of the same stream costs one split.
    let (plan, cursor) = plan_native_key(Some(cursor), Key { seed: 7, index: 1 });
    assert_eq!(plan, KeyPlan { restart: false, splits: 1 });
    assert_eq!(cursor, KeyCursor { seed: 7, next: 2 });

    // Skipping ahead splits through the keys in between.
    let (plan, cursor) = plan_native_key(Some(cursor), Key { seed: 7, index: 5 });
    assert_eq!(plan, KeyPlan { restart: false, splits: 4 });
    assert_eq!(cursor, KeyCursor { seed: 7, next: 6 });

    // Going back, or to another seed, starts afresh.
    let (plan, _) = plan_native_key(Some(cursor), Key { seed: 7, index: 2 });
    assert_eq!(plan, KeyPlan { restart: true, splits: 3 });
    let (plan, after) = plan_native_key(Some(cursor), Key { seed: 8, index: 6 });
    assert_eq!(plan, KeyPlan { restart: true, splits: 7 });
    assert_eq!(after, KeyCursor { seed: 8, next: 7 });
}
