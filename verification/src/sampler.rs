//! Temperature sampling decisions.
//!
//! A [`DefaultSampler`] owns its random state. Each sampling step either picks
//! the most likely token (temperature zero) or, once the logits have been
//! scaled by the inverse temperature, draws one key from the sampler's own
//! state for a categorical draw over them. Global random state is never
//! touched.
use vstd::prelude::*;
use crate::error::Exception;
use crate::random::{Key, RandomState};

verus! {

/// What one sampling step does with the logits.
#[derive(Debug, Clone, Copy, PartialEq, Eq, Structural)]
pub enum SampleStep<L> {
    /// Take the index of the largest logit along the last axis.
    Argmax,
    /// Draw from the categorical distribution that these logits, already
    /// scaled by the inverse temperature, define, using this key.
    Categorical(L, Key),
}

/// Temperature sampler backed by its own random state.
///
/// The state is created lazily, from the clock, on the first stochastic draw
/// unless a seed was given. Use [`DefaultSampler::with_seed`] for
/// reproducible sampling.
#[derive(Debug)]
pub struct DefaultSampler {
    state: Option<RandomState>,
}

impl DefaultSampler {
    /// The sampler's random state, if one has been created.
    pub closed spec fn state_spec(&self) -> Option<RandomState> {
        self.state
    }

    /// A sampler with no random state yet.
    pub fn new() -> (s: DefaultSampler)
        ensures
            s.state_spec() is None,
    {
        DefaultSampler { state: None }
    }

    /// A sampler whose random state starts from `seed`.
    pub fn with_seed(seed: u64) -> (r: Result<DefaultSampler, Exception>)
        ensures
            r matches Ok(s) && s.state_spec() matches Some(st) && st.seed_of() == seed && st.draws_of() == 0,
    {
        Ok(DefaultSampler { state: Some(RandomState::with_seed(seed)) })
    }

    /// Reset this sampler to a reproducible seed.
    pub fn seed(&mut self, seed: u64) -> (r: Result<(), Exception>)
        ensures
            r is Ok,
            final(self).state_spec() matches Some(st) && st.seed_of() == seed && st.draws_of() == 0,
    {
        self.state = Some(RandomState::with_seed(seed));
        Ok(())
    }

    /// Decide one sampling step.
    ///
    /// `scaled` is `None` when the temperature is zero; otherwise it is the
    /// outcome of scaling the logits by the inverse temperature, which is done
    /// before any key is drawn. A greedy step takes the argmax and leaves the
    /// random state alone. A failed scaling is handed back and leaves the
    /// random state alone too. Otherwise the step creates the random state
    /// from the clock if there is none yet, then draws the next key from it.
    pub fn sample<L>(&mut self, scaled: Option<Result<L, Exception>>) -> (r: Result<SampleStep<L>, Exception>)
        ensures
            scaled is None ==> r == Ok::<SampleStep<L>, Exception>(SampleStep::Argmax) && *final(self) == *old(self),
            scaled matches Some(Err(e)) ==> r == Err::<SampleStep<L>, Exception>(e) && *final(self) == *old(self),
            scaled matches Some(Ok(l)) ==> {
                &&& final(self).state_spec() is Some
                &&& (old(self).state_spec() is Some ==>
                    final(self).state_spec()->0.seed_of() == old(self).state_spec()->0.seed_of())
                &&& (old(self).state_spec() is None ==> {
                    &&& r == Ok::<SampleStep<L>, Exception>(SampleStep::Categorical(
                        l, Key { seed: final(self).state_spec()->0.seed_of(), index: 0 }))
                    &&& final(self).state_spec()->0.draws_of() == 1
                })
                &&& (old(self).state_spec() is Some && old(self).state_spec()->0.draws_of() < u64::MAX ==> {
                    &&& r == Ok::<SampleStep<L>, Exception>(
                        SampleStep::Categorical(l, old(self).state_spec()->0.next_key_spec()))
                    &&& final(self).state_spec()->0.draws_of() == old(self).state_spec()->0.draws_of() + 1
                })
                &&& (old(self).state_spec() is Some && old(self).state_spec()->0.draws_of() >= u64::MAX ==> {
                    &&& r is Err
                    &&& *final(self) == *old(self)
                })
            },
    {
        let logits = match scaled {
            None => return Ok(SampleStep::Argmax),
            Some(Err(e)) => return Err(e),
            Some(Ok(l)) => l,
        };
        let mut st = match self.state {
            Some(st) => st,
            None => RandomState::new(),
        };
        let key = st.next_key();
        self.state = Some(st);
        match key {
            Ok(k) => Ok(SampleStep::Categorical(logits, k)),
            Err(e) => Err(e),
        }
    }
}

impl Default for DefaultSampler {
    fn default() -> (s: DefaultSampler)
        ensures
            s.state_spec() is None,
    {
        DefaultSampler::new()
    }
}

} // verus!
