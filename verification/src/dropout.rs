//! Dropout layers: which forward passes draw a mask, and of which shape.
//!
//! Each layer owns its random state. A forward pass in training mode with a
//! non-zero drop probability draws one key from that state and masks the
//! input with a Bernoulli mask of the shape decided here; otherwise the input
//! passes through unchanged. The channel-wise variants first check the rank of
//! the input.
use vstd::prelude::*;
use crate::error::Exception;
use crate::random::{Key, RandomState};

verus! {

/// What one forward pass of a dropout layer does to its input.
#[derive(Debug)]
pub enum DropoutStep {
    /// Return the input unchanged.
    Identity,
    /// Multiply the input by `1 / (1 - p)` times a Bernoulli(`1 - p`) mask of
    /// `shape`, drawn with `key`.
    Mask { shape: Vec<i32>, key: Key },
}

/// The mask shape of channel-wise dropout: `shape` with the `spatial` axes
/// just before the last (channel) axis set to 1.
pub open spec fn channel_mask_shape(shape: Seq<i32>, spatial: nat) -> Seq<i32> {
    Seq::new(shape.len(), |i: int|
        if shape.len() - 1 - spatial <= i < shape.len() - 1 { 1i32 } else { shape[i] })
}

/// Set the `spatial` axes just before the last axis of `shape` to 1.
fn channel_mask(shape: &Vec<i32>, spatial: usize) -> (m: Vec<i32>)
    requires
        spatial < shape.len(),
    ensures
        m@ == channel_mask_shape(shape@, spatial as nat),
{
    let len: usize = shape.len();
    let mut m: Vec<i32> = Vec::new();
    let mut i: usize = 0;
    while i < len
        invariant
            len == shape.len(),
            spatial < len,
            i <= len,
            m@.len() == i,
            forall|j: int| 0 <= j < i ==> m@[j] == channel_mask_shape(shape@, spatial as nat)[j],
        decreases len - i,
    {
        if len - 1 - spatial <= i && i < len - 1 {
            m.push(1);
        } else {
            m.push(shape[i]);
        }
        i = i + 1;
    }
    assert(m@ =~= channel_mask_shape(shape@, spatial as nat));
    m
}

/// Copy a shape.
fn copy_shape(shape: &Vec<i32>) -> (m: Vec<i32>)
    ensures
        m@ == shape@,
{
    let mut m: Vec<i32> = Vec::new();
    let mut i: usize = 0;
    while i < shape.len()
        invariant
            i <= shape.len(),
            m@ == shape@.subrange(0, i as int),
        decreases shape.len() - i,
    {
        m.push(shape[i]);
        i = i + 1;
        assert(m@ =~= shape@.subrange(0, i as int));
    }
    assert(shape@.subrange(0, shape@.len() as int) =~= shape@);
    m
}

/// Randomly zero a portion of the elements during training.
#[derive(Debug)]
pub struct Dropout {
    training: bool,
    random_state: RandomState,
}

/// Randomly zero whole channels of 3D (`WHC`) or 4D (`NWHC`) inputs during
/// training.
#[derive(Debug)]
pub struct Dropout2d {
    training: bool,
    random_state: RandomState,
}

/// Randomly zero whole channels of 4D (`DHWC`) or 5D (`NDHWC`) inputs during
/// training.
#[derive(Debug)]
pub struct Dropout3d {
    training: bool,
    random_state: RandomState,
}

/// Why a dropout layer could not be built.
#[derive(Debug, Clone, Copy, PartialEq, Eq, Structural)]
pub enum DropoutBuildError {
    /// The drop probability is not in `[0, 1)`.
    InvalidProbability,
}

/// Default value for the training mode of every dropout layer.
pub const DEFAULT_TRAINING: bool = true;

impl Dropout {
    /// Default value for the training mode of the layer.
    pub const DEFAULT_TRAINING: bool = DEFAULT_TRAINING;

    /// The layer's random state.
    pub closed spec fn state_spec(&self) -> RandomState {
        self.random_state
    }

    /// Whether the layer is in training mode.
    pub closed spec fn is_training(&self) -> bool {
        self.training
    }

    /// Whether the layer is in training mode.
    pub fn training(&self) -> (b: bool)
        ensures
            b == self.is_training(),
    {
        self.training
    }

    /// A layer in training mode with a clock-seeded random state.
    pub fn new() -> (d: Dropout)
        ensures
            d.is_training() == DEFAULT_TRAINING,
            d.state_spec().draws_of() == 0,
    {
        Dropout { training: DEFAULT_TRAINING, random_state: RandomState::new() }
    }

    /// Build a layer from a drop probability; `valid` is whether the
    /// probability lies in `[0, 1)`.
    pub fn build(valid: bool) -> (r: Result<Dropout, DropoutBuildError>)
        ensures
            !valid ==> r == Err::<Dropout, DropoutBuildError>(DropoutBuildError::InvalidProbability),
            valid ==> (r matches Ok(d) && d.is_training() == DEFAULT_TRAINING && d.state_spec().draws_of() == 0),
    {
        if !valid {
            return Err(DropoutBuildError::InvalidProbability);
        }
        Ok(Dropout::new())
    }

    /// Set the layer-owned random state to a reproducible seed.
    pub fn with_seed(self, seed: u64) -> (r: Result<Dropout, Exception>)
        ensures
            r matches Ok(d) && d.is_training() == self.is_training()
                && d.state_spec().seed_of() == seed && d.state_spec().draws_of() == 0,
    {
        let mut d = self;
        d.random_state.seed(seed);
        Ok(d)
    }

    /// Switch training mode on or off.
    pub fn training_mode(&mut self, mode: bool)
        ensures
            final(self).is_training() == mode,
            final(self).state_spec() == old(self).state_spec(),
    {
        self.training = mode;
    }

    /// Decide one forward pass over an input of `shape`. `keeps_all` is
    /// whether the keep probability `1 - p` is exactly 1.
    pub fn forward(&mut self, keeps_all: bool, shape: &Vec<i32>) -> (r: Result<DropoutStep, Exception>)
        ensures
            keeps_all || !old(self).is_training() ==> (r matches Ok(DropoutStep::Identity)) && *final(self) == *old(self),
            !keeps_all && old(self).is_training() ==> forward_draw(old(self).state_spec(), final(self).state_spec(), shape@, r),
            final(self).is_training() == old(self).is_training(),
            r matches Ok(DropoutStep::Mask { shape: s, key }) ==>
                s@ == shape@ && key == old(self).state_spec().next_key_spec(),
    {
        if keeps_all || !self.training {
            return Ok(DropoutStep::Identity);
        }
        match self.random_state.next_key() {
            Ok(key) => Ok(DropoutStep::Mask { shape: copy_shape(shape), key }),
            Err(e) => Err(e),
        }
    }
}

impl Dropout2d {
    /// Default value for the training mode of the layer.
    pub const DEFAULT_TRAINING: bool = DEFAULT_TRAINING;

    /// The layer's random state.
    pub closed spec fn state_spec(&self) -> RandomState {
        self.random_state
    }

    /// Whether the layer is in training mode.
    pub closed spec fn is_training(&self) -> bool {
        self.training
    }

    /// Whether the layer is in training mode.
    pub fn training(&self) -> (b: bool)
        ensures
            b == self.is_training(),
    {
        self.training
    }

    /// A layer in training mode with a clock-seeded random state.
    pub fn new() -> (d: Dropout2d)
        ensures
            d.is_training() == DEFAULT_TRAINING,
            d.state_spec().draws_of() == 0,
    {
        Dropout2d { training: DEFAULT_TRAINING, random_state: RandomState::new() }
    }

    /// Build a layer from a drop probability; `valid` is whether the
    /// probability lies in `[0, 1)`.
    pub fn build(valid: bool) -> (r: Result<Dropout2d, DropoutBuildError>)
        ensures
            !valid ==> r == Err::<Dropout2d, DropoutBuildError>(DropoutBuildError::InvalidProbability),
            valid ==> (r matches Ok(d) && d.is_training() == DEFAULT_TRAINING && d.state_spec().draws_of() == 0),
    {
        if !valid {
            return Err(DropoutBuildError::InvalidProbability);
        }
        Ok(Dropout2d::new())
    }

    /// Set the layer-owned random state to a reproducible seed.
    pub fn with_seed(self, seed: u64) -> (r: Result<Dropout2d, Exception>)
        ensures
            r matches Ok(d) && d.is_training() == self.is_training()
                && d.state_spec().seed_of() == seed && d.state_spec().draws_of() == 0,
    {
        let mut d = self;
        d.random_state.seed(seed);
        Ok(d)
    }

    /// Switch training mode on or off.
    pub fn training_mode(&mut self, mode: bool)
        ensures
            final(self).is_training() == mode,
            final(self).state_spec() == old(self).state_spec(),
    {
        self.training = mode;
    }

    /// Decide one forward pass over an input of `shape`. `keeps_all` is
    /// whether the keep probability `1 - p` is exactly 1.
    ///
    /// Inputs of rank other than 3 or 4 are refused first; a kept or
    /// evaluation-mode pass is the identity; otherwise a mask that keeps the
    /// first and last axes and is 1 along the 2 axes in between is drawn.
    pub fn forward(&mut self, keeps_all: bool, shape: &Vec<i32>) -> (r: Result<DropoutStep, Exception>)
        ensures
            !(shape.len() == 3 || shape.len() == 4) ==> {
                &&& r matches Err(e) && e.message() == "Expecting 3D or 4D input"@
                &&& *final(self) == *old(self)
            },
            (shape.len() == 3 || shape.len() == 4) && (keeps_all || !old(self).is_training()) ==>
                (r matches Ok(DropoutStep::Identity)) && *final(self) == *old(self),
            (shape.len() == 3 || shape.len() == 4) && !keeps_all && old(self).is_training() ==>
                forward_draw(old(self).state_spec(), final(self).state_spec(),
                    channel_mask_shape(shape@, 2), r),
            final(self).is_training() == old(self).is_training(),
            r matches Ok(DropoutStep::Mask { shape: s, key }) ==> {
                &&& s@.len() == shape@.len()
                &&& forall|i: int| 0 <= i < shape@.len() ==> #[trigger] s@[i] ==
                    (if shape@.len() - 3 <= i < shape@.len() - 1 { 1i32 } else { shape@[i] })
                &&& key == old(self).state_spec().next_key_spec()
            },
    {
        let ndim: usize = shape.len();
        if ndim != 3 && ndim != 4 {
            proof { reveal_strlit("Expecting 3D or 4D input"); }
            return Err(Exception::custom("Expecting 3D or 4D input"));
        }
        if keeps_all || !self.training {
            return Ok(DropoutStep::Identity);
        }
        let mask_shape = channel_mask(shape, 2);
        match self.random_state.next_key() {
            Ok(key) => Ok(DropoutStep::Mask { shape: mask_shape, key }),
            Err(e) => Err(e),
        }
    }
}

impl Dropout3d {
    /// Default value for the training mode of the layer.
    pub const DEFAULT_TRAINING: bool = DEFAULT_TRAINING;

    /// The layer's random state.
    pub closed spec fn state_spec(&self) -> RandomState {
        self.random_state
    }

    /// Whether the layer is in training mode.
    pub closed spec fn is_training(&self) -> bool {
        self.training
    }

    /// Whether the layer is in training mode.
    pub fn training(&self) -> (b: bool)
        ensures
            b == self.is_training(),
    {
        self.training
    }

    /// A layer in training mode with a clock-seeded random state.
    pub fn new() -> (d: Dropout3d)
        ensures
            d.is_training() == DEFAULT_TRAINING,
            d.state_spec().draws_of() == 0,
    {
        Dropout3d { training: DEFAULT_TRAINING, random_state: RandomState::new() }
    }

    /// Build a layer from a drop probability; `valid` is whether the
    /// probability lies in `[0, 1)`.
    pub fn build(valid: bool) -> (r: Result<Dropout3d, DropoutBuildError>)
        ensures
            !valid ==> r == Err::<Dropout3d, DropoutBuildError>(DropoutBuildError::InvalidProbability),
            valid ==> (r matches Ok(d) && d.is_training() == DEFAULT_TRAINING && d.state_spec().draws_of() == 0),
    {
        if !valid {
            return Err(DropoutBuildError::InvalidProbability);
        }
        Ok(Dropout3d::new())
    }

    /// Set the layer-owned random state to a reproducible seed.
    pub fn with_seed(self, seed: u64) -> (r: Result<Dropout3d, Exception>)
        ensures
            r matches Ok(d) && d.is_training() == self.is_training()
                && d.state_spec().seed_of() == seed && d.state_spec().draws_of() == 0,
    {
        let mut d = self;
        d.random_state.seed(seed);
        Ok(d)
    }

    /// Switch training mode on or off.
    pub fn training_mode(&mut self, mode: bool)
        ensures
            final(self).is_training() == mode,
            final(self).state_spec() == old(self).state_spec(),
    {
        self.training = mode;
    }

    /// Decide one forward pass over an input of `shape`. `keeps_all` is
    /// whether the keep probability `1 - p` is exactly 1.
    ///
    /// Inputs of rank other than 4 or 5 are refused first; a kept or
    /// evaluation-mode pass is the identity; otherwise a mask that keeps the
    /// first and last axes and is 1 along the 3 axes in between is drawn.
    pub fn forward(&mut self, keeps_all: bool, shape: &Vec<i32>) -> (r: Result<DropoutStep, Exception>)
        ensures
            !(shape.len() == 4 || shape.len() == 5) ==> {
                &&& r matches Err(e) && e.message() == "Expecting 4D or 5D input"@
                &&& *final(self) == *old(self)
            },
            (shape.len() == 4 || shape.len() == 5) && (keeps_all || !old(self).is_training()) ==>
                (r matches Ok(DropoutStep::Identity)) && *final(self) == *old(self),
            (shape.len() == 4 || shape.len() == 5) && !keeps_all && old(self).is_training() ==>
                forward_draw(old(self).state_spec(), final(self).state_spec(),
                    channel_mask_shape(shape@, 3), r),
            final(self).is_training() == old(self).is_training(),
            r matches Ok(DropoutStep::Mask { shape: s, key }) ==> {
                &&& s@.len() == shape@.len()
                &&& forall|i: int| 0 <= i < shape@.len() ==> #[trigger] s@[i] ==
                    (if shape@.len() - 4 <= i < shape@.len() - 1 { 1i32 } else { shape@[i] })
                &&& key == old(self).state_spec().next_key_spec()
            },
    {
        let ndim: usize = shape.len();
        if ndim != 4 && ndim != 5 {
            proof { reveal_strlit("Expecting 4D or 5D input"); }
            return Err(Exception::custom("Expecting 4D or 5D input"));
        }
        if keeps_all || !self.training {
            return Ok(DropoutStep::Identity);
        }
        let mask_shape = channel_mask(shape, 3);
        match self.random_state.next_key() {
            Ok(key) => Ok(DropoutStep::Mask { shape: mask_shape, key }),
            Err(e) => Err(e),
        }
    }
}

/// The outcome of drawing a mask of `shape` from state `before`, which
/// became `after`: the next key with the state advanced past it, or an error
/// with the state unchanged when the key stream is exhausted.
pub open spec fn forward_draw(before: RandomState, after: RandomState, shape: Seq<i32>, r: Result<DropoutStep, Exception>) -> bool {
    if before.draws_of() < u64::MAX {
        &&& r matches Ok(DropoutStep::Mask { shape: s, key }) && s@ == shape && key == before.next_key_spec()
        &&& after.seed_of() == before.seed_of()
        &&& after.draws_of() == before.draws_of() + 1
    } else {
        &&& r is Err
        &&& after == before
    }
}

/// A forward pass that draws masks with a mask of exactly the shape it was
/// asked for, drawn with the key that the state hands out next, and moves the
/// state past that key; it fails, leaving the state alone, only once the
/// state's key stream is used up.
pub proof fn lemma_forward_draw_mask(before: RandomState, after: RandomState, shape: Seq<i32>, r: Result<DropoutStep, Exception>)
    requires
        forward_draw(before, after, shape, r),
    ensures
        r matches Ok(DropoutStep::Mask { shape: s, key }) ==> s@ == shape && key == before.next_key_spec(),
        r is Ok ==> r matches Ok(DropoutStep::Mask { .. }),
        r is Ok <==> before.draws_of() < u64::MAX,
        r is Ok ==> after.seed_of() == before.seed_of() && after.draws_of() == before.draws_of() + 1,
        r is Err ==> after == before,
{
}

/// The channel-wise mask keeps the rank, the leading (batch or first spatial)
/// axis and the channel axis, and is 1 along the `spatial` axes just before the
/// channel axis. For `Dropout2d` on `(B, H, W, C)` it is `(B, 1, 1, C)`; on
/// `(H, W, C)` it is `(1, 1, C)`.
pub proof fn lemma_channel_mask_shape(shape: Seq<i32>, spatial: nat)
    requires
        spatial < shape.len(),
    ensures
        channel_mask_shape(shape, spatial).len() == shape.len(),
        channel_mask_shape(shape, spatial)[shape.len() - 1] == shape[shape.len() - 1],
        forall|i: int| shape.len() - 1 - spatial <= i < shape.len() - 1 ==> channel_mask_shape(shape, spatial)[i] == 1,
        forall|i: int| 0 <= i < shape.len() - 1 - spatial ==> channel_mask_shape(shape, spatial)[i] == shape[i],
{
}

} // verus!
