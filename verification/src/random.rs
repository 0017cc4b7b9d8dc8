//! Owned pseudo-random state: a seed and the number of keys drawn from it.
//!
//! A random state starts from a seed and hands out one key per draw. The key
//! handed out by the `i`-th draw of a state seeded with `s` is a function of
//! `(s, i)` alone, which is what makes seeded sampling reproducible.
use vstd::prelude::*;
use crate::error::Exception;

verus! {

/// The key handed out by one draw: the seed of the stream it came from and
/// the number of draws that preceded it.
#[derive(Debug, Clone, Copy, PartialEq, Eq, Structural)]
pub struct Key {
    pub seed: u64,
    pub index: u64,
}

/// A pseudo-random key stream owned by one consumer.
#[derive(Debug, Clone, Copy, PartialEq, Eq, Structural)]
pub struct RandomState {
    seed: u64,
    draws: u64,
}

/// The time elapsed since the Unix epoch, or `None` when the clock reads a
/// time before it.
///
/// Calls `SystemTime::elapsed` on `std::time::UNIX_EPOCH`. The result depends
/// on the time of the call, so nothing is stated of it.
#[verifier::external_body]
fn elapsed_since_epoch() -> Option<std::time::Duration> {
    std::time::UNIX_EPOCH.elapsed().ok()
}

/// The whole milliseconds of a duration.
///
/// Calls `Duration::as_millis`; nothing is stated of the result.
#[verifier::external_body]
fn whole_millis(d: std::time::Duration) -> u128 {
    d.as_millis()
}

/// The seed made from a clock reading: the whole milliseconds since the Unix
/// epoch, reduced to their low 64 bits, or 0 when the clock read a time
/// before the epoch (`None`).
pub fn clock_reading_seed(millis: Option<u128>) -> (s: u64)
    ensures
        millis is None ==> s == 0,
        millis matches Some(m) ==> s == m % 0x1_0000_0000_0000_0000,
{
    match millis {
        Some(m) => (m % 0x1_0000_0000_0000_0000u128) as u64,
        None => 0,
    }
}

/// A seed read from the system clock, as [`clock_reading_seed`] makes it
/// from the milliseconds elapsed since the Unix epoch.
fn clock_seed() -> u64 {
    let millis = match elapsed_since_epoch() {
        Some(d) => Some(whole_millis(d)),
        None => None,
    };
    clock_reading_seed(millis)
}

impl RandomState {
    /// The seed this state was started from.
    pub closed spec fn seed_of(&self) -> u64 {
        self.seed
    }

    /// The number of keys drawn from this state so far.
    pub closed spec fn draws_of(&self) -> nat {
        self.draws as nat
    }

    /// The key that the next draw will hand out.
    pub open spec fn next_key_spec(&self) -> Key {
        Key { seed: self.seed_of(), index: self.draws_of() as u64 }
    }

    /// A state seeded from the system clock, with no keys drawn yet.
    pub fn new() -> (r: RandomState)
        ensures
            r.draws_of() == 0,
    {
        RandomState { seed: clock_seed(), draws: 0 }
    }

    /// A state seeded with `seed`, with no keys drawn yet.
    pub fn with_seed(seed: u64) -> (r: RandomState)
        ensures
            r.seed_of() == seed,
            r.draws_of() == 0,
    {
        RandomState { seed, draws: 0 }
    }

    /// Restart this state from `seed`.
    pub fn seed(&mut self, seed: u64)
        ensures
            final(self).seed_of() == seed,
            final(self).draws_of() == 0,
    {
        self.seed = seed;
        self.draws = 0;
    }

    /// Draw the next key and advance the state past it.
    ///
    /// Fails, leaving the state unchanged, only once `u64::MAX` keys have
    /// been drawn from the same seed.
    pub fn next_key(&mut self) -> (r: Result<Key, Exception>)
        ensures
            old(self).draws_of() < u64::MAX ==> {
                &&& r == Ok::<Key, Exception>(old(self).next_key_spec())
                &&& final(self).seed_of() == old(self).seed_of()
                &&& final(self).draws_of() == old(self).draws_of() + 1
            },
            old(self).draws_of() >= u64::MAX ==> {
                &&& r is Err
                &&& *final(self) == *old(self)
            },
    {
        if self.draws == u64::MAX {
            return Err(Exception::custom("random state exhausted its key stream"));
        }
        let key = Key { seed: self.seed, index: self.draws };
        self.draws = self.draws + 1;
        Ok(key)
    }
}

/// Where a native key stream stands: the seed it was started from and the
/// index of the key that its next split hands out.
#[derive(Debug, Clone, Copy, PartialEq, Eq, Structural)]
pub struct KeyCursor {
    pub seed: u64,
    pub next: u64,
}

/// How to reach the native array of a key from a native key stream: whether
/// to start the stream afresh from the key's seed, and how many splits to
/// make after that. The key's array is the second half of the last split.
#[derive(Debug, Clone, Copy, PartialEq, Eq, Structural)]
pub struct KeyPlan {
    pub restart: bool,
    pub splits: u64,
}

/// Whether a native stream standing at `cursor` must be started afresh to
/// reach `key`: there is no stream, it belongs to another seed, or it has
/// already split past the key.
pub open spec fn needs_restart(cursor: Option<KeyCursor>, key: Key) -> bool {
    match cursor {
        None => true,
        Some(c) => c.seed != key.seed || c.next > key.index,
    }
}

/// The index that the next split of the stream hands out once the restart,
/// if one is needed, has been made.
pub open spec fn plan_start(cursor: Option<KeyCursor>, key: Key) -> int {
    if needs_restart(cursor, key) { 0 } else { cursor->0.next as int }
}

/// The number of splits that bring the stream from `plan_start` to `key`:
/// the last of them hands out the key itself.
pub open spec fn plan_splits(cursor: Option<KeyCursor>, key: Key) -> int {
    key.index + 1 - plan_start(cursor, key)
}

/// Where the native stream stands once it has handed out `key`.
pub open spec fn cursor_after(key: Key) -> KeyCursor {
    KeyCursor { seed: key.seed, next: (key.index + 1) as u64 }
}

/// Plan the native work for `key`, given where the native stream stands.
///
/// The stream is started afresh only when it cannot reach the key by
/// splitting forward; otherwise it keeps splitting from where it stands. The
/// splits end exactly at the key, and the returned cursor stands just past
/// it, on the key's seed.
pub fn plan_native_key(cursor: Option<KeyCursor>, key: Key) -> (r: (KeyPlan, KeyCursor))
    requires
        key.index < u64::MAX,
    ensures
        r.0.restart == needs_restart(cursor, key),
        r.0.splits == plan_splits(cursor, key),
        r.0.splits >= 1,
        r.1 == cursor_after(key),
{
    let restart = match cursor {
        None => true,
        Some(c) => c.seed != key.seed || c.next > key.index,
    };
    let start: u64 = match cursor {
        Some(c) if !restart => c.next,
        _ => 0,
    };
    let plan = KeyPlan { restart, splits: key.index + 1 - start };
    (plan, KeyCursor { seed: key.seed, next: key.index + 1 })
}

/// Keys drawn one after another from one random state cost one split each:
/// once the native stream has handed out the key that `before` draws, the key
/// that the state draws next (as `after`) needs no restart and exactly one
/// more split.
pub proof fn lemma_consecutive_keys_split_once(before: RandomState, after: RandomState)
    requires
        after.seed_of() == before.seed_of(),
        after.draws_of() == before.draws_of() + 1,
        after.draws_of() < u64::MAX,
    ensures
        !needs_restart(Some(cursor_after(before.next_key_spec())), after.next_key_spec()),
        plan_splits(Some(cursor_after(before.next_key_spec())), after.next_key_spec()) == 1,
{
}

/// Two states started from the same seed that have handed out the same number
/// of keys are the same state, and hand out the same next key: seeded key
/// streams replay exactly.
pub proof fn lemma_seeded_streams_replay(a: RandomState, b: RandomState)
    requires
        a.seed_of() == b.seed_of(),
        a.draws_of() == b.draws_of(),
    ensures
        a == b,
        a.next_key_spec() == b.next_key_spec(),
{
}

/// A key is never handed out twice: two draws from the same stream at
/// different positions, or from streams with different seeds, give different
/// keys.
pub proof fn lemma_keys_never_repeat(a: RandomState, b: RandomState)
    requires
        a.seed_of() != b.seed_of() || a.draws_of() != b.draws_of(),
    ensures
        a.next_key_spec() != b.next_key_spec(),
{
}

} // verus!
