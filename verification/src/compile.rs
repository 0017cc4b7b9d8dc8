//! Compilation of array functions.
//!
//! A compiled function produces the same output as the function it was built
//! from: calling it applies that function to the arguments. Functions of one,
//! two or three arrays, or of a slice of arrays, can be compiled, each either
//! infallible or returning `Result<_, Exception>`, through [`compile`] or the
//! [`Compile`] trait. A compiled function is a copyable function value, and
//! every call runs a fresh copy of it as it was compiled: the handle never
//! changes, so every call, not only the first, gives what the function gives
//! for that call's arguments. The handle also records whether a backend may reuse one compiled
//! graph across input shapes. The `lemma_call_mut_*` laws state, for each
//! arity, that calling through [`CallMut`] is calling the function.
//!
//! Alongside, [`CompileCacheState`] holds the process-wide bookkeeping of the
//! compiler cache: the identities handed to compiled handles and the generation
//! counter that [`clear_cache`] advances.
use vstd::prelude::*;
use crate::error::Exception;

verus! {

/// A compiled function that can be called.
pub struct Compiled<F> {
    f: F,
    shapeless: bool,
}

/// Returns a compiled function that produces the same output as `f`.
///
/// `shapeless` defaults to `false` when `None`.
pub fn compile<F>(f: F, shapeless: Option<bool>) -> (c: Compiled<F>)
    ensures
        c.function() == f,
        c.is_shapeless() == (match shapeless {
            Some(b) => b,
            None => false,
        }),
{
    let shapeless: bool = match shapeless {
        Some(b) => b,
        None => false,
    };
    Compiled { f, shapeless }
}

impl<F> Compiled<F> {
    /// The function this handle was compiled from.
    pub closed spec fn function(&self) -> F {
        self.f
    }

    /// Whether a compiled graph may be reused across input shapes.
    pub closed spec fn is_shapeless(&self) -> bool {
        self.shapeless
    }

    /// Apply the compiled function to `args`: the result is one the function
    /// gives for `args`. Each call runs a fresh copy of the function as it was
    /// compiled, so the handle is the same before and after every call and no
    /// call depends on an earlier one.
    pub fn apply<A, O>(&self, args: A) -> (out: O)
        where
            F: FnMut(A) -> O + Copy,
        requires
            self.function().requires((args,)),
        ensures
            self.function().ensures((args,), out),
    {
        let mut f = self.f;
        f(args)
    }

    /// Whether a compiled graph may be reused across input shapes.
    pub fn shapeless(&self) -> (b: bool)
        ensures
            b == self.is_shapeless(),
    {
        self.shapeless
    }
}

/// A function that can be compiled: one of arrays `A`, with output `O` and
/// error marker `E` (`()` for an infallible function, [`Exception`] for one
/// that returns `Result<O, Exception>`).
pub trait Compile<A, O, E>: Sized {
    /// The type of the arguments that the compiled function takes.
    type Args<'a>;

    /// Compiles the function: the handle applies this very function.
    fn compile<'args>(self, shapeless: bool) -> (c: Compiled<Self>)
        ensures
            c.function() == self,
            c.is_shapeless() == shapeless,
    ;
}

impl<'a, T: 'static, F: FnMut(&[T]) -> Vec<T> + Copy> Compile<&'a [T], Vec<T>, ()> for F {
    type Args<'b> = &'b [T];

    fn compile<'args>(self, shapeless: bool) -> (c: Compiled<F>) {
        compile(self, Some(shapeless))
    }
}

impl<'a, T: 'static, F: FnMut(&T) -> T + Copy> Compile<&'a T, T, ()> for F {
    type Args<'b> = &'b T;

    fn compile<'args>(self, shapeless: bool) -> (c: Compiled<F>) {
        compile(self, Some(shapeless))
    }
}

impl<'a, T: 'static, F: FnMut((&T, &T)) -> T + Copy> Compile<(&'a T, &'a T), T, ()> for F {
    type Args<'b> = (&'b T, &'b T);

    fn compile<'args>(self, shapeless: bool) -> (c: Compiled<F>) {
        compile(self, Some(shapeless))
    }
}

impl<'a, T: 'static, F: FnMut((&T, &T, &T)) -> T + Copy> Compile<(&'a T, &'a T, &'a T), T, ()> for F {
    type Args<'b> = (&'b T, &'b T, &'b T);

    fn compile<'args>(self, shapeless: bool) -> (c: Compiled<F>) {
        compile(self, Some(shapeless))
    }
}

impl<'a, T: 'static, F: FnMut(&[T]) -> Result<Vec<T>, Exception> + Copy> Compile<&'a [T], Vec<T>, Exception> for F {
    type Args<'b> = &'b [T];

    fn compile<'args>(self, shapeless: bool) -> (c: Compiled<F>) {
        compile(self, Some(shapeless))
    }
}

impl<'a, T: 'static, F: FnMut(&T) -> Result<T, Exception> + Copy> Compile<&'a T, T, Exception> for F {
    type Args<'b> = &'b T;

    fn compile<'args>(self, shapeless: bool) -> (c: Compiled<F>) {
        compile(self, Some(shapeless))
    }
}

impl<'a, T: 'static, F: FnMut((&T, &T)) -> Result<T, Exception> + Copy> Compile<(&'a T, &'a T), T, Exception> for F {
    type Args<'b> = (&'b T, &'b T);

    fn compile<'args>(self, shapeless: bool) -> (c: Compiled<F>) {
        compile(self, Some(shapeless))
    }
}

impl<'a, T: 'static, F: FnMut((&T, &T, &T)) -> Result<T, Exception> + Copy> Compile<(&'a T, &'a T, &'a T), T, Exception> for F {
    type Args<'b> = (&'b T, &'b T, &'b T);

    fn compile<'args>(self, shapeless: bool) -> (c: Compiled<F>) {
        compile(self, Some(shapeless))
    }
}

/// A compiled function that can be called with arguments of type `A`,
/// producing `O` on success.
///
/// Which impl serves a call is chosen by the function's type. A verified
/// caller that holds a concrete function type learns what `accepts` and
/// `produces` mean for it from the `lemma_call_mut_*` law of its arity, or
/// calls [`Compiled::apply`], whose contract speaks of the function directly.
pub trait CallMut<A, O, E>: Sized {
    /// Whether the underlying function accepts `args`.
    spec fn accepts(&self, args: A) -> bool;

    /// Whether `out` is a result the underlying function may give for `args`.
    spec fn produces(&self, args: A, out: Result<O, Exception>) -> bool;

    /// Calls the compiled function with the given arguments. The handle is
    /// the same after the call as before it, so every call is governed by the
    /// same `accepts` and `produces`.
    fn call_mut(&mut self, args: A) -> (out: Result<O, Exception>)
        requires
            old(self).accepts(args),
        ensures
            old(self).produces(args, out),
            *final(self) == *old(self),
    ;
}

impl<'a, T, F: FnMut(&[T]) -> Vec<T> + Copy> CallMut<&'a [T], Vec<T>, ()> for Compiled<F> {
    open spec fn accepts(&self, args: &'a [T]) -> bool {
        self.function().requires((args,))
    }

    open spec fn produces(&self, args: &'a [T], out: Result<Vec<T>, Exception>) -> bool {
        out matches Ok(v) && self.function().ensures((args,), v)
    }

    fn call_mut(&mut self, args: &'a [T]) -> (out: Result<Vec<T>, Exception>) {
        Ok(self.apply(args))
    }
}

impl<'a, T, F: FnMut(&T) -> T + Copy> CallMut<&'a T, T, ()> for Compiled<F> {
    open spec fn accepts(&self, args: &'a T) -> bool {
        self.function().requires((args,))
    }

    open spec fn produces(&self, args: &'a T, out: Result<T, Exception>) -> bool {
        out matches Ok(v) && self.function().ensures((args,), v)
    }

    fn call_mut(&mut self, args: &'a T) -> (out: Result<T, Exception>) {
        Ok(self.apply(args))
    }
}

impl<'a, T, F: FnMut((&T, &T)) -> T + Copy> CallMut<(&'a T, &'a T), T, ()> for Compiled<F> {
    open spec fn accepts(&self, args: (&'a T, &'a T)) -> bool {
        self.function().requires((args,))
    }

    open spec fn produces(&self, args: (&'a T, &'a T), out: Result<T, Exception>) -> bool {
        out matches Ok(v) && self.function().ensures((args,), v)
    }

    fn call_mut(&mut self, args: (&'a T, &'a T)) -> (out: Result<T, Exception>) {
        Ok(self.apply(args))
    }
}

impl<'a, T, F: FnMut((&T, &T, &T)) -> T + Copy> CallMut<(&'a T, &'a T, &'a T), T, ()> for Compiled<F> {
    open spec fn accepts(&self, args: (&'a T, &'a T, &'a T)) -> bool {
        self.function().requires((args,))
    }

    open spec fn produces(&self, args: (&'a T, &'a T, &'a T), out: Result<T, Exception>) -> bool {
        out matches Ok(v) && self.function().ensures((args,), v)
    }

    fn call_mut(&mut self, args: (&'a T, &'a T, &'a T)) -> (out: Result<T, Exception>) {
        Ok(self.apply(args))
    }
}

impl<'a, T, F: FnMut(&[T]) -> Result<Vec<T>, Exception> + Copy> CallMut<&'a [T], Vec<T>, Exception> for Compiled<F> {
    open spec fn accepts(&self, args: &'a [T]) -> bool {
        self.function().requires((args,))
    }

    open spec fn produces(&self, args: &'a [T], out: Result<Vec<T>, Exception>) -> bool {
        self.function().ensures((args,), out)
    }

    fn call_mut(&mut self, args: &'a [T]) -> (out: Result<Vec<T>, Exception>) {
        self.apply(args)
    }
}

impl<'a, T, F: FnMut(&T) -> Result<T, Exception> + Copy> CallMut<&'a T, T, Exception> for Compiled<F> {
    open spec fn accepts(&self, args: &'a T) -> bool {
        self.function().requires((args,))
    }

    open spec fn produces(&self, args: &'a T, out: Result<T, Exception>) -> bool {
        self.function().ensures((args,), out)
    }

    fn call_mut(&mut self, args: &'a T) -> (out: Result<T, Exception>) {
        self.apply(args)
    }
}

impl<'a, T, F: FnMut((&T, &T)) -> Result<T, Exception> + Copy> CallMut<(&'a T, &'a T), T, Exception> for Compiled<F> {
    open spec fn accepts(&self, args: (&'a T, &'a T)) -> bool {
        self.function().requires((args,))
    }

    open spec fn produces(&self, args: (&'a T, &'a T), out: Result<T, Exception>) -> bool {
        self.function().ensures((args,), out)
    }

    fn call_mut(&mut self, args: (&'a T, &'a T)) -> (out: Result<T, Exception>) {
        self.apply(args)
    }
}

impl<'a, T, F: FnMut((&T, &T, &T)) -> Result<T, Exception> + Copy> CallMut<(&'a T, &'a T, &'a T), T, Exception> for Compiled<F> {
    open spec fn accepts(&self, args: (&'a T, &'a T, &'a T)) -> bool {
        self.function().requires((args,))
    }

    open spec fn produces(&self, args: (&'a T, &'a T, &'a T), out: Result<T, Exception>) -> bool {
        self.function().ensures((args,), out)
    }

    fn call_mut(&mut self, args: (&'a T, &'a T, &'a T)) -> (out: Result<T, Exception>) {
        self.apply(args)
    }
}

/// Calling a compiled function of a slice of arrays through [`CallMut`] is calling
/// the function: it accepts what the function accepts, never fails, and
/// gives exactly the outputs that the function may give.
pub proof fn lemma_call_mut_slice<'a, T, F: FnMut(&[T]) -> Vec<T> + Copy>(c: Compiled<F>, args: &'a [T])
    ensures
        CallMut::<&'a [T], Vec<T>, ()>::accepts(&c, args) == c.function().requires((args,)),
        forall|out: Result<Vec<T>, Exception>| #[trigger] CallMut::<&'a [T], Vec<T>, ()>::produces(&c, args, out)
            == (out matches Ok(v) && c.function().ensures((args,), v)),
{
}

/// Calling a compiled function of one array through [`CallMut`] is calling
/// the function: it accepts what the function accepts, never fails, and
/// gives exactly the outputs that the function may give.
pub proof fn lemma_call_mut_unary<'a, T, F: FnMut(&T) -> T + Copy>(c: Compiled<F>, args: &'a T)
    ensures
        CallMut::<&'a T, T, ()>::accepts(&c, args) == c.function().requires((args,)),
        forall|out: Result<T, Exception>| #[trigger] CallMut::<&'a T, T, ()>::produces(&c, args, out)
            == (out matches Ok(v) && c.function().ensures((args,), v)),
{
}

/// Calling a compiled function of two arrays through [`CallMut`] is calling
/// the function: it accepts what the function accepts, never fails, and
/// gives exactly the outputs that the function may give.
pub proof fn lemma_call_mut_binary<'a, T, F: FnMut((&T, &T)) -> T + Copy>(c: Compiled<F>, args: (&'a T, &'a T))
    ensures
        CallMut::<(&'a T, &'a T), T, ()>::accepts(&c, args) == c.function().requires((args,)),
        forall|out: Result<T, Exception>| #[trigger] CallMut::<(&'a T, &'a T), T, ()>::produces(&c, args, out)
            == (out matches Ok(v) && c.function().ensures((args,), v)),
{
}

/// Calling a compiled function of three arrays through [`CallMut`] is calling
/// the function: it accepts what the function accepts, never fails, and
/// gives exactly the outputs that the function may give.
pub proof fn lemma_call_mut_ternary<'a, T, F: FnMut((&T, &T, &T)) -> T + Copy>(c: Compiled<F>, args: (&'a T, &'a T, &'a T))
    ensures
        CallMut::<(&'a T, &'a T, &'a T), T, ()>::accepts(&c, args) == c.function().requires((args,)),
        forall|out: Result<T, Exception>| #[trigger] CallMut::<(&'a T, &'a T, &'a T), T, ()>::produces(&c, args, out)
            == (out matches Ok(v) && c.function().ensures((args,), v)),
{
}

/// Calling a compiled fallible function of a slice of arrays through [`CallMut`] is
/// calling the function: it accepts what the function accepts, and gives
/// exactly the results, `Ok` or `Err`, that the function may give.
pub proof fn lemma_call_mut_slice_fallible<'a, T, F: FnMut(&[T]) -> Result<Vec<T>, Exception> + Copy>(c: Compiled<F>, args: &'a [T])
    ensures
        CallMut::<&'a [T], Vec<T>, Exception>::accepts(&c, args) == c.function().requires((args,)),
        forall|out: Result<Vec<T>, Exception>| #[trigger] CallMut::<&'a [T], Vec<T>, Exception>::produces(&c, args, out)
            == c.function().ensures((args,), out),
{
}

/// Calling a compiled fallible function of one array through [`CallMut`] is
/// calling the function: it accepts what the function accepts, and gives
/// exactly the results, `Ok` or `Err`, that the function may give.
pub proof fn lemma_call_mut_unary_fallible<'a, T, F: FnMut(&T) -> Result<T, Exception> + Copy>(c: Compiled<F>, args: &'a T)
    ensures
        CallMut::<&'a T, T, Exception>::accepts(&c, args) == c.function().requires((args,)),
        forall|out: Result<T, Exception>| #[trigger] CallMut::<&'a T, T, Exception>::produces(&c, args, out)
            == c.function().ensures((args,), out),
{
}

/// Calling a compiled fallible function of two arrays through [`CallMut`] is
/// calling the function: it accepts what the function accepts, and gives
/// exactly the results, `Ok` or `Err`, that the function may give.
pub proof fn lemma_call_mut_binary_fallible<'a, T, F: FnMut((&T, &T)) -> Result<T, Exception> + Copy>(c: Compiled<F>, args: (&'a T, &'a T))
    ensures
        CallMut::<(&'a T, &'a T), T, Exception>::accepts(&c, args) == c.function().requires((args,)),
        forall|out: Result<T, Exception>| #[trigger] CallMut::<(&'a T, &'a T), T, Exception>::produces(&c, args, out)
            == c.function().ensures((args,), out),
{
}

/// Calling a compiled fallible function of three arrays through [`CallMut`] is
/// calling the function: it accepts what the function accepts, and gives
/// exactly the results, `Ok` or `Err`, that the function may give.
pub proof fn lemma_call_mut_ternary_fallible<'a, T, F: FnMut((&T, &T, &T)) -> Result<T, Exception> + Copy>(c: Compiled<F>, args: (&'a T, &'a T, &'a T))
    ensures
        CallMut::<(&'a T, &'a T, &'a T), T, Exception>::accepts(&c, args) == c.function().requires((args,)),
        forall|out: Result<T, Exception>| #[trigger] CallMut::<(&'a T, &'a T, &'a T), T, Exception>::produces(&c, args, out)
            == c.function().ensures((args,), out),
{
}

/// The output of a compiled function of one, two or three arrays, from the
/// outputs the backend handed back: the first of them, or an error when it
/// handed back none.
pub fn first_output<T>(outputs: Vec<T>) -> (r: Result<T, Exception>)
    ensures
        outputs@.len() > 0 ==> r == Ok::<T, Exception>(outputs@[0]),
        outputs@.len() == 0 ==> (r matches Err(e) && e.message() == "compiled function returned no output"@),
{
    let mut outputs = outputs;
    if outputs.len() == 0 {
        proof { reveal_strlit("compiled function returned no output"); }
        return Err(Exception::custom("compiled function returned no output"));
    }
    Ok(outputs.remove(0))
}

/// Process-wide bookkeeping of the compiler cache: the next identity to hand
/// to a compiled handle, the identities handed out so far, and the generation
/// of the cache.
pub struct CompileCacheState {
    next_id: usize,
    issued: Ghost<Set<usize>>,
    generation: u64,
}

impl CompileCacheState {
    /// Every identity handed out so far is below the next one, and identities
    /// start at 1.
    #[verifier::type_invariant]
    spec fn well_formed(self) -> bool {
        &&& 1 <= self.next_id
        &&& forall|i: usize| #[trigger] self.issued@.contains(i) ==> 1 <= i < self.next_id
    }

    /// The identity the next compiled handle will receive.
    pub closed spec fn next_id_spec(&self) -> usize {
        self.next_id
    }

    /// The identities handed out so far.
    pub closed spec fn issued_spec(&self) -> Set<usize> {
        self.issued@
    }

    /// How many times the cache has been cleared, modulo 2^64.
    pub closed spec fn generation_spec(&self) -> u64 {
        self.generation
    }

    /// The state at process start: identities begin at 1, none has been
    /// handed out, and the cache is at generation 0.
    pub fn new() -> (s: CompileCacheState)
        ensures
            s.next_id_spec() == 1,
            s.issued_spec() == Set::<usize>::empty(),
            s.generation_spec() == 0,
    {
        CompileCacheState { next_id: 1, issued: Ghost(Set::empty()), generation: 0 }
    }

    /// Hand out a fresh compile identity: one never handed out before.
    ///
    /// Returns `None`, leaving the state unchanged, once every identity up to
    /// `usize::MAX - 1` has been handed out.
    pub fn new_compile_id(&mut self) -> (id: Option<usize>)
        ensures
            old(self).next_id_spec() < usize::MAX ==> {
                &&& id == Some(old(self).next_id_spec())
                &&& final(self).next_id_spec() == old(self).next_id_spec() + 1
                &&& final(self).issued_spec() == old(self).issued_spec().insert(id->0)
            },
            old(self).next_id_spec() == usize::MAX ==> {
                &&& id is None
                &&& final(self).next_id_spec() == old(self).next_id_spec()
                &&& final(self).issued_spec() == old(self).issued_spec()
            },
            id matches Some(i) ==> !old(self).issued_spec().contains(i),
            final(self).generation_spec() == old(self).generation_spec(),
    {
        proof { use_type_invariant(&*self); }
        if self.next_id == usize::MAX {
            return None;
        }
        let id: usize = self.next_id;
        let ghost issued = self.issued@.insert(id);
        *self = CompileCacheState { next_id: id + 1, issued: Ghost(issued), generation: self.generation };
        Some(id)
    }
}

/// The generation after `g`: one more, wrapping around at `u64::MAX`.
pub open spec fn next_generation(g: u64) -> u64 {
    if g == u64::MAX {
        0
    } else {
        (g + 1) as u64
    }
}

/// Advance the compiler cache to its next generation, as clearing the cache
/// does. The counter wraps around at `u64::MAX`.
pub fn clear_cache(state: &mut CompileCacheState)
    ensures
        final(state).generation_spec() == next_generation(old(state).generation_spec()),
        final(state).next_id_spec() == old(state).next_id_spec(),
        final(state).issued_spec() == old(state).issued_spec(),
{
    proof { use_type_invariant(&*state); }
    let generation: u64 = state.generation.wrapping_add(1);
    *state = CompileCacheState { next_id: state.next_id, issued: Ghost(state.issued@), generation };
}

/// Generation of the compiler cache: how many times it has been cleared.
pub fn cache_generation(state: &CompileCacheState) -> (g: u64)
    ensures
        g == state.generation_spec(),
{
    state.generation
}

/// Clearing the cache always moves it to a generation it was not at before,
/// and to a strictly later one unless the counter wraps at `u64::MAX`.
pub proof fn lemma_generation_advances(g: u64)
    ensures
        next_generation(g) != g,
        g < u64::MAX ==> next_generation(g) > g,
{
}

} // verus!
