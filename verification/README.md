# mlx_rs

Verified core of a Rust binding layer for MLX.

- `src/` is the library, checked with Verus: the decisions and bookkeeping of
  the bindings, with their contracts.
  - `compile`: compiled function handles (on every call, for every arity and
    fallibility, the output of the function as compiled; each call runs a
    fresh copy of it), compile identities and the compiler-cache
    generation counter.
  - `random`: owned key streams; the key of a draw depends on the seed and the
    number of earlier draws only. Also the seed made from a clock reading, and
    the plan that brings a native key stream to a given key (restart or keep
    splitting).
  - `sampler`: temperature sampling steps (greedy argmax, or a categorical draw
    over the scaled logits with the sampler's own next key; a failed scaling
    draws no key).
  - `dropout`: forward-pass decisions of the dropout layers: identity, or a
    Bernoulli mask of a given shape drawn with the layer's own next key; the
    rank checks of the channel-wise layers.
  - `fast`: attention mask modes, custom Metal kernel descriptions (every
    string checked for NUL bytes), dispatch builders, the order of their
    configuration calls and the check of template parameter names, and status
    checks.
  - `text`, `error`, `dtype`: decimal rendering and NUL detection, the
    exception type, element types.
- `app/` is the native side: the MLX C API calls, floating-point parameters,
  the memory controls, fused kernels, and the handles that compile functions
  with the backend (one-shot and retained); these native handles are not
  verified.
- `tests/` exercises the library.
