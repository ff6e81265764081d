# via

The core of a small web framework: request and response bodies, the
middleware that comes with it (routing by method, cookies, web sockets,
timeouts, error recovery) and its errors, written in Verus so that each
decision is proved against its contract.

- `src/` is the verified library. Each body, reader and middleware is a
  value with a model (`spec` functions and views) and functions that take
  what the runtime observed (a frame, a write, a header) and return what
  to do next, with `requires`/`ensures` over that model. Laws that span
  several calls stand as public `proof fn`s beside the types they are
  about: a reader collects every frame in order, a tee yields only what
  its writer accepted, a length-limited body never passes on more than
  its limit.
- `src/bindings/` holds the contracts of the functions of other crates
  (`bytes`, `http`, `http-body`, `cookie`, `ring`, `base64`,
  `serde_json`, `tokio-websockets`) and of the parts of `std` that `vstd`
  does not specify.
- `app/` is the runtime around the library: `Body`, `Stream` and
  `Future` impls that poll and write, the web socket session loop, and
  conversions to and from outside types.
- `tests/` runs the library on concrete values.

`Predicate` has no blanket impl for closures `Fn(&Request) -> bool`: its
contract ties `matches` to a deterministic `spec_matches`, which Verus
cannot read off an arbitrary closure, whose `ensures` is only a relation
between argument and result. Users implement the trait on a type of their
own.
