# embed_probe

The decisions of an embedder of a JavaScript machine: what to do with the machine next, which
answer is the right one, and with which status a probe or an invocation ends.

- `src/` is the library. Every function in it is verified with Verus against its contract, but for
  three wrappers around calls of std and `bstr`, which are named below. The public proof functions
  whose names begin with `law_` state what holds of the library as a whole.
- `tests/` runs the library on concrete values, with a machine that behaves and with machines that
  do not.
- `app/` is the embedder around the library: the C entry points, threads and clocks, and the calls
  into Bun. It links Bun's own crates and the generated program bundle
  (`app/nimbus_generated_program_bundle.js`), which come from the build of the embedder.

The library takes three facts on trust: what std writes for the `Debug` form of a string, which is
the string as it is between double quotes where it is plain; which byte strings std takes for UTF-8;
and what `bstr` shows of bytes that need not be text. They stand in `src/text.rs`.
