# native_programs

Bookkeeping for the native programs of a kernel, verified with Verus.

- `src/collection.rs`: the collection of programs. Which program handles an interface, which
  program waits for a response, and what the events of the programs become.
- `src/adapter.rs`: the same for one program.
- `src/interface.rs`: the message by which a program registers an interface.
- `src/ffi.rs`: the messages that the kernel hands to programs, with their encoding.
- `src/wire.rs`: encoding and decoding in general.
- `src/scale.rs`, `src/sets.rs`: what is taken from the `parity-scale-codec` and `hashbrown` crates,
  with the contracts that are relied on.
- `src/laws.rs`: what holds of collections over any sequence of operations, of polls, and of
  encodings.
- `app/`: the collection behind futures, trait objects and shared references, and the calls that
  the kernel offers to programs.

A collection is told, when it is built, through which interface programs register interfaces. The
messages of that interface are defined elsewhere; their format is assumed.

A poll of a program takes a context and gives one back. As only polls do so, the contracts of the
functions that poll say, by the contexts, which programs are polled, how often and in what order.
