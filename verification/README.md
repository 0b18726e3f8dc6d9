# libuv

A wrapper around [libuv] whose decisions are verified with Verus.

- `src/` is the library: libuv's error codes and their decoding, the handle, request and
  file-system request types, the flag sets, socket addresses and address lookups, the records
  of the operating-system queries, the strings handed to a spawned process, and what the
  callbacks receive. Each public function has a contract, and the laws that tie functions
  together (codes that decode back to what they encode, addresses that come back from their
  description, the flag operations) are public proof functions.
- `app/` holds the calls into libuv itself (through `libuv-sys2`), the raw pointers and the
  event-loop plumbing; it hands the library plain values and takes plain values back.
- `tests/` runs the library on concrete values.

The numeric constants (error codes, address families) are those of Linux.

[libuv]: https://libuv.org/
