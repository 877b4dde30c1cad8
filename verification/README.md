# nccl

Bindings for the NCCL collective-communication library, in two parts.

`src/` is the verified library (Verus). It holds everything the bindings
decide: the C ABI's codes, version formula and configuration records
(`abi`), result codes and errors (`result`), element types, reduction
operations and bootstrap identifiers (`types`), owned configurations
(`config`), NCCL allocations (`memory`), communicators and the handles made
through them (`comm`), group scopes as a state machine (`group`) and runtime
parameters (`param`). Each function states in its contract exactly what it
returns; handles are never null and a communicator handle is given up for
destruction at most once.

`app/` performs the libnccl calls through `extern "C"`, turns C pointers into
the library's plain values and back, and owns the RAII types whose
destructors release NCCL handles.

`tests/` exercises the library on concrete values.
