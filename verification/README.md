# oneapi-rs

Rust bindings for the oneAPI Unified Runtime and for a small C shim around
SYCL, with the decisions of the bindings verified by Verus.

- `src/` is the verified library. It translates result codes, checks the
  byte sizes of allocations and copies, picks devices, and holds the state
  machines that decide which runtime call comes next while devices are
  discovered and contexts are created, and which handles each path must
  release. It also decides how the process environment is set up for the
  oneAPI runtime, which build-script lines are printed, where `ocloc` is
  looked for, and how the binding generators resolve their paths. Handles
  are plain integers in the library.
- `app/` is the plain Rust around it: the native declarations, the owning
  handles that release what they hold when dropped, the loop that performs
  each call a state machine asks for, the process environment, and the two
  binding generators (bindgen, clap, anyhow).
- `tests/` exercises the library on concrete values.
- `extras/sycl/` holds the C header and the C++ source of the SYCL shim that
  the SYCL generator installs next to the generated bindings.
