# pytauri_core

The verified core of Python bindings for a desktop web-view framework.

- `src/` (Verus): the logic, with contracts.
  - `slot`: a holder whose value is taken out once; laws on any sequence of
    takes and borrows.
  - `header`: the HTTP header types of an IPC message and the three calls
    made into them.
  - `ipc`: reading the called function's name, the invocation and its
    resolver (answered at most once), and binding the arguments a handler
    asks for.
  - `run_event`: what Python sees of a run event.
  - `app_handle`: finding the shared application handle.
  - `app`: the application (run once, borrowed otherwise) and its context.
- `app/`: the `#[pyclass]` types, locking, and the calls into the
  framework and Python.
- `tests/`: tests of the library on concrete values.
