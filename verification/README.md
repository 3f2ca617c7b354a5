# koutendb

A driver for the KoutenDB database core, split in two.

- `src/` is the verified library (Verus). It holds the driver's own logic
  with contracts: reading and writing ids (`id`), payload codecs and UTF-8
  payloads (`codec`), errors, their classification and the checks on what
  is handed to C (`error`), the option builders (`options`), retrieval
  results (`retrieve`), and the text handling they share (`text`).
- `app/` is the driver proper: the C ABI of the core, the calls into it,
  and the floating-point parts (write times, scores), which the library
  keeps as IEEE bit patterns.
- `tests/` exercises the library.
