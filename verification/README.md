# cgeos2

The CGEOS2 command-line client for exercising the Access Service and Client
Service boundaries.

- `src/` is the verified library (Verus): the one-time code read from
  standard input (`code`), request identifiers (`request_id`, `decimal`),
  UUID text and operation ids (`ids`), the Terminal requests of each
  operation and the inputs refused before sending (`operations`), the polling
  and readiness decisions (`polling`), login material (`auth`), the Terminal
  address (`address`) and the output envelope (`output`).
- `app/` is the program: argument parsing with clap, the login and Terminal
  runtime of `cgeos_sdk_shared`, the Access Service calls, standard input,
  DNS resolution, the waiting loops and JSON output.
- `tests/` exercises the library.
