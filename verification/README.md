# oopsla2024_benchmarks

Builds the request batches that the SAPL authorization engine evaluates in the
OOPSLA 2024 authorization benchmarks, together with the decisions of the
benchmark driver around them, as a library whose functions carry contracts
proved with Verus.

- `src/json.rs`: a JSON document model; an object is an ordered list of
  entries with no key twice, meaning a finite map.
- `src/entity.rs`: entities and requests as plain values (identifiers as type
  name and raw id, attributes by the kinds the batches read).
- `src/sapl_requests/`: SAPL identifiers, the entity graph, subscriptions, the
  default algorithm, and the per-application batches (GitHub, GDrive, TinyTodo).
- `src/sapl_engine.rs`: which batch an application gets; reports from SAPL's
  answers.
- `src/bench.rs`: command-line values, the experiment plan, engine order,
  request selection, and the agreement check of the engines' decisions.
- `app/`: the command line (clap), the SAPL process (I/O, serde), and the
  conversions from cedar-policy-core's and serde_json's values.

The benchmark driver itself (`main`, the experiment loop and the CSV and plot
output) is not here: it is built on the benchmark crate's applications,
engines and report types, whose source is not part of this project; its
decisions stand in `src/bench.rs` and its SAPL-specific steps in `app/`.
