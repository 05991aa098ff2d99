# soroban_registry

Verified core of the Soroban registry's backend services and command-line tool,
written in Verus.

- `src/` — the verified library:
  - `json` — JSON values and their mathematical model; their compact text comes
    from `serde_json`;
  - `text` — string helpers proved against specs over `Seq<char>`;
  - `redaction` — redaction of sensitive entries before logging, with its laws;
  - `cli::output_format` — output formats, their names and file extensions, and
    rendering as pretty JSON, YAML and CSV;
  - `cli::contract_dependency` — the dependency request, how its response is judged,
    the listing, the tree, the flat CSV rows and the machine-readable report;
  - `shared::error` — error codes, categories and the registry error;
  - `shared::logging`, `api::logging` — logging settings, log events, backtraces,
    sensitive keys;
  - `api::config` — the API configuration and its validation.
- `app/` — what Verus does not check: environment and network access, printing,
  serde conversions, and the tracing and OpenTelemetry backends.
- `tests/` — tests of the library.
