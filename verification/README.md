# csx

The core of the Chainsight command-line tool, written in Verus: the naming
of project paths, the component manifests and what is derived from them
(metadata tags, sources, setup scripts, setup arguments), the generated
Cargo and dfx files, the record of deployed canister ids, the dfx commands
the tool runs and the version it parses, the source text of generated
canisters (snapshot indexers of contracts, canisters and JSON-RPC
endpoints, the logic templates of algorithm indexers and lenses, and the
Rust bindings of a candid file), and
the small parsers it relies on (canister method identifiers, contract
method signatures, RPC URLs).

Layout:

- `src/` — the library; every function carries a contract that Verus
  proves. Calls into outside crates (candid, ethabi, url, dns-lookup,
  regex, regex-syntax, Inflector, serde_json, serde_yaml, syn) sit behind small wrappers whose
  documentation says what is assumed of them. `src/laws.rs` and a few
  modules hold proof functions that state properties spanning several
  operations.
- `tests/` — tests that run the library on concrete values.
- `app/` — the command-line program: argument handling, files, environment
  variables, running dfx, asking the user, logging, and the YAML/JSON forms
  of the manifests and records, and the candid encoding of a relayer's
  setup arguments. Its commands check a manifest, print a component's
  generated code, the Rust bindings of its candid file or a relayer's
  encoded setup arguments, and list canister ids and wallets.
