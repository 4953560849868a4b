# mylm_core

The core of the mylm terminal assistant, written in Verus: every function in
`src/` carries a contract that Verus proves.

## Layout

- `src/text.rs` – string helpers over character sequences (search, trim,
  split, decimal formatting, number parsing) with their specifications.
- `src/named_map.rs` – an insertion-ordered map keyed by strings.
- `src/json.rs` – the JSON values the library reads, through `serde_json`.
- `src/agent/` – the agent: identifiers and events (`types`), the tools'
  decisions (`tools`), the terminal interface (`traits`), the worker
  collector (`worker`) and the V2 agent (`v2`): the Short-Key protocol
  parser, background jobs, prompts, memory context, recovery, and the
  decisions of the drivers and orchestrator loops.
- `src/config/` – settings and their defaults, merging, environment
  overrides, profile resolution, the prompt loader and renderer, and the
  rate limiting of the configuration manager.
- `src/context/` – git context and terminal context packs.
- `tests/` – tests of the library.
- `app/` – what is not verified: file and environment access, serde forms of
  the library's types, terminals and threads, and the figures kept as
  floating point.

Laws of the library stand as public proof functions beside the functions they
speak of (their names begin with `lemma_`).

## Checking

Run Verus on `src/lib.rs`; the tests run against the compiled library.
