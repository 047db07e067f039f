# oneai_domain

Domain packs for agents: the tools, sources of context, permissions, strategies,
memory and workflows that make an agent fit for a domain, and how packs are
configured, validated, installed and merged.

- `src/` is the library, verified with Verus. Every function says in its contract
  what it returns; functions named `law_…` state what holds across them.
- `app/` reads and writes: files, processes, the clock, models and stores. It hands
  the library plain values and does what the library decided.
- `tests/` runs the library on concrete values.

What the library believes of other crates without a proof stands in `data.rs`
(`serde_json`, `toml`), `patterns.rs` (`regex`), `text.rs` (letters and their case),
`types.rs` (`base64`, `uuid`) and `usage.rs` (the clock, by `chrono`).
