# klass_gateway

The verified core of the Klass API gateway, written in Verus. The library
holds the rules the gateway applies. `app/` holds the database access of
the repositories, the clock and the floating-point scoring around it. The
LLM services, the step adapters, the publication service and the renderer
client drive provider, cache, storage and renderer calls that rest on
components outside this repository; the library holds their decisions (the
governed-call state machine, request and result building, error mapping,
publication planning, compensation), and no driver for those calls is
included.

## Layout

- `src/db` — pagination, SQL statement parts, pairing fetched rows by key,
  taxonomy seeding, and the repositories' filters, merge rules and plans
  (settings coercion, recommendation tracking, recommended-project
  visibility, payload updates, a generation's related rows, the generation
  chain walk).
- `src/governance` — decimal money and UTC instants, the price catalog's
  cost estimate, rate-limit windows and exhaustion decisions, ledger entries.
- `src/llm` — prompt clarification (questions, suggested and enriched
  prompts, topic extraction, preflight), the governed-call state machine,
  what the ledger records of a call, the requests and results of the
  interpret, draft and compose calls, and the errors each step fails with.
- `src/media_gen` — artifact integrity, MIME defaults, thumbnails, delivery
  payloads, publication planning, and the renderer client's URLs, request
  body and error mapping.
- `src/matching.rs` — deterministic match seeds and their SHA-256 values.
- `src/server.rs` — allowed cross-origin settings.
- `src/text.rs`, `src/json.rs` — character-sequence helpers and a plain JSON
  value type with their specifications.
- `tests/` — tests of the library.
- `app/` — the database-backed repositories and governance records that
  drive the library.

## Checking

Every function in `src/` is checked by Verus against its `requires` and
`ensures`; the public proof functions state the library's laws (page
bounds, rate-limit windows, lock handling of cached calls, seeding
uniqueness, bounded chain walks, and more).
