# controlplane

A guardrail service for LLM requests. A query passes a Tier 0 heuristic
prefilter, then Tier 1 input gates (coherence, PII, toxicity, prompt
injection) run concurrently; only if none blocks is the LLM asked, and its
response then passes Tier 2 output gates (grounding, relevance). Each gate
has a timeout and a fail-open or fail-closed policy; a dry-run mode reports
every verdict without blocking.

## Layout

- `src/` — the library, verified with Verus: verdicts and errors, the
  executor's and the pipeline's decision state machines, the gates' rules
  (length and token-range screens, Luhn and Verhoeff checks, PII scanning
  and masking, label layouts), model discovery decisions, session pools,
  tokenization, the deterministic stub backend, LLM request and reply
  handling, and configuration defaults. Public proof functions named
  `law_*` state the properties that hold across calls.
- `tests/` — tests of the library on concrete values.
- `app/` — the service around the library: configuration loading, the
  HTTP API, the concurrent fan-out (timers and cancellation), ONNX Runtime
  sessions, the LLM clients, and the gates' float scoring.
