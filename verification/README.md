# loom

Context management and multi-agent coordination for coding agents, with its
deterministic core verified by Verus.

- `src/` is the verified library: identifiers, resource budgets and usage,
  reasoning strategies and their statistics, prompt sections, task events and
  their filters, back-pressure for planner queues, verdicts, the planner's
  decisions and book-keeping, drift-correction reports, strategy feedback,
  context assembly helpers, the reading of failed verifications into error
  memories, task stages, the indexes and pruning of a memory store,
  event-history queries and the reading back of stored records. Every public
  function states its result in `ensures`; the laws that relate several
  functions are public proof functions named `lemma_*`.
- `app/` is the runtime around it: serialization, SQLite storage, the event bus,
  the agents' loops, the HTTP routes, and the parts that compute in floating
  point.
- `tests/` exercises the library from outside.
