# mcp_workflow

Workflow orchestration for AI agents, as a library verified with Verus, and
an MCP server around it.

- `src/` is the library. Its contracts say what every operation does to the
  records it keeps:
  - `domain` and `engine`: the step-based model. Workflow definitions are lists
    of typed steps; `Engine::seeded` holds three demo workflows (onboarding,
    deployment, expense approval) and one onboarding instance waiting for
    approval; `Engine::advance_instance` moves an instance past its current
    step, unless an approval of that step is still pending.
  - `types`, `store` and `server`: the state-machine model. Workflows have
    states and transitions; instances move by actions along the transitions
    until they reach a terminal state; tasks, approvals (routed to one or more approvers, settled once every approver has decided) and cases (with notes)
    are kept beside them. Each kind of record is a map from identifier to
    record.
  - `keyed`: vectors of records with distinct identifiers, and the maps they
    stand for.
  - `ids`: fresh identifiers (the first eight hexadecimal digits of a random
    UUID) and timestamps.
  - `laws`: properties over any inputs and over several requests, such as
    that refused requests change nothing and that a settled approval stays
    settled.
- `app/` is the MCP server over stdio: it reads each tool's request, calls the
  library, and writes the answer as JSON.
- `tests/` runs the library on concrete values.
