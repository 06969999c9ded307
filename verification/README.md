# bmad-plugin

The BMAD-METHOD step executor plugin for Pulse: a roster of twelve AI agent
personas (architect, developer, PM, QA, UX designer, security, DevOps, ...)
served as one step executor, and the converter that turns agent definition
files (Markdown with a YAML front matter) into the Rust modules of the roster.

The plugin carries prompt data only: for a step naming an agent, it hands
back that agent's system prompt, the step's text as user context, the
agent's suggested runtime settings and its metadata. Pulse runs the model.

## Layout

- `src/` is the library, verified with Verus. Every function states its
  behaviour in `requires` / `ensures` over spec functions and views, and the
  properties that span several functions stand as proof functions.
  - `generated/`: the roster, one module per agent, and `generated.rs`,
    which lists them (`roster()` in specifications).
  - `registry.rs`: lookup of agents by executor name over a sorted,
    duplicate-free table; the probe of every agent.
  - `executor.rs`: the executor of one agent: which agent an input asks
    for, which text it works on, and when that text is refused.
  - `plugin.rs`: the plugin: requests, the choice of agent, the errors.
  - `converter.rs` and `codegen.rs`: reading agent files and writing the
    modules of the roster.
  - `text.rs`: the string functions the rest is built on.
  - `config.rs`, `error.rs`, `metadata.rs`, `output.rs`, `verification.rs`,
    `pulse_api_stub.rs`: the shared types.
- `tests/` runs the library on concrete values.
- `app/` is the program around it: the command line (`serve`, `api-version`,
  `convert`), file system access, JSON and YAML through serde, and the
  Pulse plugin SDK.
