# MyBuddy runtime

The in-process sampling facade of MyBuddy, written in Verus: its rules are stated
in `requires` / `ensures` contracts and proved.

`src/` is the library. It performs no I/O and starts no process. What only an engine
can decide (the summary prompt and the verdict on a summary, the effective overrides
of a subagent, the intersection of two capability modes, the events of a turn) comes
in as a plain value, and the library is verified for every such value.

| Module         | What it holds                                                      |
|----------------|--------------------------------------------------------------------|
| `text`         | trimming, prefixes, equality, decimals, quoted strings             |
| `config`       | the model configuration, its validation and its redacted debug text |
| `conversation` | turn requests and the conversation submitted for them              |
| `compaction`   | compaction requests and compacted histories                        |
| `subagent`     | subagent types, and the names of efforts, capabilities, isolation  |
| `catalog`      | the rules on a catalogue of roles and personas                     |
| `resolution`   | checks on a spawn, what the engine is asked, and the plan          |
| `outcome`      | what a spawn comes to, as one function of its inputs and the engine |
| `policy`       | laws of a plan: precedence, ceilings, failing closed               |
| `invariance`   | laws on what a plan does not depend on                             |
| `sampler`      | the set-up of a sampler, and the sampler that turns start on       |
| `event`        | what a sampler reports, and what a product sees of it              |

`app/` is ordinary Rust around the library: the types as they travel (serde), the
errors as `std::error::Error`, and the calls into the Grok Build engines and Tokio.

`tests/` runs the library on concrete values.
