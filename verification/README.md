# baibot command handling, verified

The command handling of a Matrix bot that serves AI agents, written in Verus:
every decision the bot takes about a message is an executable function whose
contract states its result, and the promises that span several functions are
proof functions.

## Layout

- `src/text.rs`: character-level text operations (trimming, prefixes,
  splitting, joining, lower-casing) with their specifications.
- `src/number.rs`: the syntax of floating-point numbers that numeric settings
  accept.
- `src/agent.rs`: agent purposes, public identifiers (`KIND/ID`) and agent
  definitions.
- `src/roomconfig.rs`: the values of room and global settings and the
  settings themselves.
- `src/yaml.rs`: reading agent configurations as YAML (through `serde_yaml`).
- `src/strings/`: the texts of the messages that the decisions produce.
- `src/controller/`: choosing the controller for a message
  (`determination.rs`) and the decisions of each controller: access
  (patterns checked through `mxidwc`), agents, configuration (commands,
  their effect on settings, the status report, the help about settings),
  chat completion, images, reactions, and the aggregation of messages.
- `tests/`: tests of the library on concrete values.
- `app/`: what runs around the library: the aggregator's configuration file
  format, the clock and polling loop, and the floating-point values of
  numeric settings.
