# copilot_cli

A driver for the GitHub Copilot command line agent (`copilot`). A request is turned
into one run of the agent, and what the agent prints is turned into a stream of events
and a reply.

`src/` is the library, verified with Verus. It does no I/O:

- `driver`: the driver's settings, the agent's version, model names
- `prompt`: a conversation as one text
- `command`: program, arguments and environment of a run
- `environment`: which variables the agent does not inherit
- `session`: what to do with each thing that happens during a run
- `event`, `message`, `llm`: the data that these work on
- `text`: text operations, with the three calls into the standard library whose
  contracts are trusted
- `laws`: what holds of the driver as a whole

`app/` runs the process, reads its output, parses each line as JSON, and hands plain
values to the library. `tests/` runs the library on concrete values.
