# forgeos

The ForgeOS command line: a client of the ForgeOS platform API.

What a command decides is in the library under `src/`, written in Verus and proved
against its contracts. A command is a function, or a chain of states, that says
which request to send, which lines to show and what to do with the answer; it does
no I/O. The program under `app/` does that: it parses arguments, talks to the
server, reads the terminal, runs the editor and sleeps between two looks at a run.

```bash
forgeos invoke <agent_id> "prompt"   # fire-and-return; --wait to block on the result
forgeos chat <agent_id>              # talk to an agent, approving its actions inline
forgeos edit <agent_id>              # edit an agent's manifest in $EDITOR
forgeos runs status|watch <run_id>   # where a run stands
forgeos approvals list|approve|reject
forgeos mcp register|list|rm
```

## Layout

- `src/text.rs`: order, trimming, lines, words, padding, decimal numbers
- `src/json.rs`, `src/codec.rs`, `src/yaml.rs`: JSON values, and their way to and
  from serde_json and serde_yaml
- `src/env.rs`: environment variables, in order of their names
- `src/effect.rs`: requests and lines for the terminal
- `src/cmd/`: one module for each command; `run_poll.rs` is how a run is polled, and
  `turn.rs` one turn of a chat

What holds of a command as a whole (a request is decided on at most once in a turn,
the end of input never approves, polling a dead server ends) is stated in the proof
functions whose names begin with `law_`.

## License

BUSL-1.1
