# csmlinterpreter

The verified core of a conversational-script engine, written in Verus.

- `src/ast.rs`: the syntax tree of scripts, literals and their total order.
- `src/ast_interpreter.rs`: the interpreter: conditions, actions, `say`/`ask`/`retry`,
  `if` and `goto`, with a specification of each as spec functions.
- `src/message.rs`: messages and the result of a block (`RootInterface`), and how results merge.
- `src/builtins.rs`, `src/event.rs`, `src/text.rs`: builtins, incoming events, string equality.
- `src/laws.rs`: properties proved of the interpreter (ordering of literals, sequencing of
  blocks, `goto` ending a block or an `if` body, the connectives of conditions).
- `src/tools.rs`, `src/error_format.rs`: integer division checks and error values.
- `src/configuration.rs`, `src/bot_store.rs`: the pure parts of the service configuration and of
  the bot store (query parameters, selection of query results, base64 decoding of stored bots).
- `app/`: what stays outside the verified library: float parsing, the HTTP client configuration
  and the DynamoDB calls.
