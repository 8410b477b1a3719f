# wrldbldr_engine

The engine behind WrldBldr, a tabletop role-playing game with a language
model voicing its NPCs and a dungeon master approving what they say.

- `src/` is the library, written in Verus: every function carries a
  `requires`/`ensures` contract that Verus proves. It holds the game
  sessions (participants, conversation history, approvals waiting for the
  dungeon master) and their manager, the prompt built for the language
  model, the WebSocket handler's step on each client message (its reply,
  or the outside work it hands on) and the background workers' decisions,
  the validation of HTTP requests and the answers built from their
  results, the queue health report, and the codecs that write world data
  to the store and decode the store's nodes. Its laws (round trips of
  the codecs of single fields and kinds, one dungeon master per session, the history keeping the
  latest turns, each approval announced once, ...) are public proof
  functions.
- `app/` is the server around it: configuration from the environment,
  the HTTP routes over the session manager, and the ComfyUI client. The
  graph store, the language model and the queues are not connected here.
- `tests/` exercise the library on concrete values.
