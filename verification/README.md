# Quarterdeck

A tray companion for coding agents: it watches the sessions that run on a machine,
shows what each of them is doing, and lets an agent ask its human a question.

- `src/` is the library: the rules of the program as functions on plain values, each
  with a contract that Verus proves. Believed without proof is what the wrappers around
  other code say: reading and writing JSON, splitting text into grapheme clusters, lower
  case, quoting, and building a string from its characters. Of the random words in a
  token nothing is claimed.
- `app/` is the program: windows, tray, toasts, files, the local server and the
  engine that follows the sessions.
- `tests/` runs the library on concrete values.

The deck (`src/deck.rs`, `src/perms.rs`) holds the questions and permission requests
that wait for the user. The server (`src/mcp_server.rs`) decides what an agent's
request means and how it is answered. The shell (`src/shell.rs`) decides what is shown
and when. What holds of the deck over several steps is stated in `src/deck_laws.rs`;
other laws stand beside the functions that they are about.
