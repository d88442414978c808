# debugger

A command-line debugger for LLM coding agents. It drives debug adapters
(lldb-dap, CodeLLDB, GDB, debugpy, Delve, js-debug) through the Debug
Adapter Protocol, and keeps a session alive in a background daemon so that
short-lived commands (`start`, `break`, `continue`, `await`, `locals`, ...)
can work on one program.

## Layout

- `src/` is the library, written in Verus and verified: the DAP message
  framing and event reading, the daemon's protocol and the error values it
  carries, the session's state machine, output buffer and breakpoint store,
  the command line's requests and printed text, the test-scenario runner's
  command parser and checks, the adapters' installation decisions, the
  configuration file's adapter entries, and a scripted mock adapter. Each
  public function states its result in its contract; the `law_*` proof
  functions state what holds across calls (framing round trips, breakpoint
  identifiers, what a stop allows, the mock adapter's reply numbering, ...).
- `app/` is the program around it: argument parsing, the local socket, the
  daemon's event loop, adapter processes, downloads and archives, files and
  the terminal. It hands plain values to the library and acts on what comes
  back.
- `tests/` runs the library on concrete values.

Calls into outside crates that the library makes (`base64`, `which`,
`directories`, `toml`) and a few standard-library functions stand behind small
trusted wrappers whose contracts say what those functions are documented to
do.
