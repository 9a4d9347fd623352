# codecrafters-shell

A small interactive shell. The library under `src/` is verified with Verus;
`app/` is the program around it.

- `src/text.rs` — whitespace tokenizing (`split_whitespace`) and joining, with
  the laws that relate them (tokens are whitespace-free, surrounding
  whitespace does not matter, joining tokens with spaces and splitting again
  gives them back).
- `src/parser.rs` — a command line read as a command and its arguments.
- `src/commands.rs` and `src/commands/` — which command a line names
  (builtins first, then the program the search path holds), the argument
  rules of each builtin, the decimal reading of `exit` codes, and what each
  builtin writes.
- `src/finder.rs` — the search of the `PATH` directories, as a sequence of
  steps: the file system answers whether a file is executable, the library
  decides what to ask next and what was found.
- `src/executor.rs` — a minimal way of running a line (`exit`, `echo`).
- `app/` — reading standard input, the environment, the file system and child
  processes; it hands the library plain values and writes what the library
  decides.
