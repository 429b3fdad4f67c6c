# brutus

A terminal multiplexer whose core is verified with Verus.

- `src/` is the verified library:
  - `codec`: pids as four bytes in the machine's byte order;
  - `text`: decimal rendering and Unix path joining;
  - `io`: the I/O error kinds the start-up protocol tells apart;
  - `server`: terminal sizes, the pid file protocol with `PidFileError` and
    `SingletonProcessHandle`, and the decisions of the double-fork start-up;
  - `brutusd`: the runtime directory layout, the pid file of `brutusd`, the
    command and event pipes, `filter_err` and the command loop's decisions;
  - `utils`: terminal rectangles; `pane`: the pty's non-blocking I/O steps.
- `app/` is the program around it: forking, pseudo-terminals, files, pipes,
  locks, logging and the Cap'n Proto messages.
- `tests/` exercises the library on concrete values.
