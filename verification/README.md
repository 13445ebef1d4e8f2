# tasktui

The core of a terminal task manager for Windows, verified with Verus, and the programs around
it.

- `src/` is the library. It holds what the pages list and in which order, how the screen is
  divided, what each key and each mouse event does, the contract with the privileged service,
  and the rules of the updater. Every function states what it returns, and Verus proves it.
  What holds of several functions together stands beside them as public proof functions.
- `tests/` runs the library on concrete values.
- `app/` holds the programs: the terminal program, the helper `tasktuictl`, the updater, the
  uninstaller, and the service. They read and write, ask Windows, and leave every decision to
  the library.

The library calls three crates: `ratatui` divides areas and measures lines, `semver` reads and
ranks versions, and `sha2` hashes downloads. What it takes for granted of them is written above
each of those calls.

Loads in percent are held as the bit patterns of non-negative single-precision numbers, which
are ordered as the numbers are. Averaging, rounding, and printing them is left to `app/`.
